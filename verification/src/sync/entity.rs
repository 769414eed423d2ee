//! What the reconciler needs to know of a record.

use crate::keyed::Keyed;
use crate::time::Timestamp;
use vstd::prelude::*;

verus! {

/// A record that both sides keep under one identifier, assigned once at
/// creation, and stamp anew on every mutation.
pub trait SyncEntity: Keyed {
    /// The instant of the last mutation of a record whose view is `value`.
    spec fn modified_of(value: Self::V) -> Timestamp;

    /// The instant of the last mutation.
    fn last_modified(&self) -> (at: Timestamp)
        ensures
            at == Self::modified_of(self@),
    ;

    /// Whether the two records agree in every field.
    fn same_content(&self, other: &Self) -> (same: bool)
        ensures
            same == (self@ == other@),
    ;

    /// A second record with the same content.
    fn duplicate(&self) -> (copy: Self)
        ensures
            copy@ == self@,
    ;
}

} // verus!
