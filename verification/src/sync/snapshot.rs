//! The keyed collection of records read from one side at the start of a run.

use crate::keyed::KeyedList;
use vstd::prelude::*;

verus! {

/// The records of one side, each under its own identifier.
pub type Snapshot<E> = KeyedList<E>;

} // verus!
