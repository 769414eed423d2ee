//! Fresh identifiers.

use vstd::prelude::*;

verus! {

/// Draws a random identifier with `uuid::Uuid::new_v4` and writes it with
/// its `Display` (`to_string`). Nothing is known of the result: it is
/// drawn anew at every call. uuid gives up where the operating system hands
/// out no random bytes.
#[verifier::external_body]
pub(crate) fn fresh_id() -> String {
    uuid::Uuid::new_v4().to_string()
}

} // verus!
