//! Message size limit.

use vstd::prelude::*;

verus! {

/// Default maximum message size (payload or total), in bytes: 2 GiB.
pub open spec fn spec_max_message_size() -> int {
    2147483648
}

/// The default maximum message size in bytes.
pub fn max_message_size() -> (r: i64)
    ensures
        r == spec_max_message_size(),
{
    2147483648
}

/// Struct-tag key used by the reflection-based header builder of other
/// clients; kept as a constant for documentation purposes.
pub const SOCKET_FIELD_TAG: &'static str = "podos";

} // verus!
