//! When a retried operation gives up, and what it reports.
//!
//! Attempts are numbered from 0. The delays between attempts grow by a
//! floating-point factor and are kept by the program that sleeps.

use vstd::prelude::*;

use crate::errors::{ErrCode, GatewayDError};
use crate::text::{append_str, chars_of, dec_digits, push_dec_digits, string_from_chars};

verus! {

/// Whether the failed attempt `attempt` was the last one allowed by `max`
/// attempts (0: unlimited).
pub open spec fn is_last_attempt(max: usize, attempt: usize) -> bool {
    max > 0 && attempt + 1 >= max
}

/// The error reported once the retries are exhausted: how many attempts
/// were made, and what the last one failed with.
pub open spec fn exhausted_message(attempts: nat, last: Seq<char>) -> Seq<char> {
    "retries exhausted after "@ + dec_digits(attempts) + " attempts: "@ + last
}

/// After attempt `attempt` failed with `err`: `Some` error to give up with
/// when it was the last attempt allowed, `None` to try again.
pub fn retry_verdict(max: usize, attempt: usize, err: &GatewayDError) -> (r: Option<GatewayDError>)
    requires
        attempt < usize::MAX,
    ensures
        r is Some <==> is_last_attempt(max, attempt),
        r matches Some(e) ==> e.code == ErrCode::RetriesExhausted && e.source is None && e.message@
            == exhausted_message((attempt + 1) as nat, err.message@),
{
    if max > 0 && attempt + 1 >= max {
        let mut m = chars_of("retries exhausted after ");
        push_dec_digits(&mut m, (attempt + 1) as u64);
        append_str(&mut m, " attempts: ");
        append_str(&mut m, err.message.as_str());
        Some(
            GatewayDError {
                code: ErrCode::RetriesExhausted,
                message: string_from_chars(m.as_slice()),
                source: None,
            },
        )
    } else {
        None
    }
}

} // verus!
