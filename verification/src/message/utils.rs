//! Pod-OS POSIX timestamps: `"+<seconds>.<microseconds>"`.

use vstd::prelude::*;

use crate::text::{dec_digits, push_dec_digits, push_zero_padded, string_from_chars, zero_pad};

verus! {

/// `+<secs>.<usecs>`, the microseconds zero-padded to six digits.
pub open spec fn timestamp_text(secs: nat, usecs: nat) -> Seq<char> {
    seq!['+'] + dec_digits(secs) + seq!['.'] + zero_pad(dec_digits(usecs), 6)
}

/// A point in time (`std::time::SystemTime`).
#[verifier::external_type_specification]
#[verifier::external_body]
pub struct ExSystemTime(std::time::SystemTime);

/// `SystemTime::now`: the current time. Which time that is is the clock's,
/// so nothing is stated of it.
#[verifier::external_body]
fn system_now() -> (r: std::time::SystemTime) {
    std::time::SystemTime::now()
}

/// `SystemTime::duration_since(UNIX_EPOCH)`: the time since the epoch, or
/// `None` when `t` is earlier (the call's error).
#[verifier::external_body]
fn since_unix_epoch(t: std::time::SystemTime) -> (r: Option<std::time::Duration>) {
    match t.duration_since(std::time::UNIX_EPOCH) {
        Ok(d) => Some(d),
        Err(_) => None,
    }
}

/// `Duration::as_secs`: the whole seconds of `d`.
#[verifier::external_body]
fn whole_secs(d: &std::time::Duration) -> (r: u64) {
    d.as_secs()
}

/// `Duration::subsec_micros`: the whole microseconds of the fraction of a
/// second in `d`, which std documents as always below one million.
#[verifier::external_body]
fn sub_micros(d: &std::time::Duration) -> (r: u32)
    ensures
        r < 1_000_000,
{
    d.subsec_micros()
}

/// Whole seconds and the microseconds within the second since the Unix
/// epoch, now; a time before the epoch reads as zero.
fn now_since_epoch() -> (r: (u64, u32))
    ensures
        r.1 < 1_000_000,
{
    match since_unix_epoch(system_now()) {
        Some(d) => (whole_secs(&d), sub_micros(&d)),
        None => (0, 0),
    }
}

/// The timestamp of a time `secs` seconds and `usecs` microseconds after the
/// epoch.
pub fn timestamp_from_duration(secs: u64, usecs: u32) -> (r: String)
    ensures
        r@ == timestamp_text(secs as nat, usecs as nat),
{
    let mut v: Vec<char> = Vec::new();
    v.push('+');
    push_dec_digits(&mut v, secs);
    v.push('.');
    let mut us: Vec<char> = Vec::new();
    push_dec_digits(&mut us, usecs as u64);
    push_zero_padded(&mut v, &us, 6);
    assert(v@ =~= timestamp_text(secs as nat, usecs as nat));
    string_from_chars(v.as_slice())
}

/// Returns the current time as a Pod-OS POSIX timestamp:
/// `"+<seconds>.<microseconds>"` — e.g. `"+1741388400.123456"`.
pub fn get_timestamp() -> (r: String)
    ensures
        exists|secs: u64, usecs: u32| usecs < 1_000_000 && r@ == timestamp_text(secs as nat, usecs as nat),
{
    let (secs, usecs) = now_since_epoch();
    timestamp_from_duration(secs, usecs)
}

/// A lowercase hexadecimal digit.
pub open spec fn is_lower_hex(c: char) -> bool {
    ('0' <= c && c <= '9') || ('a' <= c && c <= 'f')
}

/// The text of a version-4 UUID of the RFC 4122 variant in hyphenated
/// lowercase form: `xxxxxxxx-xxxx-4xxx-yxxx-xxxxxxxxxxxx`, `y` one of
/// `8`, `9`, `a`, `b`.
pub open spec fn is_uuid_v4_text(s: Seq<char>) -> bool {
    &&& s.len() == 36
    &&& forall|i: int|
        0 <= i < 36 ==> (if i == 8 || i == 13 || i == 18 || i == 23 {
            #[trigger] s[i] == '-'
        } else {
            is_lower_hex(s[i])
        })
    &&& s[14] == '4'
    &&& (s[19] == '8' || s[19] == '9' || s[19] == 'a' || s[19] == 'b')
}

/// A fresh random message id: `uuid::Uuid::new_v4` (version 4, RFC 4122
/// variant bits set), rendered by its `Display` impl (hyphenated,
/// lowercase). Which id comes out is chance.
#[verifier::external_body]
pub(crate) fn new_message_id() -> (r: String)
    ensures
        is_uuid_v4_text(r@),
{
    uuid::Uuid::new_v4().to_string()
}

} // verus!
