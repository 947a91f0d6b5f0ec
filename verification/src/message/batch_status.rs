//! Outcomes of StoreBatchLinks / StoreBatchEvents replies: the envelope may
//! say OK while the batch record reports failures.

use vstd::prelude::*;

use crate::message::types::Message;
use crate::text::{
    chars_of, eq_ignore_case, eq_ignore_case_chars, string_from_chars, trim_slice, trimmed,
};

verus! {

/// The record's message without surrounding white space, or `fallback`
/// when nothing is left of it.
pub open spec fn message_or(message: Seq<char>, fallback: Seq<char>) -> Seq<char> {
    if trimmed(message).len() == 0 {
        fallback
    } else {
        trimmed(message)
    }
}

/// The failure a StoreBatchLinks reply reports, if any: the batch record's
/// status is `ERROR` (in any case) or some links failed, or else the
/// response counts storage errors.
pub open spec fn links_failure(msg: Message) -> Option<Seq<char>> {
    match msg.response {
        None => None,
        Some(resp) => {
            let rec = resp.store_link_batch_event_record;
            if eq_ignore_case(rec.status@, "ERROR"@) || rec.links_with_errors > 0 {
                Some(message_or(rec.message@, "link store failed"@))
            } else if resp.storage_error_count > 0 {
                Some("link store failed"@)
            } else {
                None
            }
        },
    }
}

/// The failure a StoreBatchEvents reply reports, if any: the batch
/// record's status is `ERROR` (in any case).
pub open spec fn events_failure(msg: Message) -> Option<Seq<char>> {
    match msg.response {
        None => None,
        Some(resp) => {
            let rec = resp.store_batch_event_record;
            if eq_ignore_case(rec.status@, "ERROR"@) {
                Some(message_or(rec.message@, "batch event store failed"@))
            } else {
                None
            }
        },
    }
}

fn is_error_status(status: &str) -> (r: bool)
    ensures
        r == eq_ignore_case(status@, "ERROR"@),
{
    let s = chars_of(status);
    let e = chars_of("ERROR");
    eq_ignore_case_chars(s.as_slice(), e.as_slice())
}

fn trimmed_or(message: &str, fallback: &str) -> (r: String)
    ensures
        r@ == message_or(message@, fallback@),
{
    let v = chars_of(message);
    let t = trim_slice(v.as_slice());
    if t.len() == 0 {
        fallback.to_owned()
    } else {
        string_from_chars(t.as_slice())
    }
}

/// The error message of a StoreBatchLinks reply whose batch record reports
/// failures; `None` when it reports none.
pub fn batch_links_failed(msg: &Message) -> (r: Option<String>)
    ensures
        r matches Some(s) ==> links_failure(*msg) == Some(s@),
        r is None <==> links_failure(*msg) is None,
{
    match &msg.response {
        None => None,
        Some(resp) => {
            let rec = &resp.store_link_batch_event_record;
            if is_error_status(rec.status.as_str()) || rec.links_with_errors > 0 {
                Some(trimmed_or(rec.message.as_str(), "link store failed"))
            } else if resp.storage_error_count > 0 {
                Some("link store failed".to_owned())
            } else {
                None
            }
        },
    }
}

/// The error message of a StoreBatchEvents reply whose batch record
/// reports failure; `None` when it does not.
pub fn batch_events_failed(msg: &Message) -> (r: Option<String>)
    ensures
        r matches Some(s) ==> events_failure(*msg) == Some(s@),
        r is None <==> events_failure(*msg) is None,
{
    match &msg.response {
        None => None,
        Some(resp) => {
            let rec = &resp.store_batch_event_record;
            if is_error_status(rec.status.as_str()) {
                Some(trimmed_or(rec.message.as_str(), "batch event store failed"))
            } else {
                None
            }
        },
    }
}

} // verus!
