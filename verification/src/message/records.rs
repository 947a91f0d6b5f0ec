//! Decoding of `key=value` records: header fields into response and event
//! fields, link lines and tag lines.
//!
//! A record is a list of pairs; a key given more than once keeps its last
//! value, and where several keys set one field the pair that comes last
//! decides.

use vstd::prelude::*;

use crate::message::header::Field;
use crate::message::types::{
    DateTimeObject, EventFields, LinkFields, Message, PayloadFields, ResponseFields,
    StoreBatchEventRecord, StoreLinkBatchEventRecord, TagOutput,
};
use crate::message::wire::{
    find_last, key_views, last_value, pairs_view, parse_i32_chars, split_on, Chars,
};
use crate::text::{
    ascii_lower, chars_eq_str, chars_of, first_index_of, lemma_first_index_of,
    lemma_first_index_of_unique, lower_text, parse_i32, parse_i32_or_zero, slice_to_vec_chars,
    string_from_chars,
};

verus! {

// ── Lookups ──────────────────────────────────────────────────────────────────

/// The value of the last pair whose key is one of `keys`, or empty.
pub open spec fn value_of(fs: Seq<Field>, keys: Seq<Seq<char>>) -> Seq<char> {
    match last_value(fs, keys) {
        Some(v) => v,
        None => Seq::empty(),
    }
}

/// That value read as an `i32` (0 when absent or not a number).
pub open spec fn int_of(fs: Seq<Field>, keys: Seq<Seq<char>>) -> i32 {
    match last_value(fs, keys) {
        Some(v) => parse_i32_or_zero(v),
        None => 0,
    }
}

/// Whether some pair has one of `keys`.
pub open spec fn has_key(fs: Seq<Field>, keys: Seq<Seq<char>>) -> bool {
    last_value(fs, keys) is Some
}

/// Whether `s` begins with `p`.
pub open spec fn has_prefix(s: Seq<char>, p: Seq<char>) -> bool {
    p.len() <= s.len() && s.take(p.len() as int) == p
}

/// `s.parse::<i32>().unwrap_or(0)` on characters.
pub fn int_or_zero(v: &[char]) -> (r: i32)
    ensures
        r == parse_i32_or_zero(v@),
{
    match parse_i32_chars(v) {
        Some(x) => x,
        None => 0,
    }
}

pub fn lookup_chars(pairs: &Vec<(Chars, Chars)>, keys: &[&str]) -> (r: Vec<char>)
    ensures
        r@ == value_of(pairs_view(pairs@), key_views(keys@)),
{
    match find_last(pairs, keys) {
        Some(i) => slice_to_vec_chars(pairs[i].1.as_slice(), 0, pairs[i].1.len()),
        None => Vec::new(),
    }
}

pub fn lookup_string(pairs: &Vec<(Chars, Chars)>, keys: &[&str]) -> (r: String)
    ensures
        r@ == value_of(pairs_view(pairs@), key_views(keys@)),
{
    let v = lookup_chars(pairs, keys);
    string_from_chars(v.as_slice())
}

pub fn lookup_int(pairs: &Vec<(Chars, Chars)>, keys: &[&str]) -> (r: i32)
    ensures
        r == int_of(pairs_view(pairs@), key_views(keys@)),
{
    match find_last(pairs, keys) {
        Some(i) => int_or_zero(pairs[i].1.as_slice()),
        None => 0,
    }
}

pub fn has_any_key(pairs: &Vec<(Chars, Chars)>, keys: &[&str]) -> (r: bool)
    ensures
        r == has_key(pairs_view(pairs@), key_views(keys@)),
{
    find_last(pairs, keys).is_some()
}

/// The value under key `a`, or empty.
pub fn text1(pairs: &Vec<(Chars, Chars)>, a: &str) -> (r: String)
    ensures
        r@ == value_of(pairs_view(pairs@), seq![a@]),
{
    let k = [a];
    assert(key_views(k@) =~= seq![a@]);
    lookup_string(pairs, &k)
}

/// The value under the last of keys `a`, `b`, or empty.
pub fn text2(pairs: &Vec<(Chars, Chars)>, a: &str, b: &str) -> (r: String)
    ensures
        r@ == value_of(pairs_view(pairs@), seq![a@, b@]),
{
    let k = [a, b];
    assert(key_views(k@) =~= seq![a@, b@]);
    lookup_string(pairs, &k)
}

/// The value under the last of keys `a`, `b`, `c`, or empty.
pub fn text3(pairs: &Vec<(Chars, Chars)>, a: &str, b: &str, c: &str) -> (r: String)
    ensures
        r@ == value_of(pairs_view(pairs@), seq![a@, b@, c@]),
{
    let k = [a, b, c];
    assert(key_views(k@) =~= seq![a@, b@, c@]);
    lookup_string(pairs, &k)
}

/// The integer under key `a` (0 when absent or not a number).
pub fn int1(pairs: &Vec<(Chars, Chars)>, a: &str) -> (r: i32)
    ensures
        r == int_of(pairs_view(pairs@), seq![a@]),
{
    let k = [a];
    assert(key_views(k@) =~= seq![a@]);
    lookup_int(pairs, &k)
}

pub fn int2(pairs: &Vec<(Chars, Chars)>, a: &str, b: &str) -> (r: i32)
    ensures
        r == int_of(pairs_view(pairs@), seq![a@, b@]),
{
    let k = [a, b];
    assert(key_views(k@) =~= seq![a@, b@]);
    lookup_int(pairs, &k)
}

pub fn int3(pairs: &Vec<(Chars, Chars)>, a: &str, b: &str, c: &str) -> (r: i32)
    ensures
        r == int_of(pairs_view(pairs@), seq![a@, b@, c@]),
{
    let k = [a, b, c];
    assert(key_views(k@) =~= seq![a@, b@, c@]);
    lookup_int(pairs, &k)
}

/// The characters under key `a`, or nothing.
pub fn find1(pairs: &Vec<(Chars, Chars)>, a: &str) -> (r: Option<usize>)
    ensures
        match r {
            Some(i) => i < pairs@.len() && last_value(pairs_view(pairs@), seq![a@]) == Some(
                pairs@[i as int].1@,
            ),
            None => last_value(pairs_view(pairs@), seq![a@]) is None,
        },
{
    let k = [a];
    assert(key_views(k@) =~= seq![a@]);
    find_last(pairs, &k)
}

/// Whether `v` begins with the characters of `p`.
pub fn starts_with(v: &[char], p: &str) -> (r: bool)
    ensures
        r == has_prefix(v@, p@),
{
    let pv = chars_of(p);
    if pv.len() > v.len() {
        return false;
    }
    let head = slice_to_vec_chars(v, 0, pv.len());
    assert(head@ =~= v@.take(pv@.len() as int));
    crate::text::chars_eq(head.as_slice(), pv.as_slice())
}

// ── Event and response fields of a header ───────────────────────────────────

/// The date and time fields of a record.
pub open spec fn date_time_ok(d: DateTimeObject, fs: Seq<Field>) -> bool {
    &&& d.year == int_of(fs, seq!["_year"@])
    &&& d.month == int_of(fs, seq!["_month"@])
    &&& d.day == int_of(fs, seq!["_day"@])
    &&& d.hour == int_of(fs, seq!["_hour"@])
    &&& d.min == int_of(fs, seq!["_min"@])
    &&& d.sec == int_of(fs, seq!["_sec"@])
    &&& d.usec == int_of(fs, seq!["_usec"@])
}

/// The event fields a record sets, every other field but the tags and links
/// empty.
pub open spec fn record_event_fields_ok(e: EventFields, fs: Seq<Field>) -> bool {
    &&& e.id@ == value_of(fs, seq!["_event_id"@, "event_id"@])
    &&& e.local_id@ == value_of(fs, seq!["local_id"@, "_event_local_id"@])
    &&& e.unique_id@ == value_of(fs, seq!["unique_id"@, "_unique_id"@, "tag:1:_unique_id"@])
    &&& e.event_type@ == value_of(fs, seq!["event_type"@, "_type"@, "type"@])
    &&& e.owner@ == value_of(fs, seq!["_owner_id"@, "owner"@, "_event_owner"@])
    &&& e.timestamp@ == value_of(fs, seq!["timestamp"@, "_timestamp"@])
    &&& e.hits == int_of(fs, seq!["_hits"@])
    &&& date_time_ok(e.date_time, fs)
    &&& e.owner_unique_id@.len() == 0
    &&& e.location@.len() == 0
    &&& e.location_separator@.len() == 0
    &&& e.payload_data.is_blank()
    &&& e.status@.len() == 0
}

/// The event fields a record sets, every other field empty.
pub open spec fn record_event_ok(e: EventFields, fs: Seq<Field>) -> bool {
    &&& record_event_fields_ok(e, fs)
    &&& e.tags@.len() == 0
    &&& e.links@.len() == 0
}

/// Whether a record names an event: an id, unique id or owner.
pub open spec fn names_event(fs: Seq<Field>) -> bool {
    value_of(fs, seq!["_event_id"@, "event_id"@]).len() > 0 || value_of(
        fs,
        seq!["unique_id"@, "_unique_id"@, "tag:1:_unique_id"@],
    ).len() > 0 || value_of(fs, seq!["_owner_id"@, "owner"@, "_event_owner"@]).len() > 0
}

/// The single-valued response fields a header sets.
pub open spec fn header_response_scalars_ok(r: ResponseFields, fs: Seq<Field>) -> bool {
    &&& r.status@ == value_of(fs, seq!["_status"@])
    &&& r.message@ == value_of(fs, seq!["_msg"@])
    &&& r.total_events == int_of(
        fs,
        seq!["_total_event_hits"@, "_count"@, "total_link_requests_found"@],
    )
    &&& r.storage_success_count == int_of(fs, seq!["_links_ok"@])
    &&& r.storage_error_count == int_of(fs, seq!["_links_with_errors"@])
    &&& r.returned_events == int_of(fs, seq!["_returned_event_hits"@])
    &&& r.start_result == int_of(fs, seq!["_start_result"@])
    &&& r.end_result == int_of(fs, seq!["_end_result"@])
    &&& r.link_count == int_of(fs, seq!["_set_link_count"@, "_link_count"@])
    &&& r.tag_count == int_of(fs, seq!["_tag_count"@])
    &&& r.link_id@ == value_of(fs, seq!["link_event"@])
    &&& r.is_buffered == (last_value(fs, seq!["_is_buffered"@]) matches Some(v) && (v == "Y"@ || v
        == "true"@))
    &&& r.date_time.is_blank()
    &&& r.match_term_count == 0
}

/// The response fields a header sets, every other field empty.
pub open spec fn header_response_ok(r: ResponseFields, fs: Seq<Field>) -> bool {
    &&& header_response_scalars_ok(r, fs)
    &&& r.event_records@.len() == 0
    &&& r.store_link_batch_event_record.is_blank()
    &&& r.store_batch_event_record.is_blank()
    &&& r.brief_hits@.len() == 0
}

/// The single-valued response fields of `r` and `o` agree.
pub open spec fn same_response_scalars(r: ResponseFields, o: ResponseFields) -> bool {
    &&& r.status == o.status
    &&& r.message == o.message
    &&& r.tag_count == o.tag_count
    &&& r.link_count == o.link_count
    &&& r.link_id == o.link_id
    &&& r.date_time == o.date_time
    &&& r.total_events == o.total_events
    &&& r.returned_events == o.returned_events
    &&& r.start_result == o.start_result
    &&& r.end_result == o.end_result
    &&& r.storage_error_count == o.storage_error_count
    &&& r.storage_success_count == o.storage_success_count
    &&& r.match_term_count == o.match_term_count
    &&& r.is_buffered == o.is_buffered
}

/// The single-valued response fields of `r` are empty.
pub open spec fn blank_response_scalars(r: ResponseFields) -> bool {
    &&& r.status@.len() == 0
    &&& r.message@.len() == 0
    &&& r.tag_count == 0
    &&& r.link_count == 0
    &&& r.link_id@.len() == 0
    &&& r.date_time.is_blank()
    &&& r.total_events == 0
    &&& r.returned_events == 0
    &&& r.start_result == 0
    &&& r.end_result == 0
    &&& r.storage_error_count == 0
    &&& r.storage_success_count == 0
    &&& r.match_term_count == 0
    &&& !r.is_buffered
}

/// Whether a header carries a response: a status or a non-zero total.
pub open spec fn names_response(fs: Seq<Field>) -> bool {
    value_of(fs, seq!["_status"@]).len() > 0 || int_of(
        fs,
        seq!["_total_event_hits"@, "_count"@, "total_link_requests_found"@],
    ) != 0
}

fn date_time_of(pairs: &Vec<(Chars, Chars)>) -> (d: DateTimeObject)
    ensures
        date_time_ok(d, pairs_view(pairs@)),
{
    DateTimeObject {
        year: int1(pairs, "_year"),
        month: int1(pairs, "_month"),
        day: int1(pairs, "_day"),
        hour: int1(pairs, "_hour"),
        min: int1(pairs, "_min"),
        sec: int1(pairs, "_sec"),
        usec: int1(pairs, "_usec"),
    }
}

/// The event fields of a record (each pair as `decode_event_field` reads it).
pub fn decode_event_fields(pairs: &Vec<(Chars, Chars)>) -> (e: EventFields)
    ensures
        record_event_ok(e, pairs_view(pairs@)),
{
    EventFields {
        unique_id: text3(pairs, "unique_id", "_unique_id", "tag:1:_unique_id"),
        id: text2(pairs, "_event_id", "event_id"),
        local_id: text2(pairs, "local_id", "_event_local_id"),
        owner: text3(pairs, "_owner_id", "owner", "_event_owner"),
        owner_unique_id: String::new(),
        timestamp: text2(pairs, "timestamp", "_timestamp"),
        date_time: date_time_of(pairs),
        location: String::new(),
        location_separator: String::new(),
        event_type: text3(pairs, "event_type", "_type", "type"),
        tags: Vec::new(),
        links: Vec::new(),
        payload_data: PayloadFields::default(),
        status: String::new(),
        hits: int1(pairs, "_hits"),
    }
}

/// The response fields of a header.
pub fn decode_response_fields(pairs: &Vec<(Chars, Chars)>) -> (r: ResponseFields)
    ensures
        header_response_ok(r, pairs_view(pairs@)),
{
    let buffered = match find1(pairs, "_is_buffered") {
        Some(i) => chars_eq_str(pairs[i].1.as_slice(), "Y") || chars_eq_str(
            pairs[i].1.as_slice(),
            "true",
        ),
        None => false,
    };
    ResponseFields {
        status: text1(pairs, "_status"),
        message: text1(pairs, "_msg"),
        tag_count: int1(pairs, "_tag_count"),
        link_count: int2(pairs, "_set_link_count", "_link_count"),
        link_id: text1(pairs, "link_event"),
        date_time: DateTimeObject::default(),
        total_events: int3(pairs, "_total_event_hits", "_count", "total_link_requests_found"),
        returned_events: int1(pairs, "_returned_event_hits"),
        start_result: int1(pairs, "_start_result"),
        end_result: int1(pairs, "_end_result"),
        storage_error_count: int1(pairs, "_links_with_errors"),
        storage_success_count: int1(pairs, "_links_ok"),
        event_records: Vec::new(),
        store_link_batch_event_record: StoreLinkBatchEventRecord::default(),
        store_batch_event_record: StoreBatchEventRecord::default(),
        match_term_count: 0,
        is_buffered: buffered,
        brief_hits: Vec::new(),
    }
}

/// Sets the response and event sections of `msg` from its header: each is
/// present when the header names one.
pub fn transform_header(pairs: &Vec<(Chars, Chars)>, msg: &mut Message)
    ensures
        final(msg).envelope == old(msg).envelope,
        final(msg).payload == old(msg).payload,
        final(msg).neural_memory == old(msg).neural_memory,
        final(msg).public_key == old(msg).public_key,
        names_response(pairs_view(pairs@)) ==> (final(msg).response matches Some(r)
            && header_response_ok(r, pairs_view(pairs@))),
        !names_response(pairs_view(pairs@)) ==> final(msg).response == old(msg).response,
        names_event(pairs_view(pairs@)) ==> (final(msg).event matches Some(e) && record_event_ok(
            e,
            pairs_view(pairs@),
        )),
        !names_event(pairs_view(pairs@)) ==> final(msg).event == old(msg).event,
{
    let response = decode_response_fields(pairs);
    let event = decode_event_fields(pairs);
    if !response.status.as_str().is_empty() || response.total_events != 0 {
        msg.response = Some(response);
    }
    if !event.id.as_str().is_empty() || !event.unique_id.as_str().is_empty()
        || !event.owner.as_str().is_empty() {
        msg.event = Some(event);
    }
}


// ── Decimal text of a float ──────────────────────────────────────────────────

pub open spec fn is_dec_digit(c: char) -> bool {
    '0' <= c && c <= '9'
}

/// Whether every character of `s` is a decimal digit.
pub open spec fn dec_run(s: Seq<char>) -> bool {
    forall|i: int| 0 <= i < s.len() ==> #[trigger] is_dec_digit(s[i])
}

/// `s` without one leading `+` or `-`.
pub open spec fn drop_sign(s: Seq<char>) -> Seq<char> {
    if s.len() > 0 && (s[0] == '+' || s[0] == '-') {
        s.drop_first()
    } else {
        s
    }
}

/// `Digit+`, `Digit+ '.' Digit*` or `Digit* '.' Digit+`.
pub open spec fn mantissa_ok(m: Seq<char>) -> bool {
    match first_index_of(m, '.') {
        None => m.len() > 0 && dec_run(m),
        Some(i) => dec_run(m.take(i)) && dec_run(m.skip(i + 1)) && m.len() > 1,
    }
}

/// `Sign? Digit+`.
pub open spec fn exponent_ok(x: Seq<char>) -> bool {
    drop_sign(x).len() > 0 && dec_run(drop_sign(x))
}

/// The grammar `f64::from_str` documents: an optional sign, then `inf`,
/// `infinity`, `nan` (any case) or a number with an optional exponent.
pub open spec fn float_text(s: Seq<char>) -> bool {
    let b = lower_text(drop_sign(s));
    ||| b == "inf"@
    ||| b == "infinity"@
    ||| b == "nan"@
    ||| match first_index_of(b, 'e') {
        None => mantissa_ok(b),
        Some(i) => mantissa_ok(b.take(i)) && exponent_ok(b.skip(i + 1)),
    }
}

/// Whether `v[start..end]` is all decimal digits.
fn dec_run_at(v: &Vec<char>, start: usize, end: usize) -> (r: bool)
    requires
        start <= end <= v@.len(),
    ensures
        r == dec_run(v@.subrange(start as int, end as int)),
{
    let mut i = start;
    while i < end
        invariant
            start <= i <= end <= v@.len(),
            forall|j: int| start <= j < i ==> #[trigger] is_dec_digit(v@[j]),
        decreases end - i,
    {
        if !('0' <= v[i] && v[i] <= '9') {
            assert(!is_dec_digit(v@.subrange(start as int, end as int)[i - start]));
            return false;
        }
        i = i + 1;
    }
    assert forall|j: int| 0 <= j < end - start implies #[trigger] is_dec_digit(
        v@.subrange(start as int, end as int)[j],
    ) by {
        assert(v@.subrange(start as int, end as int)[j] == v@[start + j]);
    }
    true
}

fn mantissa_at(v: &Vec<char>, start: usize, end: usize) -> (r: bool)
    requires
        start <= end <= v@.len(),
    ensures
        r == mantissa_ok(v@.subrange(start as int, end as int)),
{
    let part = slice_to_vec_chars(v.as_slice(), start, end);
    match crate::text::find_char(part.as_slice(), '.') {
        None => part.len() > 0 && dec_run_at(&part, 0, part.len()) && {
            assert(part@.subrange(0, part@.len() as int) =~= part@);
            true
        },
        Some(i) => {
            assert(part@.subrange(0, i as int) =~= part@.take(i as int));
            assert(part@.subrange(i + 1, part@.len() as int) =~= part@.skip(i + 1));
            dec_run_at(&part, 0, i) && dec_run_at(&part, i + 1, part.len()) && part.len() > 1
        },
    }
}

/// Whether `v` is decimal text `f64::from_str` reads.
pub fn float_text_ok(v: &[char]) -> (r: bool)
    ensures
        r == float_text(v@),
{
    let n = v.len();
    let start: usize = if n > 0 && (v[0] == '+' || v[0] == '-') {
        1
    } else {
        0
    };
    let mut b: Vec<char> = Vec::new();
    let mut i = start;
    while i < n
        invariant
            start <= i <= n == v@.len(),
            b@ == lower_text(v@.subrange(start as int, i as int)),
        decreases n - i,
    {
        let c = v[i];
        let l = if 'A' <= c && c <= 'Z' {
            ((c as u8) + 32) as char
        } else {
            c
        };
        assert(l == ascii_lower(c));
        b.push(l);
        assert(lower_text(v@.subrange(start as int, i + 1)) =~= lower_text(
            v@.subrange(start as int, i as int),
        ).push(l));
        i = i + 1;
    }
    assert(drop_sign(v@) =~= v@.subrange(start as int, n as int));
    if chars_eq_str(b.as_slice(), "inf") || chars_eq_str(b.as_slice(), "infinity")
        || chars_eq_str(b.as_slice(), "nan") {
        return true;
    }
    match crate::text::find_char(b.as_slice(), 'e') {
        None => {
            assert(b@.subrange(0, b@.len() as int) =~= b@);
            mantissa_at(&b, 0, b.len())
        },
        Some(k) => {
            assert(b@.subrange(0, k as int) =~= b@.take(k as int));
            let x = slice_to_vec_chars(b.as_slice(), k + 1, b.len());
            assert(x@ =~= b@.skip(k + 1));
            let xs: usize = if x.len() > 0 && (x[0] == '+' || x[0] == '-') {
                1
            } else {
                0
            };
            assert(drop_sign(x@) =~= x@.subrange(xs as int, x@.len() as int));
            mantissa_at(&b, 0, k) && x.len() > xs && dec_run_at(&x, xs, x.len())
        },
    }
}

// ── Link and tag lines ───────────────────────────────────────────────────────

/// A link strength as `f64` parsing keeps it: the text when it reads as a
/// float, otherwise empty (zero).
pub open spec fn strength_of(fs: Seq<Field>, key: Seq<char>) -> Seq<char> {
    match last_value(fs, seq![key]) {
        Some(v) => if float_text(v) {
            v
        } else {
            Seq::empty()
        },
        None => Seq::empty(),
    }
}

/// The fields of the link a `_link=` record describes, apart from its tags.
pub open spec fn link_fields_ok(l: LinkFields, rest: Seq<char>) -> bool {
    let fs = crate::message::wire::tab_pairs(rest);
    &&& l.id@ == value_of(fs, seq!["link_id"@])
    &&& l.event_a@ == value_of(fs, seq!["event_id_a"@])
    &&& l.event_b@ == value_of(fs, seq!["event_id_b"@])
    &&& l.unique_id_a@ == value_of(fs, seq!["unique_id_a"@])
    &&& l.unique_id_b@ == value_of(fs, seq!["unique_id_b"@])
    &&& l.strength_a@ == strength_of(fs, "strength_a"@)
    &&& l.strength_b@ == strength_of(fs, "strength_b"@)
    &&& l.category@ == value_of(fs, seq!["category"@])
    &&& l.link_type@ == value_of(fs, seq!["type"@])
    &&& l.owner@ == value_of(fs, seq!["owner"@])
    &&& l.timestamp@ == value_of(fs, seq!["timestamp"@])
    &&& l.unique_id@.len() == 0
    &&& l.local_id@.len() == 0
    &&& l.date_time.is_blank()
    &&& l.location@.len() == 0
    &&& l.location_separator@.len() == 0
    &&& l.owner_unique_id@.len() == 0
    &&& l.owner_id@.len() == 0
    &&& l.status@.len() == 0
    &&& l.message@.len() == 0
}

/// The link a `_link=` record describes (`parse_link_line`), its tags not
/// yet attached.
pub open spec fn link_line_ok(l: LinkFields, rest: Seq<char>) -> bool {
    &&& link_fields_ok(l, rest)
    &&& l.tags@.len() == 0
    &&& l.target_tags@.len() == 0
}

fn strength_field(pairs: &Vec<(Chars, Chars)>, key: &str) -> (r: String)
    ensures
        r@ == strength_of(pairs_view(pairs@), key@),
{
    match find1(pairs, key) {
        Some(i) => if float_text_ok(pairs[i].1.as_slice()) {
            string_from_chars(pairs[i].1.as_slice())
        } else {
            String::new()
        },
        None => String::new(),
    }
}

/// The link of a `_link=` record.
pub fn parse_link_line(rest: &Vec<char>) -> (l: LinkFields)
    ensures
        link_line_ok(l, rest@),
{
    let pairs = crate::message::wire::parse_tab_pairs(rest);
    LinkFields {
        unique_id: String::new(),
        id: text1(&pairs, "link_id"),
        local_id: String::new(),
        owner: text1(&pairs, "owner"),
        timestamp: text1(&pairs, "timestamp"),
        date_time: DateTimeObject::default(),
        location: String::new(),
        location_separator: String::new(),
        event_a: text1(&pairs, "event_id_a"),
        event_b: text1(&pairs, "event_id_b"),
        unique_id_a: text1(&pairs, "unique_id_a"),
        unique_id_b: text1(&pairs, "unique_id_b"),
        strength_a: strength_field(&pairs, "strength_a"),
        strength_b: strength_field(&pairs, "strength_b"),
        category: text1(&pairs, "category"),
        link_type: text1(&pairs, "type"),
        owner_unique_id: String::new(),
        owner_id: String::new(),
        tags: Vec::new(),
        target_tags: Vec::new(),
        status: String::new(),
        message: String::new(),
    }
}

/// A tag with the given frequency, category, key and value, every other
/// field empty.
pub open spec fn tag_ok(
    t: TagOutput,
    frequency: i32,
    category: Seq<char>,
    key: Seq<char>,
    value: Seq<char>,
) -> bool {
    &&& t.frequency == frequency
    &&& t.category@ == category
    &&& t.key@ == key
    &&& t.value@ == value
    &&& t.owner@.len() == 0
    &&& t.timestamp@.len() == 0
    &&& t.target_tag_id@.len() == 0
}

fn make_tag(frequency: i32, category: &[char], key: &[char], value: &[char]) -> (t: TagOutput)
    ensures
        tag_ok(t, frequency, category@, key@, value@),
{
    TagOutput {
        frequency,
        category: string_from_chars(category),
        key: string_from_chars(key),
        value: string_from_chars(value),
        owner: String::new(),
        timestamp: String::new(),
        target_tag_id: String::new(),
    }
}

/// The tag a `<id>\t<freq>\t<category>[\t<value>]` line gives, if it has at
/// least three parts (`parse_tag_output_line`).
pub open spec fn tag_line(t: TagOutput, s: Seq<char>) -> bool {
    let ps = split_on(s, '\t');
    tag_ok(
        t,
        parse_i32_or_zero(ps[1]),
        ps[2],
        Seq::empty(),
        if ps.len() > 3 {
            ps[3]
        } else {
            Seq::empty()
        },
    )
}

pub open spec fn is_tag_line(s: Seq<char>) -> bool {
    split_on(s, '\t').len() >= 3
}

/// The first tab-separated part of a line.
pub open spec fn first_part(s: Seq<char>) -> Seq<char> {
    split_on(s, '\t')[0]
}

/// Parses a `<id>\t<freq>\t<category>[\t<value>]` line.
pub fn parse_tag_output_line(s: &Vec<char>) -> (r: Option<TagOutput>)
    ensures
        r is Some <==> is_tag_line(s@),
        r matches Some(t) ==> tag_line(t, s@),
{
    let ps = crate::message::wire::piece_ranges(s, '\t');
    if ps.len() < 3 {
        return None;
    }
    let f = slice_to_vec_chars(s.as_slice(), ps[1].0, ps[1].1);
    let c = slice_to_vec_chars(s.as_slice(), ps[2].0, ps[2].1);
    let v = if ps.len() > 3 {
        slice_to_vec_chars(s.as_slice(), ps[3].0, ps[3].1)
    } else {
        Vec::new()
    };
    let k: Vec<char> = Vec::new();
    assert(split_on(s@, '\t')[1] == f@);
    assert(split_on(s@, '\t')[2] == c@);
    assert(ps@.len() > 3 ==> split_on(s@, '\t')[3] == v@);
    Some(make_tag(int_or_zero(f.as_slice()), c.as_slice(), k.as_slice(), v.as_slice()))
}

/// The first tab-separated part of `s`.
pub fn first_part_of(s: &Vec<char>) -> (r: Vec<char>)
    ensures
        r@ == first_part(s@),
{
    let ps = crate::message::wire::piece_ranges(s, '\t');
    proof {
        crate::message::wire::lemma_split_nonempty(s@, '\t');
    }
    assert(split_on(s@, '\t')[0] == s@.subrange(ps@[0].0 as int, ps@[0].1 as int));
    slice_to_vec_chars(s.as_slice(), ps[0].0, ps[0].1)
}

/// `s.splitn(3, ':')` when it gives three parts: the text before the first
/// `:`, between the first and second, and after the second.
pub open spec fn colon3(s: Seq<char>) -> Option<(Seq<char>, Seq<char>, Seq<char>)> {
    match first_index_of(s, ':') {
        Some(i) => {
            let t = s.skip(i + 1);
            match first_index_of(t, ':') {
                Some(j) => Some((s.take(i), t.take(j), t.skip(j + 1))),
                None => None,
            }
        },
        None => None,
    }
}

fn colon3_of(s: &Vec<char>) -> (r: Option<(Vec<char>, Vec<char>)>)
    ensures
        match r {
            Some((mid, tail)) => colon3(s@) matches Some(p) && p.1 == mid@ && p.2 == tail@,
            None => colon3(s@) is None,
        },
{
    match crate::text::find_char(s.as_slice(), ':') {
        Some(i) => {
            let n = s.len();
            let t = slice_to_vec_chars(s.as_slice(), i + 1, n);
            assert(t@ =~= s@.skip(i + 1));
            match crate::text::find_char(t.as_slice(), ':') {
                Some(j) => {
                    let mid = slice_to_vec_chars(t.as_slice(), 0, j);
                    let tail = slice_to_vec_chars(t.as_slice(), j + 1, t.len());
                    assert(mid@ =~= t@.take(j as int));
                    assert(tail@ =~= t@.skip(j + 1));
                    Some((mid, tail))
                },
                None => None,
            }
        },
        None => None,
    }
}

/// The tag of a `tag:<freq>:<key>` field of an event record
/// (`parse_inline_tag`).
pub open spec fn inline_tag(key: Seq<char>, value: Seq<char>, t: TagOutput) -> bool {
    colon3(key) matches Some(p) && tag_ok(t, parse_i32_or_zero(p.1), Seq::empty(), p.2, value)
}

pub fn parse_inline_tag(key: &Vec<char>, value: &Vec<char>) -> (r: Option<TagOutput>)
    ensures
        r is Some <==> colon3(key@) is Some,
        r matches Some(t) ==> inline_tag(key@, value@, t),
{
    match colon3_of(key) {
        Some((mid, tail)) => {
            let c: Vec<char> = Vec::new();
            Some(make_tag(int_or_zero(mid.as_slice()), c.as_slice(), tail.as_slice(), value.as_slice()))
        },
        None => None,
    }
}

/// The tag of an `event_tag:<num>:<freq>` header field whose value is
/// `key=value` (or a bare key).
pub open spec fn event_tag(key: Seq<char>, val: Seq<char>, t: TagOutput) -> bool {
    colon3(key) matches Some(p) && match first_index_of(val, '=') {
        Some(eq) => tag_ok(t, parse_i32_or_zero(p.2), Seq::empty(), val.take(eq), val.skip(eq + 1)),
        None => tag_ok(t, parse_i32_or_zero(p.2), Seq::empty(), val, Seq::empty()),
    }
}

/// Parse `event_tag:<num>:<freq>=key=value` → `TagOutput`.
pub fn parse_event_tag_field(key: &str, val: &str) -> (r: Option<TagOutput>)
    ensures
        r is Some <==> colon3(key@) is Some,
        r matches Some(t) ==> event_tag(key@, val@, t),
{
    let k = chars_of(key);
    let v = chars_of(val);
    event_tag_of(&k, &v)
}

pub fn event_tag_of(k: &Vec<char>, v: &Vec<char>) -> (r: Option<TagOutput>)
    ensures
        r is Some <==> colon3(k@) is Some,
        r matches Some(t) ==> event_tag(k@, v@, t),
{
    match colon3_of(k) {
        Some((_mid, tail)) => {
            let freq = int_or_zero(tail.as_slice());
            let c: Vec<char> = Vec::new();
            match crate::text::find_char(v.as_slice(), '=') {
                Some(eq) => {
                    let n = v.len();
                    let a = slice_to_vec_chars(v.as_slice(), 0, eq);
                    let b = slice_to_vec_chars(v.as_slice(), eq + 1, n);
                    assert(a@ =~= v@.take(eq as int));
                    assert(b@ =~= v@.skip(eq + 1));
                    Some(make_tag(freq, c.as_slice(), a.as_slice(), b.as_slice()))
                },
                None => {
                    let e: Vec<char> = Vec::new();
                    Some(make_tag(freq, c.as_slice(), v.as_slice(), e.as_slice()))
                },
            }
        },
        None => None,
    }
}

} // verus!
