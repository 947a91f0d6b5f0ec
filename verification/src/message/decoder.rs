//! Wire-format decoder for Pod-OS messages.
//!
//! A frame is seven 9-byte fields (total, to, from, header lengths, message
//! type, data type, payload length) followed by the four regions.  The header
//! is a tab-separated `key=value` list; a key given more than once keeps its
//! last value.

use vstd::prelude::*;
use vstd::utf8::{decode_utf8, encode_utf8, valid_utf8};

use crate::message::constants::{max_message_size, spec_max_message_size};
use crate::message::encoder::{hex_len_field, write_hex_len};
use crate::message::errors::{DecodeError, MsgErrCode};
use crate::message::header::Field;
use crate::message::intents::{
    get_event, get_event_response, get_events_for_tags, get_events_for_tags_response,
    intent_from_message_type_and_command, spec_get_event, spec_get_event_response,
    spec_get_events_for_tags, spec_get_events_for_tags_response, spec_intent_from_type_and_command,
    spec_store_batch_events, spec_store_batch_events_response, spec_store_batch_links,
    spec_store_batch_links_response, store_batch_events, store_batch_events_response,
    store_batch_links, store_batch_links_response, zero_intent, Intent,
};
use crate::message::payloads::{
    batch_event_record_ok, batch_link_record_ok, blank_event_fields, brief_hits_ok,
    get_event_links_ok, header_event_tags_ok, parse_get_event_response,
    parse_get_events_for_tags_payload, apply_batch_events_payload, apply_batch_links_payload,
    tag_hit_events_ok, PayloadLines,
};
use crate::message::records::{
    blank_response_scalars, header_response_ok, header_response_scalars_ok, names_event,
    names_response, record_event_fields_ok, record_event_ok, text1, transform_header, value_of,
};
use crate::message::types::{
    DataType, Envelope, EventFields, Message, PayloadData, PayloadFields, ResponseFields,
};
use crate::message::wire::{
    dec_field_value, last_value, len_field_value, lines_of, parse_dec_value, parse_length_value,
    parse_tab_pairs, tab_pairs,
};
use crate::text::{
    append_str, chars_of, dec_digits, find_char, first_index_of, utf8_text, push_dec_digits,
    slice_to_vec_chars, str_from_utf8, string_from_chars, string_from_utf8_lossy, utf8_bytes,
    append_bytes,
};

verus! {

// ── Frame layout ─────────────────────────────────────────────────────────────

/// The smallest frame: the seven 9-byte fields.
pub open spec fn min_msg_size() -> nat {
    63
}

/// The `k`-th 9-byte field of a frame.
pub open spec fn size_field(raw: Seq<u8>, k: int) -> Seq<u8> {
    raw.subrange(9 * k, 9 * k + 9)
}

/// Whether field `k` holds a decimal integer (message and data type) rather
/// than a length.
pub open spec fn is_int_field(k: int) -> bool {
    k == 4 || k == 5
}

/// The name of field `k`, as error messages give it.
pub open spec fn field_name(k: int) -> Seq<char> {
    if k == 0 {
        "totalLength"@
    } else if k == 1 {
        "toLength"@
    } else if k == 2 {
        "fromLength"@
    } else if k == 3 {
        "headerLength"@
    } else if k == 4 {
        "messageType"@
    } else if k == 5 {
        "dataType"@
    } else {
        "payloadLength"@
    }
}

/// Whether field `k` of `raw` reads.
pub open spec fn field_ok(raw: Seq<u8>, k: int) -> bool {
    if is_int_field(k) {
        dec_field_value(size_field(raw, k)) is Some
    } else {
        len_field_value(size_field(raw, k)) is Some
    }
}

/// The message of a length field that does not read.
pub open spec fn len_field_error_text(name: Seq<char>, f: Seq<u8>) -> Seq<char> {
    if !valid_utf8(f) {
        name + ": non-UTF8"@
    } else if f.len() > 0 && f[0] == 120u8 {
        name + ": invalid hex: "@ + decode_utf8(f)
    } else {
        name + ": invalid decimal: "@ + decode_utf8(f)
    }
}

/// The message of an integer field that does not read.
pub open spec fn int_field_error_text(name: Seq<char>, f: Seq<u8>) -> Seq<char> {
    if !valid_utf8(f) {
        name + ": non-UTF8"@
    } else {
        name + ": invalid int: "@ + decode_utf8(f)
    }
}

/// The error code and message of field `k` when it does not read.
pub open spec fn field_error(raw: Seq<u8>, k: int) -> (MsgErrCode, Seq<char>) {
    if is_int_field(k) {
        (
            MsgErrCode::DecodeInvalidMessageType,
            int_field_error_text(field_name(k), size_field(raw, k)),
        )
    } else {
        (
            MsgErrCode::DecodeInvalidSizeParam,
            len_field_error_text(field_name(k), size_field(raw, k)),
        )
    }
}

/// The first field, from `k` on, that does not read.
pub open spec fn first_bad_field(raw: Seq<u8>, k: nat) -> Option<int>
    decreases 7 - k,
{
    if k >= 7 {
        None
    } else if !field_ok(raw, k as int) {
        Some(k as int)
    } else {
        first_bad_field(raw, k + 1)
    }
}

/// The value of length field `k` (0 when it does not read).
pub open spec fn len_at(raw: Seq<u8>, k: int) -> nat {
    match len_field_value(size_field(raw, k)) {
        Some(v) => v,
        None => 0,
    }
}

/// The message type of a frame.
pub open spec fn frame_message_type(raw: Seq<u8>) -> i32 {
    match dec_field_value(size_field(raw, 4)) {
        Some(v) => v,
        None => 0,
    }
}

/// The frame size the length fields declare.
pub open spec fn declared_len(raw: Seq<u8>) -> nat {
    63 + len_at(raw, 1) + len_at(raw, 2) + len_at(raw, 3) + len_at(raw, 6)
}

/// Why a frame of `raw` is refused under the size limit `max`, if it is.
pub open spec fn decode_failure(raw: Seq<u8>, max: int) -> Option<(MsgErrCode, Seq<char>)> {
    if raw.len() > max {
        Some(
            (
                MsgErrCode::DecodePayloadTooLarge,
                "message "@ + dec_digits(raw.len()) + " bytes exceeds limit"@,
            ),
        )
    } else if raw.len() < min_msg_size() {
        Some(
            (
                MsgErrCode::DecodeMessageTooShort,
                "message too short: "@ + dec_digits(raw.len()) + " bytes (minimum 63)"@,
            ),
        )
    } else {
        match first_bad_field(raw, 0) {
            Some(k) => Some(field_error(raw, k)),
            None => if declared_len(raw) > raw.len() {
                Some(
                    (
                        MsgErrCode::DecodeInvalidSizeParam,
                        "declared sizes total "@ + dec_digits(declared_len(raw))
                            + " but buffer is "@ + dec_digits(raw.len()) + " bytes"@,
                    ),
                )
            } else {
                None
            },
        }
    }
}

/// The to region of a frame.
pub open spec fn to_region(raw: Seq<u8>) -> Seq<u8> {
    raw.subrange(63, 63 + len_at(raw, 1) as int)
}

pub open spec fn from_region(raw: Seq<u8>) -> Seq<u8> {
    let a: int = (63 + len_at(raw, 1)) as int;
    raw.subrange(a, a + len_at(raw, 2) as int)
}

pub open spec fn header_region(raw: Seq<u8>) -> Seq<u8> {
    let a: int = (63 + len_at(raw, 1) + len_at(raw, 2)) as int;
    raw.subrange(a, a + len_at(raw, 3) as int)
}

pub open spec fn payload_region(raw: Seq<u8>) -> Seq<u8> {
    let a: int = (63 + len_at(raw, 1) + len_at(raw, 2) + len_at(raw, 3)) as int;
    raw.subrange(a, a + len_at(raw, 6) as int)
}

/// The lengths and message type read from a frame's fields.
pub struct FrameLayout {
    pub to_len: usize,
    pub from_len: usize,
    pub header_len: usize,
    pub payload_len: usize,
    pub message_type: i32,
}

/// Builds a message from pieces of characters.
fn text_of(parts: &Vec<char>) -> (r: String)
    ensures
        r@ == parts@,
{
    string_from_chars(parts.as_slice())
}

/// Parse a 9-byte length field.  Accepts `x` + 8 hex digits OR 9 decimal digits.
fn parse_len_field(field: &[u8], name: &str) -> (r: Result<usize, DecodeError>)
    requires
        field@.len() == 9,
    ensures
        match r {
            Ok(x) => len_field_value(field@) == Some(x as nat) && x <= 0xffff_ffff,
            Err(e) => len_field_value(field@) is None && e.code == MsgErrCode::DecodeInvalidSizeParam
                && e.message@ == len_field_error_text(name@, field@) && e.field is None,
        },
{
    match parse_length_value(field) {
        Some(x) => Ok(x),
        None => {
            let mut m = chars_of(name);
            match str_from_utf8(field) {
                None => {
                    append_str(&mut m, ": non-UTF8");
                },
                Some(s) => {
                    if field[0] == 120u8 {
                        append_str(&mut m, ": invalid hex: ");
                    } else {
                        append_str(&mut m, ": invalid decimal: ");
                    }
                    append_str(&mut m, s.as_str());
                },
            }
            let t = text_of(&m);
            Err(DecodeError::new(MsgErrCode::DecodeInvalidSizeParam, t.as_str()))
        },
    }
}

/// Parse a 9-byte decimal integer field (messageType / dataType).
fn parse_dec_field(field: &[u8], name: &str) -> (r: Result<i32, DecodeError>)
    requires
        field@.len() == 9,
    ensures
        match r {
            Ok(x) => dec_field_value(field@) == Some(x),
            Err(e) => dec_field_value(field@) is None && e.code
                == MsgErrCode::DecodeInvalidMessageType && e.message@ == int_field_error_text(
                name@,
                field@,
            ) && e.field is None,
        },
{
    match parse_dec_value(field) {
        Some(x) => Ok(x),
        None => {
            let mut m = chars_of(name);
            match str_from_utf8(field) {
                None => {
                    append_str(&mut m, ": non-UTF8");
                },
                Some(s) => {
                    append_str(&mut m, ": invalid int: ");
                    append_str(&mut m, s.as_str());
                },
            }
            let t = text_of(&m);
            Err(DecodeError::new(MsgErrCode::DecodeInvalidMessageType, t.as_str()))
        },
    }
}

/// A copy of the 9-byte field `k`.
fn field_bytes(raw: &[u8], k: usize) -> (r: Vec<u8>)
    requires
        k < 7,
        raw@.len() >= 63,
    ensures
        r@ == size_field(raw@, k as int),
{
    crate::text::slice_to_vec_bytes(raw, 9 * k, 9 * k + 9)
}

/// Reads the seven size fields of a frame and checks them against its
/// length and the size limit `max`.
pub fn read_frame_layout(raw: &[u8], max: i64) -> (r: Result<FrameLayout, DecodeError>)
    ensures
        match r {
            Ok(l) => decode_failure(raw@, max as int) is None && l.to_len == len_at(raw@, 1)
                && l.from_len == len_at(raw@, 2) && l.header_len == len_at(raw@, 3) && l.payload_len
                == len_at(raw@, 6) && l.message_type == frame_message_type(raw@),
            Err(e) => decode_failure(raw@, max as int) == Some((e.code, e.message@)) && e.field is None,
        },
{
    let total = raw.len();
    if max < 0 || total as u64 > max as u64 {
        let mut m = chars_of("message ");
        push_dec_digits(&mut m, total as u64);
        append_str(&mut m, " bytes exceeds limit");
        let t = text_of(&m);
        return Err(DecodeError::new(MsgErrCode::DecodePayloadTooLarge, t.as_str()));
    }
    if total < 63 {
        let mut m = chars_of("message too short: ");
        push_dec_digits(&mut m, total as u64);
        append_str(&mut m, " bytes (minimum 63)");
        let t = text_of(&m);
        return Err(DecodeError::new(MsgErrCode::DecodeMessageTooShort, t.as_str()));
    }
    let f0 = field_bytes(raw, 0);
    let f1 = field_bytes(raw, 1);
    let f2 = field_bytes(raw, 2);
    let f3 = field_bytes(raw, 3);
    let f4 = field_bytes(raw, 4);
    let f5 = field_bytes(raw, 5);
    let f6 = field_bytes(raw, 6);
    proof {
        reveal_with_fuel(first_bad_field, 8);
    }
    let _total_len = match parse_len_field(f0.as_slice(), "totalLength") {
        Ok(x) => x,
        Err(e) => {
            return Err(e);
        },
    };
    let to_len = match parse_len_field(f1.as_slice(), "toLength") {
        Ok(x) => x,
        Err(e) => {
            return Err(e);
        },
    };
    let from_len = match parse_len_field(f2.as_slice(), "fromLength") {
        Ok(x) => x,
        Err(e) => {
            return Err(e);
        },
    };
    let header_len = match parse_len_field(f3.as_slice(), "headerLength") {
        Ok(x) => x,
        Err(e) => {
            return Err(e);
        },
    };
    let message_type = match parse_dec_field(f4.as_slice(), "messageType") {
        Ok(x) => x,
        Err(e) => {
            return Err(e);
        },
    };
    let _data_type = match parse_dec_field(f5.as_slice(), "dataType") {
        Ok(x) => x,
        Err(e) => {
            return Err(e);
        },
    };
    let payload_len = match parse_len_field(f6.as_slice(), "payloadLength") {
        Ok(x) => x,
        Err(e) => {
            return Err(e);
        },
    };
    assert(first_bad_field(raw@, 0) is None);
    let expected: u64 = 63 + to_len as u64 + from_len as u64 + header_len as u64
        + payload_len as u64;
    if expected > total as u64 {
        let mut m = chars_of("declared sizes total ");
        push_dec_digits(&mut m, expected);
        append_str(&mut m, " but buffer is ");
        push_dec_digits(&mut m, total as u64);
        append_str(&mut m, " bytes");
        let t = text_of(&m);
        return Err(DecodeError::new(MsgErrCode::DecodeInvalidSizeParam, t.as_str()));
    }
    Ok(FrameLayout { to_len, from_len, header_len, payload_len, message_type })
}


// ── Decoding ─────────────────────────────────────────────────────────────────

/// The `key=value` pairs of a frame's header.
pub open spec fn header_pairs(raw: Seq<u8>) -> Seq<Field> {
    tab_pairs(utf8_text(header_region(raw)))
}

/// The text of a frame's payload.
pub open spec fn payload_text(raw: Seq<u8>) -> Seq<char> {
    utf8_text(payload_region(raw))
}

/// An address without its routing suffix (everything from the first `|`).
pub open spec fn cut_at_bar(s: Seq<char>) -> Seq<char> {
    match first_index_of(s, '|') {
        Some(i) => s.take(i),
        None => s,
    }
}

/// The command a header names: `_type`, else `_command`, else `_db_cmd`.
pub open spec fn header_command(fs: Seq<Field>) -> Seq<char> {
    match last_value(fs, seq!["_type"@]) {
        Some(v) => v,
        None => match last_value(fs, seq!["_command"@]) {
            Some(v) => v,
            None => value_of(fs, seq!["_db_cmd"@]),
        },
    }
}

/// The intent of a frame: by message type and command, else the zero intent.
pub open spec fn decoded_intent(raw: Seq<u8>) -> Intent {
    match spec_intent_from_type_and_command(
        frame_message_type(raw),
        header_command(header_pairs(raw)),
    ) {
        Some(i) => i,
        None => zero_intent(),
    }
}

pub open spec fn is_get_event(i: Intent) -> bool {
    i.same(spec_get_event()) || i.same(spec_get_event_response())
}

pub open spec fn is_tag_hits(i: Intent) -> bool {
    i.same(spec_get_events_for_tags()) || i.same(spec_get_events_for_tags_response())
}

pub open spec fn is_batch_events(i: Intent) -> bool {
    i.same(spec_store_batch_events()) || i.same(spec_store_batch_events_response())
}

pub open spec fn is_batch_links(i: Intent) -> bool {
    i.same(spec_store_batch_links()) || i.same(spec_store_batch_links_response())
}

/// The response section as the header gives it: present when the header
/// names a response.
pub open spec fn response_from_header(r: Option<ResponseFields>, fs: Seq<Field>) -> bool {
    if names_response(fs) {
        r matches Some(x) && header_response_ok(x, fs)
    } else {
        r is None
    }
}

/// The event section as the header gives it: present when the header names
/// an event.
pub open spec fn event_from_header(e: Option<EventFields>, fs: Seq<Field>) -> bool {
    if names_event(fs) {
        e matches Some(x) && record_event_ok(x, fs)
    } else {
        e is None
    }
}

/// The single-valued response fields as the header gives them.
pub open spec fn scalars_from_header(r: ResponseFields, fs: Seq<Field>) -> bool {
    if names_response(fs) {
        header_response_scalars_ok(r, fs)
    } else {
        blank_response_scalars(r)
    }
}

/// The message `decode_message` gives for a frame it accepts.
pub open spec fn decoded_ok(m: Message, raw: Seq<u8>) -> bool {
    let fs = header_pairs(raw);
    let ls = lines_of(payload_text(raw));
    let i = decoded_intent(raw);
    &&& m.envelope.to@ == utf8_text(to_region(raw))
    &&& m.envelope.from@ == cut_at_bar(utf8_text(from_region(raw)))
    &&& m.envelope.intent == i
    &&& m.envelope.message_id@ == value_of(fs, seq!["_msg_id"@])
    &&& m.envelope.client_name@.len() == 0
    &&& m.envelope.passcode@.len() == 0
    &&& m.envelope.user_name@.len() == 0
    &&& m.neural_memory is None
    &&& m.public_key is None
    &&& if is_get_event(i) {
        &&& response_from_header(m.response, fs)
        &&& m.payload is None
        &&& m.event matches Some(e) && header_event_tags_ok(e.tags@, fs) && get_event_links_ok(
            e.links@,
            ls,
        ) && if names_event(fs) {
            record_event_fields_ok(e, fs)
        } else {
            blank_event_fields(e)
        }
    } else if is_tag_hits(i) {
        &&& event_from_header(m.event, fs)
        &&& m.payload is None
        &&& m.response matches Some(r) && scalars_from_header(r, fs)
            && r.store_batch_event_record.is_blank() && r.store_link_batch_event_record.is_blank()
            && tag_hit_events_ok(r.event_records@, ls) && brief_hits_ok(r.brief_hits@, ls)
    } else if is_batch_events(i) {
        &&& event_from_header(m.event, fs)
        &&& m.payload is None
        &&& m.response matches Some(r) && scalars_from_header(r, fs) && r.event_records@.len() == 0
            && r.brief_hits@.len() == 0 && r.store_link_batch_event_record.is_blank()
            && batch_event_record_ok(r.store_batch_event_record, ls)
    } else if is_batch_links(i) {
        &&& event_from_header(m.event, fs)
        &&& m.payload is None
        &&& m.response matches Some(r) && scalars_from_header(r, fs) && r.event_records@.len() == 0
            && r.brief_hits@.len() == 0 && r.store_batch_event_record.is_blank()
            && batch_link_record_ok(r.store_link_batch_event_record, ls)
    } else {
        &&& response_from_header(m.response, fs)
        &&& event_from_header(m.event, fs)
        &&& if payload_text(raw).len() > 0 {
            m.payload matches Some(p) && (p.data matches PayloadData::Text(t) && t@ == payload_text(
                raw,
            )) && p.data_type == DataType::Raw && p.mime_type@.len() == 0 && p.data_size == 0
        } else {
            m.payload is None
        }
    }
}

/// The text of `raw[a..b]`, read as UTF-8 with invalid sequences replaced.
fn region_text(raw: &[u8], a: usize, b: usize) -> (r: String)
    requires
        a <= b <= raw@.len(),
    ensures
        r@ == utf8_text(raw@.subrange(a as int, b as int)),
{
    let bytes = crate::text::slice_to_vec_bytes(raw, a, b);
    string_from_utf8_lossy(bytes.as_slice())
}

/// Decode a raw frame under the size limit `max`.
pub fn decode_message_with_limit(raw: &[u8], max: i64) -> (r: Result<Message, DecodeError>)
    ensures
        r is Ok <==> decode_failure(raw@, max as int) is None,
        r matches Err(e) ==> decode_failure(raw@, max as int) == Some((e.code, e.message@))
            && e.field is None,
        r matches Ok(m) ==> decoded_ok(m, raw@),
{
    let layout = match read_frame_layout(raw, max) {
        Ok(l) => l,
        Err(e) => {
            return Err(e);
        },
    };
    let _total = raw.len();
    assert(declared_len(raw@) <= raw@.len());
    let p1: usize = 63 + layout.to_len;
    let p2: usize = p1 + layout.from_len;
    let p3: usize = p2 + layout.header_len;
    let p4: usize = p3 + layout.payload_len;
    let to = region_text(raw, 63, p1);
    let from_raw = chars_of(region_text(raw, p1, p2).as_str());
    let from = match find_char(from_raw.as_slice(), '|') {
        Some(i) => {
            let cut = slice_to_vec_chars(from_raw.as_slice(), 0, i);
            assert(cut@ =~= from_raw@.take(i as int));
            string_from_chars(cut.as_slice())
        },
        None => string_from_chars(from_raw.as_slice()),
    };
    let header_chars = chars_of(region_text(raw, p2, p3).as_str());
    let pairs = parse_tab_pairs(&header_chars);
    // Priority: _type > _command > _db_cmd
    let command = match crate::message::records::find1(&pairs, "_type") {
        Some(i) => string_from_chars(pairs[i].1.as_slice()),
        None => match crate::message::records::find1(&pairs, "_command") {
            Some(i) => string_from_chars(pairs[i].1.as_slice()),
            None => text1(&pairs, "_db_cmd"),
        },
    };
    let intent = match intent_from_message_type_and_command(layout.message_type, command.as_str()) {
        Some(i) => i,
        None => Intent::default(),
    };
    let message_id = text1(&pairs, "_msg_id");
    let mut msg = Message {
        envelope: Envelope {
            to,
            from,
            intent,
            client_name: String::new(),
            message_id,
            passcode: String::new(),
            user_name: String::new(),
        },
        event: None,
        payload: None,
        neural_memory: None,
        response: None,
        public_key: None,
    };
    transform_header(&pairs, &mut msg);
    let payload_str = region_text(raw, p3, p4);
    if intent == get_event() || intent == get_event_response() {
        let pl = PayloadLines::new(chars_of(payload_str.as_str()));
        parse_get_event_response(&mut msg, &pairs, &pl);
    } else if intent == get_events_for_tags() || intent == get_events_for_tags_response() {
        let pl = PayloadLines::new(chars_of(payload_str.as_str()));
        parse_get_events_for_tags_payload(&mut msg, &pl);
    } else if intent == store_batch_events() || intent == store_batch_events_response() {
        let pl = PayloadLines::new(chars_of(payload_str.as_str()));
        apply_batch_events_payload(&mut msg, &pl);
    } else if intent == store_batch_links() || intent == store_batch_links_response() {
        let pl = PayloadLines::new(chars_of(payload_str.as_str()));
        apply_batch_links_payload(&mut msg, &pl);
    } else if !payload_str.as_str().is_empty() {
        msg.payload = Some(
            PayloadFields {
                data: PayloadData::Text(payload_str),
                data_type: DataType::Raw,
                mime_type: String::new(),
                data_size: 0,
            },
        );
    }
    Ok(msg)
}

/// Decode a raw wire-format byte slice into a `Message` under the default
/// size limit.
///
/// The slice must include the leading 9-byte `totalLength` field.
pub fn decode_message(raw: &[u8]) -> (r: Result<Message, DecodeError>)
    ensures
        r is Ok <==> decode_failure(raw@, spec_max_message_size()) is None,
        r matches Err(e) ==> decode_failure(raw@, spec_max_message_size()) == Some(
            (e.code, e.message@),
        ) && e.field is None,
        r matches Ok(m) ==> decoded_ok(m, raw@),
{
    decode_message_with_limit(raw, max_message_size())
}


// ── Replacing the from address ───────────────────────────────────────────────

/// Why `replace_from_in_raw_message` refuses `raw`, if it does: too short,
/// or the from, header, payload or to length field does not read (checked
/// in that order).
pub open spec fn replace_from_failure(raw: Seq<u8>) -> Option<(MsgErrCode, Seq<char>)> {
    if raw.len() < min_msg_size() {
        Some((MsgErrCode::DecodeMessageTooShort, "raw message too short"@))
    } else if !field_ok(raw, 2) {
        Some(field_error(raw, 2))
    } else if !field_ok(raw, 3) {
        Some(field_error(raw, 3))
    } else if !field_ok(raw, 6) {
        Some(field_error(raw, 6))
    } else if !field_ok(raw, 1) {
        Some(field_error(raw, 1))
    } else {
        None
    }
}

/// The frame with its from region replaced by the UTF-8 bytes of `from`
/// and the from and total lengths rewritten; the rest is copied.
pub open spec fn replaced_from(raw: Seq<u8>, from: Seq<char>) -> Seq<u8> {
    let nf = encode_utf8(from);
    let to = len_at(raw, 1);
    let old_from = len_at(raw, 2);
    hex_len_field(63 + to + nf.len() + len_at(raw, 3) + len_at(raw, 6)) + raw.subrange(9, 18)
        + hex_len_field(nf.len()) + raw.subrange(27, 63) + raw.subrange(63, 63 + to as int) + nf
        + raw.skip((63 + to + old_from) as int)
}

/// Whether the to and from regions a frame declares lie within it, when the
/// frame is not refused for its size or its length fields.
pub open spec fn from_region_within(raw: Seq<u8>) -> bool {
    replace_from_failure(raw) is None ==> 63 + len_at(raw, 1) + len_at(raw, 2) <= raw.len()
}

/// Replace the `From` field in a raw wire message without re-encoding.
///
/// Surgically updates `fromLength` and `totalLength`; the to address,
/// header and payload are copied unchanged.
pub fn replace_from_in_raw_message(raw: &[u8], new_from: &str) -> (r: Result<Vec<u8>, DecodeError>)
    requires
        from_region_within(raw@),
        encode_utf8(new_from@).len() <= isize::MAX,
    ensures
        r is Ok <==> replace_from_failure(raw@) is None,
        r matches Err(e) ==> replace_from_failure(raw@) == Some((e.code, e.message@)),
        r matches Ok(out) ==> out@ == replaced_from(raw@, new_from@),
{
    if raw.len() < 63 {
        return Err(DecodeError::new(MsgErrCode::DecodeMessageTooShort, "raw message too short"));
    }
    let f1 = field_bytes(raw, 1);
    let f2 = field_bytes(raw, 2);
    let f3 = field_bytes(raw, 3);
    let f6 = field_bytes(raw, 6);
    let old_from_len = match parse_len_field(f2.as_slice(), "fromLength") {
        Ok(x) => x,
        Err(e) => {
            return Err(e);
        },
    };
    let header_len = match parse_len_field(f3.as_slice(), "headerLength") {
        Ok(x) => x,
        Err(e) => {
            return Err(e);
        },
    };
    let payload_len = match parse_len_field(f6.as_slice(), "payloadLength") {
        Ok(x) => x,
        Err(e) => {
            return Err(e);
        },
    };
    let old_to_len = match parse_len_field(f1.as_slice(), "toLength") {
        Ok(x) => x,
        Err(e) => {
            return Err(e);
        },
    };
    let new_from_bytes = utf8_bytes(new_from);
    let new_from_len = new_from_bytes.len();
    let new_total: u64 = 63 + old_to_len as u64 + new_from_len as u64 + header_len as u64
        + payload_len as u64;
    let mut out: Vec<u8> = Vec::new();
    // totalLength
    write_hex_len(&mut out, new_total);
    // toLength (unchanged)
    let to_field = crate::text::slice_to_vec_bytes(raw, 9, 18);
    append_bytes(&mut out, to_field.as_slice());
    // fromLength (updated)
    write_hex_len(&mut out, new_from_len as u64);
    // headerLength, messageType, dataType, payloadLength (unchanged)
    let mid = crate::text::slice_to_vec_bytes(raw, 27, 63);
    append_bytes(&mut out, mid.as_slice());
    // to (unchanged)
    let to_region = crate::text::slice_to_vec_bytes(raw, 63, 63 + old_to_len);
    append_bytes(&mut out, to_region.as_slice());
    // from (new)
    append_bytes(&mut out, new_from_bytes.as_slice());
    // header + payload (unchanged)
    let rest_start = 63 + old_to_len + old_from_len;
    let n = raw.len();
    let rest = crate::text::slice_to_vec_bytes(raw, rest_start, n);
    assert(rest@ =~= raw@.skip(rest_start as int));
    append_bytes(&mut out, rest.as_slice());
    assert(out@ =~= replaced_from(raw@, new_from@));
    Ok(out)
}

} // verus!
