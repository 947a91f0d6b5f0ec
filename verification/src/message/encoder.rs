//! Wire-format encoder for Pod-OS messages.
//!
//! Wire frame layout:
//! ```text
//! [9]  totalLength     x + 8 hex digits  (includes all 7 nine-byte fields + content)
//! [9]  toLength        x + 8 hex digits
//! [9]  fromLength      x + 8 hex digits
//! [9]  headerLength    x + 8 hex digits
//! [9]  messageType     9 decimal digits   (NOT hex)
//! [9]  dataType        9 decimal digits   (NOT hex)
//! [9]  payloadLength   x + 8 hex digits
//! [toLength]           to address
//! [fromLength]         from address
//! [headerLength]       tab-separated key=value header
//! [payloadLength]      raw payload bytes
//! ```

use vstd::prelude::*;
use vstd::utf8::encode_utf8;

use crate::message::constants::{max_message_size, spec_max_message_size};
use crate::message::errors::{EncodeError, MsgErrCode};
use crate::message::header::{
    construct_header, field_text, join_fields, one, opt_field, spec_header, strength_field,
    Field, Header,
};
use crate::message::intents::{
    gateway_id, gateway_stream_on, spec_gateway_id, spec_gateway_stream_on,
    spec_store_batch_events, spec_store_batch_links, spec_store_batch_tags, store_batch_events,
    store_batch_links, store_batch_tags, Intent,
};
use crate::message::types::{
    BatchEventSpec, BatchLinkEventSpec, EventFields, LinkFields, Message, PayloadData,
    SocketMessage, Tag, TagList, TagValue,
};
use crate::text::{
    append_chars, append_str, dec_digits, first_index_of, find_char, hex_digits, int_text,
    utf8_text, push_dec_digits, push_hex_digits, push_int, push_zero_padded, string_from_chars,
    string_from_utf8_lossy, utf8_bytes, zero_pad, chars_of,
};

verus! {

// ── Wire fields ──────────────────────────────────────────────────────────────

/// ASCII text as bytes.
pub open spec fn ascii_bytes(s: Seq<char>) -> Seq<u8> {
    s.map_values(|c: char| c as u8)
}

/// A length field: `x` followed by at least 8 lower-case hex digits.
pub open spec fn hex_len_field(n: nat) -> Seq<u8> {
    ascii_bytes(seq!['x'] + zero_pad(hex_digits(n), 8))
}

/// A decimal field: at least 9 zero-padded decimal digits.
pub open spec fn dec_field(n: nat) -> Seq<u8> {
    ascii_bytes(zero_pad(dec_digits(n), 9))
}

/// A message type as written on the wire (`as u64`).
pub open spec fn wire_type_number(t: i32) -> nat {
    if t < 0 {
        (t + 0x1_0000_0000_0000_0000) as nat
    } else {
        t as nat
    }
}

/// The total length of a frame: its seven 9-byte fields and its content.
pub open spec fn frame_len(to: Seq<u8>, from: Seq<u8>, header: Seq<u8>, payload: Seq<u8>) -> nat {
    63 + to.len() + from.len() + header.len() + payload.len()
}

/// A complete wire frame.
pub open spec fn frame(
    to: Seq<u8>,
    from: Seq<u8>,
    header: Seq<u8>,
    payload: Seq<u8>,
    message_type: i32,
) -> Seq<u8> {
    hex_len_field(frame_len(to, from, header, payload)) + hex_len_field(to.len()) + hex_len_field(
        from.len(),
    ) + hex_len_field(header.len()) + dec_field(wire_type_number(message_type)) + dec_field(0)
        + hex_len_field(payload.len()) + to + from + header + payload
}

proof fn lemma_ascii_bytes_push(s: Seq<char>, c: char)
    ensures
        ascii_bytes(s.push(c)) == ascii_bytes(s).push(c as u8),
{
    assert(ascii_bytes(s.push(c)) =~= ascii_bytes(s).push(c as u8));
}

/// Appends ASCII characters as bytes.
fn push_ascii(buf: &mut Vec<u8>, s: &Vec<char>)
    ensures
        final(buf)@ == old(buf)@ + ascii_bytes(s@),
{
    let n = s.len();
    for i in 0..n
        invariant
            n == s@.len(),
            buf@ == old(buf)@ + ascii_bytes(s@.take(i as int)),
    {
        proof {
            assert(s@.take(i + 1) =~= s@.take(i as int).push(s@[i as int]));
            lemma_ascii_bytes_push(s@.take(i as int), s@[i as int]);
        }
        buf.push(s[i] as u8);
    }
    assert(s@.take(n as int) =~= s@);
}

/// `x` + 8 lowercase hex digits.
pub(crate) fn write_hex_len(buf: &mut Vec<u8>, n: u64)
    ensures
        final(buf)@ == old(buf)@ + hex_len_field(n as nat),
{
    let mut digits: Vec<char> = Vec::new();
    push_hex_digits(&mut digits, n);
    let mut s: Vec<char> = Vec::new();
    s.push('x');
    push_zero_padded(&mut s, &digits, 8);
    assert(s@ =~= seq!['x'] + zero_pad(hex_digits(n as nat), 8));
    push_ascii(buf, &s);
}

/// 9 zero-padded decimal digits.
fn write_dec_9(buf: &mut Vec<u8>, n: u64)
    ensures
        final(buf)@ == old(buf)@ + dec_field(n as nat),
{
    let mut digits: Vec<char> = Vec::new();
    push_dec_digits(&mut digits, n);
    let mut s: Vec<char> = Vec::new();
    push_zero_padded(&mut s, &digits, 9);
    assert(s@ =~= zero_pad(dec_digits(n as nat), 9));
    push_ascii(buf, &s);
}

// ── Address validation ───────────────────────────────────────────────────────

/// An address is `name@gateway` with both parts non-empty (split at the
/// first `@`).
pub open spec fn address_ok(a: Seq<char>) -> bool {
    match first_index_of(a, '@') {
        Some(i) => i > 0 && i + 1 < a.len(),
        None => false,
    }
}

/// The description of a malformed address.
pub open spec fn address_error_text(field: Seq<char>, a: Seq<char>) -> Seq<char> {
    match first_index_of(a, '@') {
        Some(i) => if i == 0 {
            field + ": actor name is empty"@
        } else {
            field + ": gateway name is empty"@
        },
        None => field + ": address missing '@': "@ + a,
    }
}

fn validate_address(addr: &str, field: &str, code: MsgErrCode) -> (r: Result<(), EncodeError>)
    ensures
        r is Ok <==> address_ok(addr@),
        r matches Err(e) ==> e.code == code && e.message@ == address_error_text(field@, addr@) && (
        e.field matches Some(f) && f@ == field@),
{
    let a = chars_of(addr);
    proof {
        crate::text::lemma_first_index_of(a@, '@');
    }
    match find_char(a.as_slice(), '@') {
        Some(at) => {
            if at == 0 {
                let mut m = chars_of(field);
                append_str(&mut m, ": actor name is empty");
                let e = EncodeError::new(code, string_from_chars(m.as_slice()).as_str());
                return Err(e.with_field(field));
            }
            if at == a.len() - 1 {
                let mut m = chars_of(field);
                append_str(&mut m, ": gateway name is empty");
                let e = EncodeError::new(code, string_from_chars(m.as_slice()).as_str());
                return Err(e.with_field(field));
            }
            Ok(())
        },
        None => {
            let mut m = chars_of(field);
            append_str(&mut m, ": address missing '@': ");
            append_str(&mut m, addr);
            let e = EncodeError::new(code, string_from_chars(m.as_slice()).as_str());
            Err(e.with_field(field))
        },
    }
}

// ── Payload formatters ───────────────────────────────────────────────────────

/// Wire text of a tag value.
pub open spec fn tag_value_text(v: TagValue) -> Seq<char> {
    match v {
        TagValue::Text(s) => s@,
        TagValue::Int(n) => int_text(n as int),
        TagValue::Float(t) => t@,
        TagValue::Bool(b) => if b {
            "true"@
        } else {
            "false"@
        },
        TagValue::Json(j) => j@,
    }
}

/// Lines joined with `\n`.
pub open spec fn join_lines(ls: Seq<Seq<char>>) -> Seq<char>
    decreases ls.len(),
{
    if ls.len() == 0 {
        Seq::empty()
    } else if ls.len() == 1 {
        ls[0]
    } else {
        join_lines(ls.drop_last()) + seq!['\n'] + ls.last()
    }
}

/// Fields each preceded by a tab.
pub open spec fn tab_fields(fs: Seq<Field>) -> Seq<char> {
    if fs.len() == 0 {
        Seq::empty()
    } else {
        seq!['\t'] + join_fields(fs)
    }
}

/// The event fields of a batch record.
pub open spec fn event_record_fields(e: EventFields) -> Seq<Field> {
    Seq::empty() + opt_field("unique_id"@, e.unique_id@) + opt_field("event_id"@, e.id@)
        + opt_field("local_id"@, e.local_id@) + opt_field("owner"@, e.owner@) + opt_field(
        "timestamp"@,
        e.timestamp@,
    ) + opt_field("type"@, e.event_type@) + opt_field("loc"@, e.location@) + opt_field(
        "loc_delim"@,
        e.location_separator@,
    ) + opt_field("mime"@, e.payload_data.mime_type@)
}

/// `freq:key=value` of a batch tag.
pub open spec fn batch_tag_value(t: Tag) -> Seq<char> {
    int_text(t.frequency as int) + seq![':'] + t.key@ + seq!['='] + tag_value_text(t.value)
}

/// The tag fields of a batch event, 0-indexed (`tag_0`, `tag_1`, ...).
pub open spec fn batch_tag_fields(tags: Seq<Tag>) -> Seq<Field>
    decreases tags.len(),
{
    if tags.len() == 0 {
        Seq::empty()
    } else {
        batch_tag_fields(tags.drop_last()) + one(
            "tag_"@ + dec_digits((tags.len() - 1) as nat),
            batch_tag_value(tags.last()),
        )
    }
}

/// One line of a StoreBatchEvents payload.
pub open spec fn batch_event_line(s: BatchEventSpec) -> Seq<char> {
    join_fields(event_record_fields(s.event)) + tab_fields(batch_tag_fields(s.tags@))
}

/// The link fields of a batch link record.
pub open spec fn link_record_fields(l: LinkFields) -> Seq<Field> {
    Seq::empty() + opt_field("event_id_a"@, l.event_a@) + opt_field("unique_id_a"@, l.unique_id_a@)
        + opt_field("event_id_b"@, l.event_b@) + opt_field("unique_id_b"@, l.unique_id_b@)
        + strength_field("strength_a"@, l.strength_a@) + strength_field(
        "strength_b"@,
        l.strength_b@,
    ) + opt_field("category"@, l.category@) + opt_field("type"@, l.link_type@)
}

/// One line of a StoreBatchLinks payload.
pub open spec fn batch_link_line(s: BatchLinkEventSpec) -> Seq<char> {
    join_fields(event_record_fields(s.event)) + tab_fields(link_record_fields(s.link))
}

/// One line of a StoreBatchTags payload: `freq=key=value`.
pub open spec fn batch_tags_line(t: Tag) -> Seq<char> {
    int_text(t.frequency as int) + seq!['='] + t.key@ + seq!['='] + tag_value_text(t.value)
}

pub open spec fn batch_events_text(events: Seq<BatchEventSpec>) -> Seq<char> {
    join_lines(events.map_values(|s: BatchEventSpec| batch_event_line(s)))
}

pub open spec fn batch_links_text(events: Seq<BatchLinkEventSpec>) -> Seq<char> {
    join_lines(events.map_values(|s: BatchLinkEventSpec| batch_link_line(s)))
}

pub open spec fn batch_tags_text(tags: Seq<Tag>) -> Seq<char> {
    join_lines(tags.map_values(|t: Tag| batch_tags_line(t)))
}

/// Serialize a tag value to a wire-safe string.
pub fn serialize_tag_value(value: &TagValue) -> (r: String)
    ensures
        r@ == tag_value_text(*value),
{
    match value {
        TagValue::Text(s) => s.as_str().to_owned(),
        TagValue::Int(n) => crate::text::int_to_string(*n),
        TagValue::Float(t) => t.as_str().to_owned(),
        TagValue::Bool(b) => if *b {
            "true".to_owned()
        } else {
            "false".to_owned()
        },
        TagValue::Json(j) => j.as_str().to_owned(),
    }
}

fn append_event_fields(out: &mut Vec<char>, e: &EventFields)
    ensures
        final(out)@ == old(out)@ + join_fields(event_record_fields(*e)),
{
    let mut h = Header::new();
    h.add_if_nonempty("unique_id", e.unique_id.as_str());
    h.add_if_nonempty("event_id", e.id.as_str());
    h.add_if_nonempty("local_id", e.local_id.as_str());
    h.add_if_nonempty("owner", e.owner.as_str());
    h.add_if_nonempty("timestamp", e.timestamp.as_str());
    h.add_if_nonempty("type", e.event_type.as_str());
    h.add_if_nonempty("loc", e.location.as_str());
    h.add_if_nonempty("loc_delim", e.location_separator.as_str());
    h.add_if_nonempty("mime", e.payload_data.mime_type.as_str());
    let text = h.into_chars();
    append_chars(out, text.as_slice());
}

proof fn lemma_join_fields_empty(fs: Seq<Field>)
    ensures
        (join_fields(fs).len() == 0) == (fs.len() == 0),
    decreases fs.len(),
{
    if fs.len() > 1 {
        lemma_join_fields_empty(fs.drop_last());
    }
}

/// Appends fields each preceded by a tab, given their joined text.
fn append_tab_fields(out: &mut Vec<char>, joined: &Vec<char>, fs: Ghost<Seq<Field>>)
    requires
        joined@ == join_fields(fs@),
    ensures
        final(out)@ == old(out)@ + tab_fields(fs@),
{
    proof {
        lemma_join_fields_empty(fs@);
    }
    if joined.len() > 0 {
        out.push('\t');
        append_chars(out, joined.as_slice());
        assert(out@ =~= old(out)@ + tab_fields(fs@));
    } else {
        assert(out@ =~= old(out)@ + tab_fields(fs@));
    }
}

fn batch_tags_header(tags: &Vec<Tag>) -> (r: Header)
    ensures
        r.wf(),
        r.fields@ == batch_tag_fields(tags@),
{
    let mut h = Header::new();
    let n = tags.len();
    assert(tags@.take(0) =~= Seq::<Tag>::empty());
    for i in 0..n
        invariant
            n == tags@.len(),
            h.wf(),
            h.fields@ == batch_tag_fields(tags@.take(i as int)),
    {
        let t = &tags[i];
        let mut key: Vec<char> = Vec::new();
        append_str(&mut key, "tag_");
        push_dec_digits(&mut key, i as u64);
        let mut val: Vec<char> = Vec::new();
        push_int(&mut val, t.frequency as i64);
        val.push(':');
        append_str(&mut val, t.key.as_str());
        val.push('=');
        let vs = serialize_tag_value(&t.value);
        append_str(&mut val, vs.as_str());
        let key_s = string_from_chars(key.as_slice());
        h.add_chars(key_s.as_str(), val.as_slice());
        proof {
            let tk = tags@.take(i + 1);
            assert(tk.drop_last() =~= tags@.take(i as int));
            assert(tk.last() == *t);
            assert(key@ =~= "tag_"@ + dec_digits(i as nat));
            assert(val@ =~= batch_tag_value(*t));
        }
    }
    assert(tags@.take(n as int) =~= tags@);
    h
}

fn append_batch_event_line(out: &mut Vec<char>, spec: &BatchEventSpec)
    ensures
        final(out)@ == old(out)@ + batch_event_line(*spec),
{
    append_event_fields(out, &spec.event);
    let h = batch_tags_header(&spec.tags);
    let ghost fs = h.fields@;
    let joined = h.into_chars();
    append_tab_fields(out, &joined, Ghost(fs));
    assert(out@ =~= old(out)@ + batch_event_line(*spec));
}

fn append_batch_link_line(out: &mut Vec<char>, spec: &BatchLinkEventSpec)
    ensures
        final(out)@ == old(out)@ + batch_link_line(*spec),
{
    append_event_fields(out, &spec.event);
    let l = &spec.link;
    let mut h = Header::new();
    h.add_if_nonempty("event_id_a", l.event_a.as_str());
    h.add_if_nonempty("unique_id_a", l.unique_id_a.as_str());
    h.add_if_nonempty("event_id_b", l.event_b.as_str());
    h.add_if_nonempty("unique_id_b", l.unique_id_b.as_str());
    h.add_strength("strength_a", l.strength_a.as_str());
    h.add_strength("strength_b", l.strength_b.as_str());
    h.add_if_nonempty("category", l.category.as_str());
    h.add_if_nonempty("type", l.link_type.as_str());
    let ghost fs = h.fields@;
    let joined = h.into_chars();
    append_tab_fields(out, &joined, Ghost(fs));
    assert(out@ =~= old(out)@ + batch_link_line(*spec));
}

proof fn lemma_join_lines_push(ls: Seq<Seq<char>>, l: Seq<char>)
    ensures
        join_lines(ls.push(l)) == if ls.len() == 0 {
            l
        } else {
            join_lines(ls) + seq!['\n'] + l
        },
{
    assert(ls.push(l).drop_last() =~= ls);
}

/// Format a batch of events as newline-separated, tab-delimited records.
///
/// Each event line: `field=value\tfield=value\t...`
/// Tags are appended as: `tab tag_0=freq:key=value tab tag_1=...`
pub fn format_batch_events_payload(events: &[BatchEventSpec]) -> (r: String)
    ensures
        r@ == batch_events_text(events@),
{
    let mut out: Vec<char> = Vec::new();
    let ghost f = |s: BatchEventSpec| batch_event_line(s);
    let n = events.len();
    assert(events@.take(0).map_values(f) =~= Seq::<Seq<char>>::empty());
    for i in 0..n
        invariant
            n == events@.len(),
            f == (|s: BatchEventSpec| batch_event_line(s)),
            out@ == join_lines(events@.take(i as int).map_values(f)),
    {
        let ghost prev = events@.take(i as int).map_values(f);
        if i > 0 {
            out.push('\n');
        }
        append_batch_event_line(&mut out, &events[i]);
        proof {
            assert(events@.take(i + 1).map_values(f) =~= prev.push(batch_event_line(events@[i as int])));
            lemma_join_lines_push(prev, batch_event_line(events@[i as int]));
        }
    }
    assert(events@.take(n as int) =~= events@);
    string_from_chars(out.as_slice())
}

/// Format a batch of link+event specs as newline-separated records.
pub fn format_batch_link_events_payload(events: &[BatchLinkEventSpec]) -> (r: String)
    ensures
        r@ == batch_links_text(events@),
{
    let mut out: Vec<char> = Vec::new();
    let ghost f = |s: BatchLinkEventSpec| batch_link_line(s);
    let n = events.len();
    assert(events@.take(0).map_values(f) =~= Seq::<Seq<char>>::empty());
    for i in 0..n
        invariant
            n == events@.len(),
            f == (|s: BatchLinkEventSpec| batch_link_line(s)),
            out@ == join_lines(events@.take(i as int).map_values(f)),
    {
        let ghost prev = events@.take(i as int).map_values(f);
        if i > 0 {
            out.push('\n');
        }
        append_batch_link_line(&mut out, &events[i]);
        proof {
            assert(events@.take(i + 1).map_values(f) =~= prev.push(batch_link_line(events@[i as int])));
            lemma_join_lines_push(prev, batch_link_line(events@[i as int]));
        }
    }
    assert(events@.take(n as int) =~= events@);
    string_from_chars(out.as_slice())
}

/// Format tags as newline-separated `freq=key=value` lines.
pub fn format_batch_tags_payload(tags: &TagList) -> (r: String)
    ensures
        r@ == batch_tags_text(tags@),
{
    let mut out: Vec<char> = Vec::new();
    let ghost f = |t: Tag| batch_tags_line(t);
    let n = tags.len();
    assert(tags@.take(0).map_values(f) =~= Seq::<Seq<char>>::empty());
    for i in 0..n
        invariant
            n == tags@.len(),
            f == (|t: Tag| batch_tags_line(t)),
            out@ == join_lines(tags@.take(i as int).map_values(f)),
    {
        let ghost prev = tags@.take(i as int).map_values(f);
        if i > 0 {
            out.push('\n');
        }
        let t = &tags[i];
        let ghost before = out@;
        push_int(&mut out, t.frequency as i64);
        out.push('=');
        append_str(&mut out, t.key.as_str());
        out.push('=');
        let vs = serialize_tag_value(&t.value);
        append_str(&mut out, vs.as_str());
        proof {
            assert(out@ =~= before + batch_tags_line(*t));
            assert(tags@.take(i + 1).map_values(f) =~= prev.push(batch_tags_line(tags@[i as int])));
            lemma_join_lines_push(prev, batch_tags_line(tags@[i as int]));
        }
    }
    assert(tags@.take(n as int) =~= tags@);
    string_from_chars(out.as_slice())
}

/// Lines of text joined with `\n`.
fn join_line_strings(lines: &Vec<String>) -> (r: String)
    ensures
        r@ == join_lines(lines@.map_values(|s: String| s@)),
{
    let mut out: Vec<char> = Vec::new();
    let ghost f = |s: String| s@;
    let n = lines.len();
    assert(lines@.take(0).map_values(f) =~= Seq::<Seq<char>>::empty());
    for i in 0..n
        invariant
            n == lines@.len(),
            f == (|s: String| s@),
            out@ == join_lines(lines@.take(i as int).map_values(f)),
    {
        let ghost prev = lines@.take(i as int).map_values(f);
        if i > 0 {
            out.push('\n');
        }
        append_str(&mut out, lines[i].as_str());
        proof {
            assert(lines@.take(i + 1).map_values(f) =~= prev.push(lines@[i as int]@));
            lemma_join_lines_push(prev, lines@[i as int]@);
        }
    }
    assert(lines@.take(n as int) =~= lines@);
    string_from_chars(out.as_slice())
}

// ── Payload building ─────────────────────────────────────────────────────────

/// The payload text given by `Payload.Data`.
pub open spec fn data_payload_text(msg: Message) -> Seq<char> {
    match msg.payload {
        Some(p) => match p.data {
            PayloadData::Text(s) => s@,
            PayloadData::Binary(b) => utf8_text(b@),
            PayloadData::Lines(ls) => join_lines(ls@.map_values(|s: String| s@)),
            PayloadData::Empty => Seq::empty(),
        },
        None => Seq::empty(),
    }
}

/// The payload text of `msg` under `intent`.
pub open spec fn spec_payload_text(msg: Message, intent: Intent) -> Seq<char> {
    if intent.same(spec_gateway_id()) || intent.same(spec_gateway_stream_on()) {
        Seq::empty()
    } else if intent.same(spec_store_batch_events()) {
        match msg.neural_memory {
            Some(n) => batch_events_text(n.batch_events@),
            None => batch_events_text(Seq::empty()),
        }
    } else if intent.same(spec_store_batch_links()) {
        match msg.neural_memory {
            Some(n) => batch_links_text(n.batch_links@),
            None => batch_links_text(Seq::empty()),
        }
    } else if intent.same(spec_store_batch_tags()) && msg.neural_memory is Some
        && msg.neural_memory.unwrap().tags@.len() > 0 {
        batch_tags_text(msg.neural_memory.unwrap().tags@)
    } else {
        data_payload_text(msg)
    }
}

fn build_payload(msg: &Message, intent: &Intent) -> (r: String)
    ensures
        r@ == spec_payload_text(*msg, *intent),
{
    if *intent == gateway_id() || *intent == gateway_stream_on() {
        return String::new();
    }
    if *intent == store_batch_events() {
        return match &msg.neural_memory {
            Some(n) => format_batch_events_payload(n.batch_events.as_slice()),
            None => {
                let empty: Vec<BatchEventSpec> = Vec::new();
                format_batch_events_payload(empty.as_slice())
            },
        };
    }
    if *intent == store_batch_links() {
        return match &msg.neural_memory {
            Some(n) => format_batch_link_events_payload(n.batch_links.as_slice()),
            None => {
                let empty: Vec<BatchLinkEventSpec> = Vec::new();
                format_batch_link_events_payload(empty.as_slice())
            },
        };
    }
    if *intent == store_batch_tags() {
        match &msg.neural_memory {
            Some(nm) => {
                if nm.tags.len() > 0 {
                    return format_batch_tags_payload(&nm.tags);
                }
            },
            None => {},
        }
    }
    match &msg.payload {
        Some(payload) => match &payload.data {
            PayloadData::Text(s) => s.as_str().to_owned(),
            PayloadData::Binary(b) => string_from_utf8_lossy(b.as_slice()),
            PayloadData::Lines(lines) => join_line_strings(lines),
            PayloadData::Empty => String::new(),
        },
        None => String::new(),
    }
}

/// `<what><n> bytes exceeds limit <max> bytes`.
fn size_limit_text(what: &str, n: u64, max: i64) -> (r: String)
    ensures
        r@ == what@ + dec_digits(n as nat) + " bytes exceeds limit "@ + int_text(max as int)
            + " bytes"@,
{
    let mut m = chars_of(what);
    push_dec_digits(&mut m, n);
    append_str(&mut m, " bytes exceeds limit ");
    push_int(&mut m, max);
    append_str(&mut m, " bytes");
    string_from_chars(m.as_slice())
}

// ── Encoding ─────────────────────────────────────────────────────────────────

/// The wire bytes of the to address.
pub open spec fn to_bytes(msg: Message) -> Seq<u8> {
    encode_utf8(msg.envelope.to@)
}

pub open spec fn from_bytes(msg: Message) -> Seq<u8> {
    encode_utf8(msg.envelope.from@)
}

pub open spec fn header_bytes(msg: Message, conversation: Seq<char>) -> Seq<u8> {
    encode_utf8(spec_header(msg, msg.envelope.intent, conversation))
}

pub open spec fn payload_bytes(msg: Message) -> Seq<u8> {
    encode_utf8(spec_payload_text(msg, msg.envelope.intent))
}

/// The total length of the frame of `msg` with the conversation id
/// `conversation`.
pub open spec fn message_frame_len(msg: Message, conversation: Seq<char>) -> nat {
    frame_len(to_bytes(msg), from_bytes(msg), header_bytes(msg, conversation), payload_bytes(msg))
}

/// The frame `encode_message` writes for `msg`.
pub open spec fn message_frame(msg: Message, conversation: Seq<char>) -> Seq<u8> {
    frame(
        to_bytes(msg),
        from_bytes(msg),
        header_bytes(msg, conversation),
        payload_bytes(msg),
        msg.envelope.intent.message_type,
    )
}

/// Whether `encode_message_with_limit(msg, _, max)` succeeds.
pub open spec fn encodes_within(msg: Message, conversation: Seq<char>, max: int) -> bool {
    &&& address_ok(msg.envelope.to@)
    &&& address_ok(msg.envelope.from@)
    &&& message_frame_len(msg, conversation) <= max
}

/// Encode a `Message` into its wire representation, refusing frames whose
/// payload or total size exceeds `max` bytes.
pub fn encode_message_with_limit(msg: &Message, conversation_uuid: &str, max: i64) -> (r: Result<
    SocketMessage,
    EncodeError,
>)
    ensures
        r is Ok <==> encodes_within(*msg, conversation_uuid@, max as int),
        r matches Ok(sm) ==> sm.data@ == message_frame(*msg, conversation_uuid@),
        !address_ok(msg.envelope.to@) ==> (r matches Err(e) && e.code
            == MsgErrCode::EncodeInvalidToAddress && e.message@ == address_error_text(
            "To"@,
            msg.envelope.to@,
        ) && (e.field matches Some(f) && f@ == "To"@)),
        address_ok(msg.envelope.to@) && !address_ok(msg.envelope.from@) ==> (r matches Err(e)
            && e.code == MsgErrCode::EncodeInvalidFromAddress && e.message@ == address_error_text(
            "From"@,
            msg.envelope.from@,
        ) && (e.field matches Some(f) && f@ == "From"@)),
        address_ok(msg.envelope.to@) && address_ok(msg.envelope.from@) && message_frame_len(*msg, conversation_uuid@)
            > max ==> (r matches Err(e) && e.code == MsgErrCode::EncodePayloadTooLarge),
{
    // ── Address validation ───────────────────────────────────────────────────
    validate_address(msg.envelope.to.as_str(), "To", MsgErrCode::EncodeInvalidToAddress)?;
    validate_address(msg.envelope.from.as_str(), "From", MsgErrCode::EncodeInvalidFromAddress)?;

    // ── Header ───────────────────────────────────────────────────────────────
    let intent = msg.envelope.intent;
    let header = construct_header(msg, &intent, conversation_uuid);
    let to = utf8_bytes(msg.envelope.to.as_str());
    let from = utf8_bytes(msg.envelope.from.as_str());
    let header_b = utf8_bytes(header.as_str());

    // ── Payload ──────────────────────────────────────────────────────────────
    let payload = build_payload(msg, &intent);
    let payload_b = utf8_bytes(payload.as_str());

    // ── Size guard ───────────────────────────────────────────────────────────
    if max < 0 || payload_b.len() as u64 > max as u64 {
        let m = size_limit_text("payload ", payload_b.len() as u64, max);
        return Err(EncodeError::new(MsgErrCode::EncodePayloadTooLarge, m.as_str()));
    }
    assert(to.len() + from.len() + header_b.len() + payload_b.len() < u128::MAX) by {
    }
    let total: u128 = 63u128 + to.len() as u128 + from.len() as u128 + header_b.len() as u128
        + payload_b.len() as u128;
    if total > max as u128 {
        let m = size_limit_text("total message ", total as u64, max);
        return Err(EncodeError::new(MsgErrCode::EncodePayloadTooLarge, m.as_str()));
    }
    let frame_len = total as u64;

    // ── Assemble wire frame ─────────────────────────────────────────────────
    let msg_type = msg.envelope.intent.message_type;
    let mut buf: Vec<u8> = Vec::new();
    write_hex_len(&mut buf, frame_len);
    write_hex_len(&mut buf, to.len() as u64);
    write_hex_len(&mut buf, from.len() as u64);
    write_hex_len(&mut buf, header_b.len() as u64);
    let wire_type: u64 = if msg_type < 0 {
        u64::MAX - ((-(msg_type as i64) - 1) as u64)
    } else {
        msg_type as u64
    };
    write_dec_9(&mut buf, wire_type);
    write_dec_9(&mut buf, 0);
    write_hex_len(&mut buf, payload_b.len() as u64);
    crate::text::append_bytes(&mut buf, to.as_slice());
    crate::text::append_bytes(&mut buf, from.as_slice());
    crate::text::append_bytes(&mut buf, header_b.as_slice());
    crate::text::append_bytes(&mut buf, payload_b.as_slice());
    assert(buf@ =~= message_frame(*msg, conversation_uuid@));
    Ok(SocketMessage::new(buf))
}

/// Encode a `Message` into its wire representation under the default size
/// limit.
///
/// `conversation_uuid` is set in the header (`_conversation_uuid`) for
/// connection tracking; pass an empty string to omit it.
pub fn encode_message(msg: &Message, conversation_uuid: &str) -> (r: Result<
    SocketMessage,
    EncodeError,
>)
    ensures
        r is Ok <==> encodes_within(*msg, conversation_uuid@, spec_max_message_size()),
        r matches Ok(sm) ==> sm.data@ == message_frame(*msg, conversation_uuid@),
        !address_ok(msg.envelope.to@) ==> (r matches Err(e) && e.code
            == MsgErrCode::EncodeInvalidToAddress && e.message@ == address_error_text(
            "To"@,
            msg.envelope.to@,
        ) && (e.field matches Some(f) && f@ == "To"@)),
        address_ok(msg.envelope.to@) && !address_ok(msg.envelope.from@) ==> (r matches Err(e)
            && e.code == MsgErrCode::EncodeInvalidFromAddress && e.message@ == address_error_text(
            "From"@,
            msg.envelope.from@,
        ) && (e.field matches Some(f) && f@ == "From"@)),
        address_ok(msg.envelope.to@) && address_ok(msg.envelope.from@) && message_frame_len(*msg, conversation_uuid@)
            > spec_max_message_size() ==> (r matches Err(e) && e.code
            == MsgErrCode::EncodePayloadTooLarge),
{
    encode_message_with_limit(msg, conversation_uuid, max_message_size())
}

} // verus!
