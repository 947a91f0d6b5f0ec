//! Per-intent header builders.
//!
//! The header is a tab-separated sequence of `key=value` pairs.  The fields
//! each intent writes, and their order, are stated by the `spec_*_fields`
//! functions below; the header text is those fields joined by
//! [`join_fields`].

use vstd::prelude::*;

use crate::message::intents::{
    Intent, gateway_id, gateway_stream_on, actor_echo, store_event, store_batch_events, store_batch_tags, get_event, get_events_for_tags, link_event, unlink_event, store_batch_links, spec_gateway_id, spec_gateway_stream_on, spec_actor_echo, spec_store_event, spec_store_batch_events, spec_store_batch_tags, spec_get_event, spec_get_events_for_tags, spec_link_event, spec_unlink_event, spec_store_batch_links,
};
use crate::message::types::{EventFields, GetEventOptions, GetEventsForTagsOptions, LinkFields, Message, TagOutput};
use crate::text::{
    append_chars, append_str, chars_of, dec_digits, int_text, push_dec_digits, push_int,
    push_zero_padded, str_eq, string_from_chars, zero_pad,
};

verus! {

/// A header field: key and value.
pub type Field = (Seq<char>, Seq<char>);

/// `key=value`.
pub open spec fn field_text(f: Field) -> Seq<char> {
    f.0 + seq!['='] + f.1
}

/// The fields rendered as `key=value` joined by tabs.
pub open spec fn join_fields(fs: Seq<Field>) -> Seq<char>
    decreases fs.len(),
{
    if fs.len() == 0 {
        Seq::empty()
    } else if fs.len() == 1 {
        field_text(fs[0])
    } else {
        join_fields(fs.drop_last()) + seq!['\t'] + field_text(fs.last())
    }
}

proof fn lemma_join_fields_len(fs: Seq<Field>)
    ensures
        (join_fields(fs).len() == 0) == (fs.len() == 0),
    decreases fs.len(),
{
    if fs.len() > 1 {
        lemma_join_fields_len(fs.drop_last());
    }
}

/// The field when its value is non-empty, else nothing.
pub open spec fn opt_field(key: Seq<char>, value: Seq<char>) -> Seq<Field> {
    if value.len() == 0 {
        Seq::empty()
    } else {
        seq![(key, value)]
    }
}

/// A single field.
pub open spec fn one(key: Seq<char>, value: Seq<char>) -> Seq<Field> {
    seq![(key, value)]
}

/// A `Y` flag field when `b` holds.
pub open spec fn flag_field(key: Seq<char>, b: bool) -> Seq<Field> {
    if b {
        seq![(key, "Y"@)]
    } else {
        Seq::empty()
    }
}

/// A decimal field when `n` is non-zero.
pub open spec fn nonzero_field(key: Seq<char>, n: i32) -> Seq<Field> {
    if n != 0 {
        seq![(key, int_text(n as int))]
    } else {
        Seq::empty()
    }
}

/// The location delimiter written for an event or link: `|` when unset.
pub open spec fn loc_delim_text(sep: Seq<char>) -> Seq<char> {
    if sep.len() == 0 {
        "|"@
    } else {
        sep
    }
}

/// Whether the decimal text of a strength means zero.
pub open spec fn strength_is_zero(s: Seq<char>) -> bool {
    s.len() == 0 || s == "0"@ || s == "-0"@
}

/// Header key of the `i`-th (1-indexed) event tag: `tag_` + 4-digit index.
pub open spec fn tag_key(i: nat) -> Seq<char> {
    "tag_"@ + zero_pad(dec_digits(i), 4)
}

/// Header value of an event tag: `freq:key=value`.
pub open spec fn tag_output_text(t: TagOutput) -> Seq<char> {
    int_text(t.frequency as int) + seq![':'] + t.key@ + seq!['='] + t.value@
}

/// `base` followed by the tag fields of a stored event, 1-indexed.
pub open spec fn tag_fields(base: Seq<Field>, tags: Seq<TagOutput>) -> Seq<Field>
    decreases tags.len(),
{
    if tags.len() == 0 {
        base
    } else {
        tag_fields(base, tags.drop_last()) + one(tag_key(tags.len()), tag_output_text(tags.last()))
    }
}

pub open spec fn msg_id_field(msg: Message) -> Seq<Field> {
    opt_field("_msg_id"@, msg.envelope.message_id@)
}

pub open spec fn spec_gateway_id_fields(msg: Message) -> Seq<Field> {
    Seq::empty() + opt_field("id:passcode"@, msg.envelope.passcode@) + opt_field(
        "id:user"@,
        msg.envelope.user_name@,
    ) + opt_field("id:name"@, msg.envelope.client_name@) + msg_id_field(msg)
}

/// `base` followed by the fields of a stored event.
pub open spec fn store_event_after(base: Seq<Field>, msg: Message, e: EventFields) -> Seq<Field> {
    let b = base + opt_field("unique_id"@, e.unique_id@) + opt_field("event_id"@, e.id@)
        + opt_field("owner"@, e.owner@) + opt_field("timestamp"@, e.timestamp@) + one(
        "loc_delim"@,
        loc_delim_text(e.location_separator@),
    ) + opt_field("loc"@, e.location@) + opt_field("type"@, e.event_type@);
    let b2 = match msg.payload {
        Some(p) => b + opt_field("mime"@, p.mime_type@),
        None => b,
    };
    tag_fields(b2, e.tags@)
}

pub open spec fn spec_store_event_fields(msg: Message) -> Seq<Field> {
    let base = one("_db_cmd"@, "store"@);
    (match msg.event {
        Some(e) => store_event_after(base, msg, e),
        None => base,
    }) + msg_id_field(msg)
}

pub open spec fn spec_store_batch_tags_fields(msg: Message) -> Seq<Field> {
    let base = one("_db_cmd"@, "tag_store_batch"@);
    (match msg.event {
        Some(e) => base + opt_field("event_id"@, e.id@) + opt_field("unique_id"@, e.unique_id@)
            + opt_field("owner"@, e.owner@) + opt_field("owner_unique_id"@, e.owner_unique_id@),
        None => base,
    }) + msg_id_field(msg)
}

/// `base` followed by the fields of GetEvent options.
pub open spec fn get_event_options_after(base: Seq<Field>, o: GetEventOptions) -> Seq<Field> {
    let b = base + flag_field("send_data"@, o.send_data) + flag_field(
        "local_id_only"@,
        o.local_id_only,
    ) + flag_field("get_tags"@, o.get_tags) + flag_field("get_links"@, o.get_links) + flag_field(
        "get_link_tags"@,
        o.get_link_tags,
    ) + flag_field("get_target_tags"@, o.get_target_tags) + nonzero_field(
        "first_link"@,
        o.first_link,
    ) + nonzero_field("link_count"@, o.link_count);
    let b2 = match o.tag_format {
        Some(tf) => b + one("tag_format"@, int_text(tf as int)),
        None => b,
    };
    b2 + one("request_format"@, int_text(o.request_format as int)) + opt_field(
        "event_facet_filter"@,
        o.event_facet_filter@,
    ) + opt_field("link_facet_filter"@, o.link_facet_filter@) + opt_field(
        "target_facet_filter"@,
        o.target_facet_filter@,
    ) + opt_field("category_filter"@, o.category_filter@) + opt_field(
        "tag_filter"@,
        o.tag_filter@,
    )
}

pub open spec fn spec_get_event_fields(msg: Message) -> Seq<Field> {
    let base = one("_db_cmd"@, "get"@);
    let b = match msg.event {
        Some(e) => base + opt_field("event_id"@, e.id@) + opt_field("unique_id"@, e.unique_id@),
        None => base,
    };
    (match msg.spec_get_event_opts() {
        Some(o) => get_event_options_after(b, o),
        None => b,
    }) + msg_id_field(msg)
}

/// `base` followed by the pattern and flag fields of GetEventsForTags options.
pub open spec fn events_for_tags_flags_after(
    base: Seq<Field>,
    o: GetEventsForTagsOptions,
) -> Seq<Field> {
    base + opt_field("event_pattern"@, o.event_pattern@) + opt_field(
        "event_pattern_high"@,
        o.event_pattern_high@,
    ) + one(
        "buffer_results"@,
        if o.buffer_results {
            "Y"@
        } else {
            "N"@
        },
    ) + flag_field("include_brief_hits"@, o.include_brief_hits) + flag_field(
        "get_all_data"@,
        o.get_all_data,
    ) + flag_field("count_only"@, o.count_only) + flag_field("get_match_links"@, o.get_match_links)
        + flag_field("count_match_links"@, o.count_match_links) + flag_field(
        "get_link_tags"@,
        o.get_link_tags,
    ) + flag_field("get_target_tags"@, o.get_target_tags) + flag_field(
        "get_event_object_count"@,
        o.get_event_object_count,
    ) + flag_field("include_tag_stats"@, o.include_tag_stats) + flag_field(
        "invert_hit_tag_filter"@,
        o.invert_hit_tag_filter,
    )
}

/// `base` followed by the numeric and filter fields of GetEventsForTags options.
pub open spec fn events_for_tags_limits_after(
    base: Seq<Field>,
    o: GetEventsForTagsOptions,
) -> Seq<Field> {
    base + nonzero_field("first_link"@, o.first_link) + nonzero_field("link_count"@, o.link_count)
        + nonzero_field("events_per_message"@, o.events_per_message) + nonzero_field(
        "start_result"@,
        o.start_result,
    ) + nonzero_field("end_result"@, o.end_result) + nonzero_field(
        "min_event_hits"@,
        o.min_event_hits,
    ) + opt_field("link_tag_filter"@, o.link_tag_filter@) + opt_field(
        "linked_events_filter"@,
        o.linked_events_filter@,
    ) + opt_field("link_category"@, o.link_category@) + opt_field("owner"@, o.owner@) + opt_field(
        "owner_unique_id"@,
        o.owner_unique_id@,
    ) + opt_field("hit_tag_filter"@, o.hit_tag_filter@) + one(
        "buffer_format"@,
        if o.buffer_format@.len() == 0 {
            "0"@
        } else {
            o.buffer_format@
        },
    )
}

/// `base` followed by the fields of GetEventsForTags options.
pub open spec fn events_for_tags_options_after(
    base: Seq<Field>,
    o: GetEventsForTagsOptions,
) -> Seq<Field> {
    events_for_tags_limits_after(events_for_tags_flags_after(base, o), o)
}

pub open spec fn spec_get_events_for_tags_fields(msg: Message) -> Seq<Field> {
    let base = one("_db_cmd"@, "events_for_tag"@);
    (match msg.spec_get_events_for_tags_opts() {
        Some(o) => events_for_tags_options_after(base, o),
        None => base,
    }) + msg_id_field(msg)
}

/// An identifier field that prefers `key_a` when `a` is set.
pub open spec fn either_field(key_a: Seq<char>, a: Seq<char>, key_b: Seq<char>, b: Seq<char>) -> Seq<
    Field,
> {
    if a.len() != 0 {
        one(key_a, a)
    } else {
        opt_field(key_b, b)
    }
}

pub open spec fn strength_field(key: Seq<char>, s: Seq<char>) -> Seq<Field> {
    if strength_is_zero(s) {
        Seq::empty()
    } else {
        one(key, s)
    }
}

/// `base` followed by the fields of a link request.
pub open spec fn link_after(base: Seq<Field>, l: LinkFields) -> Seq<Field> {
    base + opt_field("event_id"@, l.id@) + opt_field("owner"@, l.owner@) + either_field(
        "event_id_a"@,
        l.event_a@,
        "unique_id_a"@,
        l.unique_id_a@,
    ) + either_field("event_id_b"@, l.event_b@, "unique_id_b"@, l.unique_id_b@) + strength_field(
        "strength_a"@,
        l.strength_a@,
    ) + strength_field("strength_b"@, l.strength_b@) + opt_field("category"@, l.category@) + one(
        "loc_delim"@,
        loc_delim_text(l.location_separator@),
    ) + opt_field("loc"@, l.location@) + opt_field("type"@, l.link_type@) + opt_field(
        "timestamp"@,
        l.timestamp@,
    ) + either_field("owner_event_id"@, l.owner_id@, "owner_unique_id"@, l.owner_unique_id@)
}

pub open spec fn spec_link_fields(msg: Message) -> Seq<Field> {
    let base = one("_db_cmd"@, "link"@);
    (match msg.spec_link() {
        Some(l) => link_after(base, l),
        None => base,
    }) + msg_id_field(msg)
}

/// `base` followed by the fields of an unlink request.
pub open spec fn unlink_after(base: Seq<Field>, l: LinkFields) -> Seq<Field> {
    base + opt_field("owner"@, l.owner@) + either_field("event_id"@, l.id@, "unique_id"@, l.unique_id@)
        + one("loc_delim"@, loc_delim_text(l.location_separator@)) + opt_field(
        "loc"@,
        l.location@,
    ) + opt_field("timestamp"@, l.timestamp@)
}

pub open spec fn spec_unlink_fields(msg: Message) -> Seq<Field> {
    let base = one("_db_cmd"@, "unlink"@);
    (match msg.spec_link() {
        Some(l) => unlink_after(base, l),
        None => base,
    }) + msg_id_field(msg)
}

/// The fields of a header that is a command and an optional message id.
pub open spec fn command_fields(msg: Message, cmd: Seq<char>) -> Seq<Field> {
    one("_db_cmd"@, cmd) + msg_id_field(msg)
}

/// The header fields written for `msg` under `intent`.
pub open spec fn spec_header_fields(msg: Message, intent: Intent) -> Seq<Field> {
    if intent.same(spec_gateway_id()) {
        spec_gateway_id_fields(msg)
    } else if intent.same(spec_gateway_stream_on()) || intent.same(spec_actor_echo()) {
        Seq::empty() + msg_id_field(msg)
    } else if intent.same(spec_store_event()) {
        spec_store_event_fields(msg)
    } else if intent.same(spec_store_batch_events()) {
        command_fields(msg, "store_batch"@)
    } else if intent.same(spec_store_batch_tags()) {
        spec_store_batch_tags_fields(msg)
    } else if intent.same(spec_get_event()) {
        spec_get_event_fields(msg)
    } else if intent.same(spec_get_events_for_tags()) {
        spec_get_events_for_tags_fields(msg)
    } else if intent.same(spec_link_event()) {
        spec_link_fields(msg)
    } else if intent.same(spec_unlink_event()) {
        spec_unlink_fields(msg)
    } else if intent.same(spec_store_batch_links()) {
        command_fields(msg, "link_batch"@)
    } else {
        reply_fields(msg, intent)
    }
}

/// Whether an intent has a header layout of its own (the requests the
/// encoder knows); every other intent is written in the reply layout.
pub open spec fn has_own_layout(intent: Intent) -> bool {
    ||| intent.same(spec_gateway_id())
    ||| intent.same(spec_gateway_stream_on())
    ||| intent.same(spec_actor_echo())
    ||| intent.same(spec_store_event())
    ||| intent.same(spec_store_batch_events())
    ||| intent.same(spec_store_batch_tags())
    ||| intent.same(spec_get_event())
    ||| intent.same(spec_get_events_for_tags())
    ||| intent.same(spec_link_event())
    ||| intent.same(spec_unlink_event())
    ||| intent.same(spec_store_batch_links())
}

/// The status and message of a response, where present.
pub open spec fn outcome_fields(msg: Message) -> Seq<Field> {
    match msg.response {
        Some(r) => opt_field("_status"@, r.status@) + opt_field("_msg"@, r.message@),
        None => Seq::empty(),
    }
}

/// The header of an intent without a builder of its own: the command of a
/// Neural Memory reply (message type 1001), the message id, and the status
/// and message of the response it carries, so that a reply decodes as the
/// reply it was.
pub open spec fn reply_fields(msg: Message, intent: Intent) -> Seq<Field> {
    (if intent.message_type == 1001 {
        opt_field("_db_cmd"@, intent.neural_memory_command@)
    } else {
        Seq::empty()
    }) + msg_id_field(msg) + outcome_fields(msg)
}

/// The conversation id field, written last when the id is non-empty.
pub open spec fn conversation_field(conversation: Seq<char>) -> Seq<Field> {
    opt_field("_conversation_uuid"@, conversation)
}

/// The header fields of `msg` under `intent`, followed by the conversation
/// id when there is one.
pub open spec fn header_fields(msg: Message, intent: Intent, conversation: Seq<char>) -> Seq<Field> {
    spec_header_fields(msg, intent) + conversation_field(conversation)
}

/// The header text of `msg` under `intent` with the conversation id
/// `conversation` (none when empty).
pub open spec fn spec_header(msg: Message, intent: Intent, conversation: Seq<char>) -> Seq<char> {
    join_fields(header_fields(msg, intent, conversation))
}

/// One more field after `fs` is joined after a tab (or alone).
proof fn lemma_join_fields_push(fs: Seq<Field>, f: Field)
    ensures
        join_fields(fs + seq![f]) == if fs.len() == 0 {
            field_text(f)
        } else {
            join_fields(fs) + seq!['\t'] + field_text(f)
        },
{
    let g = fs + seq![f];
    assert(g.drop_last() =~= fs);
    assert(g.last() == f);
    if fs.len() == 0 {
        assert(g[0] == f);
    }
}

// ── Header builder ───────────────────────────────────────────────────────────

/// Accumulates header fields and their rendered text.
pub(crate) struct Header {
    pub(crate) text: Vec<char>,
    pub(crate) fields: Ghost<Seq<Field>>,
}

impl Header {
    #[verifier::opaque]
    pub(crate) open spec fn wf(&self) -> bool {
        self.text@ == join_fields(self.fields@)
    }

    pub(crate) fn new() -> (h: Self)
        ensures
            h.wf(),
            h.fields@ == Seq::<Field>::empty(),
    {
        let h = Header { text: Vec::new(), fields: Ghost(Seq::empty()) };
        proof {
            reveal(Header::wf);
        }
        h
    }

    /// A header whose first field is `key=value`.
    pub(crate) fn starting_with(key: &str, value: &str) -> (h: Self)
        ensures
            h.wf(),
            h.fields@ == one(key@, value@),
    {
        let mut h = Header::new();
        h.add(key, value);
        assert(Seq::<Field>::empty() + one(key@, value@) =~= one(key@, value@));
        h
    }

    pub(crate) fn add_chars(&mut self, key: &str, value: &[char])
        requires
            old(self).wf(),
        ensures
            final(self).wf(),
            final(self).fields@ == old(self).fields@ + one(key@, value@),
    {
        proof {
            reveal(Header::wf);
        }
        let ghost f = (key@, value@);
        let ghost old_fields = self.fields@;
        proof {
            lemma_join_fields_len(old_fields);
        }
        if self.text.len() > 0 {
            self.text.push('\t');
        }
        append_str(&mut self.text, key);
        self.text.push('=');
        append_chars(&mut self.text, value);
        self.fields = Ghost(old_fields + one(key@, value@));
        proof {
            let nf = old_fields + one(key@, value@);
            assert(nf.drop_last() =~= old_fields);
            assert(nf.last() == f);
            if old_fields.len() == 0 {
                assert(nf.len() == 1);
                assert(self.text@ =~= field_text(f));
            } else {
                assert(self.text@ =~= join_fields(old_fields) + seq!['\t'] + field_text(f));
            }
        }
    }

    pub(crate) fn add(&mut self, key: &str, value: &str)
        requires
            old(self).wf(),
        ensures
            final(self).wf(),
            final(self).fields@ == old(self).fields@ + one(key@, value@),
    {
        let v = chars_of(value);
        self.add_chars(key, v.as_slice());
    }

    pub(crate) fn add_if_nonempty(&mut self, key: &str, value: &str)
        requires
            old(self).wf(),
        ensures
            final(self).wf(),
            final(self).fields@ == old(self).fields@ + opt_field(key@, value@),
    {
        if !value.is_empty() {
            self.add(key, value);
        } else {
            assert(old(self).fields@ + opt_field(key@, value@) =~= old(self).fields@);
        }
    }

    pub(crate) fn add_flag(&mut self, key: &str, b: bool)
        requires
            old(self).wf(),
        ensures
            final(self).wf(),
            final(self).fields@ == old(self).fields@ + flag_field(key@, b),
    {
        if b {
            self.add(key, "Y");
        } else {
            assert(old(self).fields@ + flag_field(key@, b) =~= old(self).fields@);
        }
    }

    pub(crate) fn add_int(&mut self, key: &str, n: i64)
        requires
            old(self).wf(),
        ensures
            final(self).wf(),
            final(self).fields@ == old(self).fields@ + one(key@, int_text(n as int)),
    {
        let mut v: Vec<char> = Vec::new();
        push_int(&mut v, n);
        assert(v@ =~= int_text(n as int));
        self.add_chars(key, v.as_slice());
    }

    pub(crate) fn add_nonzero(&mut self, key: &str, n: i32)
        requires
            old(self).wf(),
        ensures
            final(self).wf(),
            final(self).fields@ == old(self).fields@ + nonzero_field(key@, n),
    {
        if n != 0 {
            self.add_int(key, n as i64);
        } else {
            assert(old(self).fields@ + nonzero_field(key@, n) =~= old(self).fields@);
        }
    }

    pub(crate) fn add_either(&mut self, key_a: &str, a: &str, key_b: &str, b: &str)
        requires
            old(self).wf(),
        ensures
            final(self).wf(),
            final(self).fields@ == old(self).fields@ + either_field(key_a@, a@, key_b@, b@),
    {
        if !a.is_empty() {
            self.add(key_a, a);
        } else {
            self.add_if_nonempty(key_b, b);
        }
    }

    pub(crate) fn add_strength(&mut self, key: &str, s: &str)
        requires
            old(self).wf(),
        ensures
            final(self).wf(),
            final(self).fields@ == old(self).fields@ + strength_field(key@, s@),
    {
        if !strength_text_is_zero(s) {
            self.add(key, s);
        } else {
            assert(old(self).fields@ + strength_field(key@, s@) =~= old(self).fields@);
        }
    }

    pub(crate) fn add_loc_delim(&mut self, sep: &str)
        requires
            old(self).wf(),
        ensures
            final(self).wf(),
            final(self).fields@ == old(self).fields@ + one("loc_delim"@, loc_delim_text(sep@)),
    {
        if sep.is_empty() {
            self.add("loc_delim", "|");
        } else {
            self.add("loc_delim", sep);
        }
    }

    pub(crate) fn add_msg_id(&mut self, msg: &Message)
        requires
            old(self).wf(),
        ensures
            final(self).wf(),
            final(self).fields@ == old(self).fields@ + msg_id_field(*msg),
    {
        self.add_if_nonempty("_msg_id", msg.envelope.message_id.as_str());
    }

    pub(crate) fn into_chars(self) -> (r: Vec<char>)
        requires
            self.wf(),
        ensures
            r@ == join_fields(self.fields@),
    {
        proof {
            reveal(Header::wf);
        }
        self.text
    }

    pub(crate) fn build(self) -> (r: String)
        requires
            self.wf(),
        ensures
            r@ == join_fields(self.fields@),
    {
        proof {
            reveal(Header::wf);
        }
        string_from_chars(self.text.as_slice())
    }
}

/// Whether the decimal text of a strength means zero.
pub fn strength_text_is_zero(s: &str) -> (r: bool)
    ensures
        r == strength_is_zero(s@),
{
    s.is_empty() || str_eq(s, "0") || str_eq(s, "-0")
}

// ── Per-intent header builders ───────────────────────────────────────────────

fn gateway_identify_connection_header(msg: &Message) -> (r: String)
    ensures
        r@ == join_fields(spec_gateway_id_fields(*msg)),
{
    let mut h = Header::new();
    h.add_if_nonempty("id:passcode", msg.envelope.passcode.as_str());
    h.add_if_nonempty("id:user", msg.envelope.user_name.as_str());
    h.add_if_nonempty("id:name", msg.envelope.client_name.as_str());
    h.add_msg_id(msg);
    h.build()
}

fn msg_id_only_header(msg: &Message) -> (r: String)
    ensures
        r@ == join_fields(Seq::empty() + msg_id_field(*msg)),
{
    let mut h = Header::new();
    h.add_msg_id(msg);
    h.build()
}

fn reply_header(msg: &Message, intent: &Intent) -> (r: String)
    ensures
        r@ == join_fields(reply_fields(*msg, *intent)),
{
    let mut h = Header::new();
    if intent.message_type == 1001 {
        h.add_if_nonempty("_db_cmd", intent.neural_memory_command);
    }
    h.add_msg_id(msg);
    if let Some(resp) = &msg.response {
        h.add_if_nonempty("_status", resp.status.as_str());
        h.add_if_nonempty("_msg", resp.message.as_str());
    }
    let ghost first = if intent.message_type == 1001 {
        opt_field("_db_cmd"@, intent.neural_memory_command@)
    } else {
        Seq::empty()
    };
    assert(h.fields@ =~= first + msg_id_field(*msg) + outcome_fields(*msg));
    h.build()
}

fn command_only_header(msg: &Message, cmd: &str) -> (r: String)
    ensures
        r@ == join_fields(command_fields(*msg, cmd@)),
{
    let mut h = Header::starting_with("_db_cmd", cmd);
    h.add_msg_id(msg);
    h.build()
}

fn add_tags(h: &mut Header, tags: &Vec<TagOutput>)
    requires
        old(h).wf(),
    ensures
        final(h).wf(),
        final(h).fields@ == tag_fields(old(h).fields@, tags@),
{
    let n = tags.len();
    let ghost start = h.fields@;
    assert(tags@.take(0) =~= Seq::<TagOutput>::empty());
    for i in 0..n
        invariant
            n == tags@.len(),
            h.wf(),
            h.fields@ == tag_fields(start, tags@.take(i as int)),
    {
        let t = &tags[i];
        let mut key: Vec<char> = Vec::new();
        append_str(&mut key, "tag_");
        let mut digits: Vec<char> = Vec::new();
        push_dec_digits(&mut digits, (i as u64) + 1);
        push_zero_padded(&mut key, &digits, 4);
        let mut val: Vec<char> = Vec::new();
        push_int(&mut val, t.frequency as i64);
        val.push(':');
        append_str(&mut val, t.key.as_str());
        val.push('=');
        append_str(&mut val, t.value.as_str());
        let key_s = string_from_chars(key.as_slice());
        h.add_chars(key_s.as_str(), val.as_slice());
        proof {
            let tk = tags@.take(i + 1);
            assert(tk.drop_last() =~= tags@.take(i as int));
            assert(tk.last() == *t);
            assert(key@ =~= tag_key(tk.len()));
            assert(val@ =~= tag_output_text(*t));
        }
    }
    assert(tags@.take(n as int) =~= tags@);
}

fn add_store_event(h: &mut Header, msg: &Message, event: &EventFields)
    requires
        old(h).wf(),
    ensures
        final(h).wf(),
        final(h).fields@ == store_event_after(old(h).fields@, *msg, *event),
{
    h.add_if_nonempty("unique_id", event.unique_id.as_str());
    h.add_if_nonempty("event_id", event.id.as_str());
    h.add_if_nonempty("owner", event.owner.as_str());
    h.add_if_nonempty("timestamp", event.timestamp.as_str());
    h.add_loc_delim(event.location_separator.as_str());
    h.add_if_nonempty("loc", event.location.as_str());
    h.add_if_nonempty("type", event.event_type.as_str());
    match &msg.payload {
        Some(payload) => {
            h.add_if_nonempty("mime", payload.mime_type.as_str());
        },
        None => {},
    }
    add_tags(h, &event.tags);
}

fn store_event_message_header(msg: &Message) -> (r: String)
    ensures
        r@ == join_fields(spec_store_event_fields(*msg)),
{
    let mut h = Header::starting_with("_db_cmd", "store");
    match &msg.event {
        Some(event) => {
            add_store_event(&mut h, msg, event);
        },
        None => {},
    }
    h.add_msg_id(msg);
    h.build()
}

fn store_batch_tags_message_header(msg: &Message) -> (r: String)
    ensures
        r@ == join_fields(spec_store_batch_tags_fields(*msg)),
{
    let mut h = Header::starting_with("_db_cmd", "tag_store_batch");
    match &msg.event {
        Some(event) => {
            h.add_if_nonempty("event_id", event.id.as_str());
            h.add_if_nonempty("unique_id", event.unique_id.as_str());
            h.add_if_nonempty("owner", event.owner.as_str());
            h.add_if_nonempty("owner_unique_id", event.owner_unique_id.as_str());
        },
        None => {},
    }
    h.add_msg_id(msg);
    h.build()
}

fn add_get_event_options(h: &mut Header, opts: &GetEventOptions)
    requires
        old(h).wf(),
    ensures
        final(h).wf(),
        final(h).fields@ == get_event_options_after(old(h).fields@, *opts),
{
    h.add_flag("send_data", opts.send_data);
    h.add_flag("local_id_only", opts.local_id_only);
    h.add_flag("get_tags", opts.get_tags);
    h.add_flag("get_links", opts.get_links);
    h.add_flag("get_link_tags", opts.get_link_tags);
    h.add_flag("get_target_tags", opts.get_target_tags);
    h.add_nonzero("first_link", opts.first_link);
    h.add_nonzero("link_count", opts.link_count);
    match opts.tag_format {
        Some(tf) => {
            h.add_int("tag_format", tf);
        },
        None => {},
    }
    h.add_int("request_format", opts.request_format as i64);
    h.add_if_nonempty("event_facet_filter", opts.event_facet_filter.as_str());
    h.add_if_nonempty("link_facet_filter", opts.link_facet_filter.as_str());
    h.add_if_nonempty("target_facet_filter", opts.target_facet_filter.as_str());
    h.add_if_nonempty("category_filter", opts.category_filter.as_str());
    h.add_if_nonempty("tag_filter", opts.tag_filter.as_str());
}

fn get_event_message_header(msg: &Message) -> (r: String)
    ensures
        r@ == join_fields(spec_get_event_fields(*msg)),
{
    let mut h = Header::starting_with("_db_cmd", "get");
    match &msg.event {
        Some(event) => {
            h.add_if_nonempty("event_id", event.id.as_str());
            h.add_if_nonempty("unique_id", event.unique_id.as_str());
        },
        None => {},
    }
    match msg.get_event_opts() {
        Some(opts) => {
            add_get_event_options(&mut h, opts);
        },
        None => {},
    }
    h.add_msg_id(msg);
    h.build()
}

fn add_events_for_tags_flags(h: &mut Header, opts: &GetEventsForTagsOptions)
    requires
        old(h).wf(),
    ensures
        final(h).wf(),
        final(h).fields@ == events_for_tags_flags_after(old(h).fields@, *opts),
{
    h.add_if_nonempty("event_pattern", opts.event_pattern.as_str());
    h.add_if_nonempty("event_pattern_high", opts.event_pattern_high.as_str());
    let buffer_results = if opts.buffer_results {
        "Y"
    } else {
        "N"
    };
    h.add("buffer_results", buffer_results);
    h.add_flag("include_brief_hits", opts.include_brief_hits);
    h.add_flag("get_all_data", opts.get_all_data);
    h.add_flag("count_only", opts.count_only);
    h.add_flag("get_match_links", opts.get_match_links);
    h.add_flag("count_match_links", opts.count_match_links);
    h.add_flag("get_link_tags", opts.get_link_tags);
    h.add_flag("get_target_tags", opts.get_target_tags);
    h.add_flag("get_event_object_count", opts.get_event_object_count);
    h.add_flag("include_tag_stats", opts.include_tag_stats);
    h.add_flag("invert_hit_tag_filter", opts.invert_hit_tag_filter);
}

fn add_events_for_tags_limits(h: &mut Header, opts: &GetEventsForTagsOptions)
    requires
        old(h).wf(),
    ensures
        final(h).wf(),
        final(h).fields@ == events_for_tags_limits_after(old(h).fields@, *opts),
{
    h.add_nonzero("first_link", opts.first_link);
    h.add_nonzero("link_count", opts.link_count);
    h.add_nonzero("events_per_message", opts.events_per_message);
    h.add_nonzero("start_result", opts.start_result);
    h.add_nonzero("end_result", opts.end_result);
    h.add_nonzero("min_event_hits", opts.min_event_hits);
    h.add_if_nonempty("link_tag_filter", opts.link_tag_filter.as_str());
    h.add_if_nonempty("linked_events_filter", opts.linked_events_filter.as_str());
    h.add_if_nonempty("link_category", opts.link_category.as_str());
    h.add_if_nonempty("owner", opts.owner.as_str());
    h.add_if_nonempty("owner_unique_id", opts.owner_unique_id.as_str());
    h.add_if_nonempty("hit_tag_filter", opts.hit_tag_filter.as_str());
    let buffer_format = if opts.buffer_format.as_str().is_empty() {
        "0"
    } else {
        opts.buffer_format.as_str()
    };
    h.add("buffer_format", buffer_format);
}

fn add_events_for_tags_options(h: &mut Header, opts: &GetEventsForTagsOptions)
    requires
        old(h).wf(),
    ensures
        final(h).wf(),
        final(h).fields@ == events_for_tags_options_after(old(h).fields@, *opts),
{
    add_events_for_tags_flags(h, opts);
    add_events_for_tags_limits(h, opts);
}

fn get_events_for_tags_message_header(msg: &Message) -> (r: String)
    ensures
        r@ == join_fields(spec_get_events_for_tags_fields(*msg)),
{
    let mut h = Header::starting_with("_db_cmd", "events_for_tag");
    match msg.get_events_for_tags_opts() {
        Some(opts) => {
            add_events_for_tags_options(&mut h, opts);
        },
        None => {},
    }
    h.add_msg_id(msg);
    h.build()
}

fn add_link(h: &mut Header, link: &LinkFields)
    requires
        old(h).wf(),
    ensures
        final(h).wf(),
        final(h).fields@ == link_after(old(h).fields@, *link),
{
    h.add_if_nonempty("event_id", link.id.as_str());
    h.add_if_nonempty("owner", link.owner.as_str());
    h.add_either("event_id_a", link.event_a.as_str(), "unique_id_a", link.unique_id_a.as_str());
    h.add_either("event_id_b", link.event_b.as_str(), "unique_id_b", link.unique_id_b.as_str());
    h.add_strength("strength_a", link.strength_a.as_str());
    h.add_strength("strength_b", link.strength_b.as_str());
    h.add_if_nonempty("category", link.category.as_str());
    h.add_loc_delim(link.location_separator.as_str());
    h.add_if_nonempty("loc", link.location.as_str());
    h.add_if_nonempty("type", link.link_type.as_str());
    h.add_if_nonempty("timestamp", link.timestamp.as_str());
    h.add_either(
        "owner_event_id",
        link.owner_id.as_str(),
        "owner_unique_id",
        link.owner_unique_id.as_str(),
    );
}

fn link_events_message_header(msg: &Message) -> (r: String)
    ensures
        r@ == join_fields(spec_link_fields(*msg)),
{
    let mut h = Header::starting_with("_db_cmd", "link");
    match msg.link() {
        Some(link) => {
            add_link(&mut h, link);
        },
        None => {},
    }
    h.add_msg_id(msg);
    h.build()
}

fn unlink_events_message_header(msg: &Message) -> (r: String)
    ensures
        r@ == join_fields(spec_unlink_fields(*msg)),
{
    let mut h = Header::starting_with("_db_cmd", "unlink");
    match msg.link() {
        Some(link) => {
            h.add_if_nonempty("owner", link.owner.as_str());
            h.add_either("event_id", link.id.as_str(), "unique_id", link.unique_id.as_str());
            h.add_loc_delim(link.location_separator.as_str());
            h.add_if_nonempty("loc", link.location.as_str());
            h.add_if_nonempty("timestamp", link.timestamp.as_str());
        },
        None => {},
    }
    h.add_msg_id(msg);
    h.build()
}

/// The header string of a message's own fields: the intent's fields for
/// requests with a dedicated layout, otherwise the reply layout (see
/// [`reply_fields`]).
fn layout_header(msg: &Message, intent: &Intent) -> (r: String)
    ensures
        r@ == join_fields(spec_header_fields(*msg, *intent)),
{
    if *intent == gateway_id() {
        return gateway_identify_connection_header(msg);
    }
    if *intent == gateway_stream_on() || *intent == actor_echo() {
        return msg_id_only_header(msg);
    }
    if *intent == store_event() {
        return store_event_message_header(msg);
    }
    if *intent == store_batch_events() {
        return command_only_header(msg, "store_batch");
    }
    if *intent == store_batch_tags() {
        return store_batch_tags_message_header(msg);
    }
    if *intent == get_event() {
        return get_event_message_header(msg);
    }
    if *intent == get_events_for_tags() {
        return get_events_for_tags_message_header(msg);
    }
    if *intent == link_event() {
        return link_events_message_header(msg);
    }
    if *intent == unlink_event() {
        return unlink_events_message_header(msg);
    }
    if *intent == store_batch_links() {
        return command_only_header(msg, "link_batch");
    }
    reply_header(msg, intent)
}


/// Build the full header string for a message: the intent's own fields for
/// requests with a dedicated layout, otherwise the reply layout (see
/// [`reply_fields`]), then the connection tracking id `connection_id_uuid`
/// as `_conversation_uuid` when it is non-empty.
pub fn construct_header(msg: &Message, intent: &Intent, connection_id_uuid: &str) -> (r: String)
    ensures
        r@ == spec_header(*msg, *intent, connection_id_uuid@),
{
    let h = layout_header(msg, intent);
    let ghost fs = spec_header_fields(*msg, *intent);
    if connection_id_uuid.unicode_len() == 0 {
        proof {
            assert(conversation_field(connection_id_uuid@) =~= Seq::<Field>::empty());
            assert(header_fields(*msg, *intent, connection_id_uuid@) =~= fs);
        }
        return h;
    }
    let mut v = chars_of(h.as_str());
    if v.len() > 0 {
        v.push('\t');
    }
    append_str(&mut v, "_conversation_uuid");
    v.push('=');
    append_str(&mut v, connection_id_uuid);
    proof {
        let f = ("_conversation_uuid"@, connection_id_uuid@);
        assert(conversation_field(connection_id_uuid@) == seq![f]);
        lemma_join_fields_push(fs, f);
        lemma_join_fields_len(fs);
    }
    string_from_chars(v.as_slice())
}

} // verus!
