//! What the decoder reads back of the command and message id of a frame the
//! encoder wrote: the header of every request with a layout of its own
//! begins with its `_db_cmd` (none for the gateway requests), ends with the
//! message id and the conversation id, and holds no other key the decoder
//! reads a command or message id from, so the decoder resolves the intent
//! and message id written.

use vstd::prelude::*;

use crate::message::decoder::{
    decode_failure, decoded_intent, decoded_ok, header_command, header_pairs,
};
use crate::message::encoder::{message_frame_len, message_frame};
use crate::message::header::{
    command_fields, either_field, events_for_tags_flags_after, events_for_tags_limits_after,
    events_for_tags_options_after, flag_field, get_event_options_after, has_own_layout, link_after,
    msg_id_field, nonzero_field, one, opt_field, spec_gateway_id_fields, spec_get_event_fields,
    spec_get_events_for_tags_fields, spec_header_fields, spec_link_fields,
    spec_store_batch_tags_fields, spec_store_event_fields, spec_unlink_fields, store_event_after,
    strength_field, tag_fields, tag_key, unlink_after, Field, conversation_field, header_fields,
};
use crate::message::intents::{
    spec_actor_echo, spec_gateway_id, spec_gateway_stream_on, spec_get_event,
    spec_get_events_for_tags, spec_intent_from_type_and_command, spec_link_event,
    spec_store_batch_events, spec_store_batch_links, spec_store_batch_tags, spec_store_event,
    spec_unlink_event, zero_intent, lemma_request_intents_found, is_memory_response, is_plain_reply,
};
use crate::message::records::value_of;
use crate::message::replies::{
    clean_fields, lemma_reply_reads_back, lemma_conversation_transparent, lemma_header_reads_back,
    lemma_last_value_concat, lemma_last_value_opt, lemma_reply_keys_distinct,
};
use crate::message::roundtrip::lemma_decode_reads_encoded;
use crate::message::types::{Message, TagOutput};
use crate::message::wire::last_value;

verus! {

/// A key that begins with a character other than `_`, so none of the keys
/// the decoder reads a command or message id from.
pub open spec fn plain_key(k: Seq<char>) -> bool {
    k.len() > 0 && k[0] != '_'
}

/// Fields whose keys are all plain.
pub open spec fn all_plain(fs: Seq<Field>) -> bool {
    forall|i: int| 0 <= i < fs.len() ==> plain_key(#[trigger] fs[i].0)
}

/// Fields that begin with the command `c` and hold no other command key.
pub open spec fn led_by_command(fs: Seq<Field>, c: Seq<char>) -> bool {
    &&& fs.len() >= 1
    &&& fs[0] == ("_db_cmd"@, c)
    &&& all_plain(fs.skip(1))
}

/// A plain key differs from every key that begins with `_`.
proof fn lemma_plain_not_underscored(k: Seq<char>, key: Seq<char>)
    requires
        plain_key(k),
        key.len() > 0,
        key[0] == '_',
    ensures
        k != key,
{
}

/// The keys the decoder reads a command or message id from begin with `_`.
proof fn lemma_read_keys_underscored()
    ensures
        "_type"@.len() > 0 && "_type"@[0] == '_',
        "_command"@.len() > 0 && "_command"@[0] == '_',
        "_db_cmd"@.len() > 0 && "_db_cmd"@[0] == '_',
        "_msg_id"@.len() > 0 && "_msg_id"@[0] == '_',
{
    reveal_strlit("_type");
    reveal_strlit("_command");
    reveal_strlit("_db_cmd");
    reveal_strlit("_msg_id");
}

broadcast proof fn lemma_plain_concat(a: Seq<Field>, b: Seq<Field>)
    requires
        all_plain(a),
        all_plain(b),
    ensures
        #[trigger] all_plain(a + b),
{
    assert forall|i: int| 0 <= i < (a + b).len() implies plain_key(#[trigger] (a + b)[i].0) by {
        if i < a.len() {
            assert((a + b)[i] == a[i]);
        } else {
            assert((a + b)[i] == b[i - a.len()]);
        }
    }
}

broadcast proof fn lemma_led_concat(a: Seq<Field>, b: Seq<Field>, c: Seq<char>)
    requires
        led_by_command(a, c),
        all_plain(b),
    ensures
        #[trigger] led_by_command(a + b, c),
{
    assert((a + b).skip(1) =~= a.skip(1) + b);
    lemma_plain_concat(a.skip(1), b);
}

broadcast proof fn lemma_plain_one(k: Seq<char>, v: Seq<char>)
    requires
        plain_key(k),
    ensures
        #[trigger] all_plain(one(k, v)),
{
    assert(one(k, v)[0].0 == k);
}

broadcast proof fn lemma_plain_opt(k: Seq<char>, v: Seq<char>)
    requires
        plain_key(k),
    ensures
        #[trigger] all_plain(opt_field(k, v)),
{
    if v.len() > 0 {
        assert(opt_field(k, v)[0].0 == k);
    }
}

broadcast proof fn lemma_plain_flag(k: Seq<char>, b: bool)
    requires
        plain_key(k),
    ensures
        #[trigger] all_plain(flag_field(k, b)),
{
    if b {
        assert(flag_field(k, b)[0].0 == k);
    }
}

broadcast proof fn lemma_plain_nonzero(k: Seq<char>, n: i32)
    requires
        plain_key(k),
    ensures
        #[trigger] all_plain(nonzero_field(k, n)),
{
    if n != 0 {
        assert(nonzero_field(k, n)[0].0 == k);
    }
}

broadcast proof fn lemma_plain_either(ka: Seq<char>, a: Seq<char>, kb: Seq<char>, b: Seq<char>)
    requires
        plain_key(ka),
        plain_key(kb),
    ensures
        #[trigger] all_plain(either_field(ka, a, kb, b)),
{
    if a.len() != 0 {
        assert(either_field(ka, a, kb, b)[0].0 == ka);
    } else if b.len() != 0 {
        assert(either_field(ka, a, kb, b)[0].0 == kb);
    }
}

broadcast proof fn lemma_plain_strength(k: Seq<char>, s: Seq<char>)
    requires
        plain_key(k),
    ensures
        #[trigger] all_plain(strength_field(k, s)),
{
    if !crate::message::header::strength_is_zero(s) {
        assert(strength_field(k, s)[0].0 == k);
    }
}

/// The tag keys begin with `t`.
proof fn lemma_tag_key_plain(i: nat)
    ensures
        plain_key(tag_key(i)),
{
    reveal_strlit("tag_");
    assert(tag_key(i)[0] == "tag_"@[0]);
    assert("tag_"@[0] == 't');
}

/// Adding tag fields keeps a command-led header command-led.
proof fn lemma_tag_fields_led(base: Seq<Field>, tags: Seq<TagOutput>, c: Seq<char>)
    requires
        led_by_command(base, c),
    ensures
        led_by_command(tag_fields(base, tags), c),
    decreases tags.len(),
{
    if tags.len() > 0 {
        lemma_tag_fields_led(base, tags.drop_last(), c);
        lemma_tag_key_plain(tags.len());
        broadcast use lemma_plain_one, lemma_led_concat;
    }
}

/// The keys the request layouts write are plain.
proof fn lemma_request_keys_plain()
    ensures
        plain_key("id:passcode"@),
        plain_key("id:user"@),
        plain_key("id:name"@),
        plain_key("unique_id"@),
        plain_key("event_id"@),
        plain_key("owner"@),
        plain_key("timestamp"@),
        plain_key("loc_delim"@),
        plain_key("loc"@),
        plain_key("type"@),
        plain_key("mime"@),
        plain_key("owner_unique_id"@),
        plain_key("send_data"@),
        plain_key("local_id_only"@),
        plain_key("get_tags"@),
        plain_key("get_links"@),
        plain_key("get_link_tags"@),
        plain_key("get_target_tags"@),
        plain_key("first_link"@),
        plain_key("link_count"@),
        plain_key("tag_format"@),
        plain_key("request_format"@),
        plain_key("event_facet_filter"@),
        plain_key("link_facet_filter"@),
        plain_key("target_facet_filter"@),
        plain_key("category_filter"@),
        plain_key("tag_filter"@),
        plain_key("event_pattern"@),
        plain_key("event_pattern_high"@),
        plain_key("buffer_results"@),
        plain_key("include_brief_hits"@),
        plain_key("get_all_data"@),
        plain_key("count_only"@),
        plain_key("get_match_links"@),
        plain_key("count_match_links"@),
        plain_key("get_event_object_count"@),
        plain_key("include_tag_stats"@),
        plain_key("invert_hit_tag_filter"@),
        plain_key("events_per_message"@),
        plain_key("start_result"@),
        plain_key("end_result"@),
        plain_key("min_event_hits"@),
        plain_key("link_tag_filter"@),
        plain_key("linked_events_filter"@),
        plain_key("link_category"@),
        plain_key("hit_tag_filter"@),
        plain_key("buffer_format"@),
        plain_key("event_id_a"@),
        plain_key("unique_id_a"@),
        plain_key("event_id_b"@),
        plain_key("unique_id_b"@),
        plain_key("strength_a"@),
        plain_key("strength_b"@),
        plain_key("category"@),
        plain_key("owner_event_id"@),
{
    reveal_strlit("id:passcode");
    reveal_strlit("id:user");
    reveal_strlit("id:name");
    reveal_strlit("unique_id");
    reveal_strlit("event_id");
    reveal_strlit("owner");
    reveal_strlit("timestamp");
    reveal_strlit("loc_delim");
    reveal_strlit("loc");
    reveal_strlit("type");
    reveal_strlit("mime");
    reveal_strlit("owner_unique_id");
    reveal_strlit("send_data");
    reveal_strlit("local_id_only");
    reveal_strlit("get_tags");
    reveal_strlit("get_links");
    reveal_strlit("get_link_tags");
    reveal_strlit("get_target_tags");
    reveal_strlit("first_link");
    reveal_strlit("link_count");
    reveal_strlit("tag_format");
    reveal_strlit("request_format");
    reveal_strlit("event_facet_filter");
    reveal_strlit("link_facet_filter");
    reveal_strlit("target_facet_filter");
    reveal_strlit("category_filter");
    reveal_strlit("tag_filter");
    reveal_strlit("event_pattern");
    reveal_strlit("event_pattern_high");
    reveal_strlit("buffer_results");
    reveal_strlit("include_brief_hits");
    reveal_strlit("get_all_data");
    reveal_strlit("count_only");
    reveal_strlit("get_match_links");
    reveal_strlit("count_match_links");
    reveal_strlit("get_event_object_count");
    reveal_strlit("include_tag_stats");
    reveal_strlit("invert_hit_tag_filter");
    reveal_strlit("events_per_message");
    reveal_strlit("start_result");
    reveal_strlit("end_result");
    reveal_strlit("min_event_hits");
    reveal_strlit("link_tag_filter");
    reveal_strlit("linked_events_filter");
    reveal_strlit("link_category");
    reveal_strlit("hit_tag_filter");
    reveal_strlit("buffer_format");
    reveal_strlit("event_id_a");
    reveal_strlit("unique_id_a");
    reveal_strlit("event_id_b");
    reveal_strlit("unique_id_b");
    reveal_strlit("strength_a");
    reveal_strlit("strength_b");
    reveal_strlit("category");
    reveal_strlit("owner_event_id");
}


/// Plain fields hold no key that begins with `_`.
proof fn lemma_plain_no_command(fs: Seq<Field>, key: Seq<char>)
    requires
        all_plain(fs),
        key.len() > 0,
        key[0] == '_',
    ensures
        last_value(fs, seq![key]) is None,
    decreases fs.len(),
{
    if fs.len() > 0 {
        let k = fs.last().0;
        assert(plain_key(fs[fs.len() - 1].0));
        lemma_plain_not_underscored(k, key);
        assert(!seq![key].contains(k)) by {
            if seq![key].contains(k) {
                let j = choose|j: int| 0 <= j < seq![key].len() && seq![key][j] == k;
                assert(seq![key][j] == key);
            }
        }
        assert forall|i: int| 0 <= i < fs.drop_last().len() implies plain_key(
            #[trigger] fs.drop_last()[i].0,
        ) by {
            assert(fs.drop_last()[i] == fs[i]);
        }
        lemma_plain_no_command(fs.drop_last(), key);
    }
}

/// In fields led by the command `c`, a key that begins with `_` reads `c`
/// when it is `_db_cmd`, and nothing otherwise.
proof fn lemma_led_command_keys(fs: Seq<Field>, c: Seq<char>, key: Seq<char>)
    requires
        led_by_command(fs, c),
        key.len() > 0,
        key[0] == '_',
    ensures
        last_value(fs, seq![key]) == (if key == "_db_cmd"@ {
            Some(c)
        } else {
            None::<Seq<char>>
        }),
    decreases fs.len(),
{
    let k = fs.last().0;
    if fs.len() == 1 {
        assert(fs.drop_last() =~= Seq::<Field>::empty());
        assert(last_value(fs.drop_last(), seq![key]) is None);
        assert(k == "_db_cmd"@);
        assert(fs.last().1 == c);
        if key == "_db_cmd"@ {
            assert(seq![key][0] == k);
            assert(seq![key].contains(k));
        } else {
            assert(!seq![key].contains(k)) by {
                if seq![key].contains(k) {
                    let j = choose|j: int| 0 <= j < seq![key].len() && seq![key][j] == k;
                    assert(seq![key][j] == key);
                }
            }
        }
    } else {
        assert(fs.skip(1)[fs.len() - 2] == fs[fs.len() - 1]);
        assert(plain_key(fs.skip(1)[fs.len() - 2].0));
        lemma_plain_not_underscored(k, key);
        assert(!seq![key].contains(k)) by {
            if seq![key].contains(k) {
                let j = choose|j: int| 0 <= j < seq![key].len() && seq![key][j] == k;
                assert(seq![key][j] == key);
            }
        }
        let d = fs.drop_last();
        assert forall|i: int| 0 <= i < d.skip(1).len() implies plain_key(#[trigger] d.skip(1)[i].0) by {
            assert(d.skip(1)[i] == fs.skip(1)[i]);
        }
        assert(d[0] == fs[0]);
        lemma_led_command_keys(d, c, key);
    }
}

/// What the decoder reads of `y`, then the message id field, then the
/// conversation id field, for one of the keys it reads a command or message
/// id from: the message id for `_msg_id`, else what `y` holds.
proof fn lemma_tail_key(y: Seq<Field>, msg: Message, conv: Seq<char>, key: Seq<char>)
    requires
        key == "_type"@ || key == "_command"@ || key == "_db_cmd"@ || key == "_msg_id"@,
    ensures
        last_value(y + msg_id_field(msg) + conversation_field(conv), seq![key]) == if key
            == "_msg_id"@ && msg.envelope.message_id@.len() > 0 {
            Some(msg.envelope.message_id@)
        } else {
            last_value(y, seq![key])
        },
{
    lemma_reply_keys_distinct();
    lemma_conversation_transparent(y + msg_id_field(msg), conv, key);
    lemma_last_value_concat(y, msg_id_field(msg), seq![key]);
    lemma_last_value_opt("_msg_id"@, msg.envelope.message_id@, key);
}

/// The command and message id the decoder reads from a header whose own
/// fields `y` are led by the command `c` (or plain, with no command), then
/// the message id and the conversation id.
proof fn lemma_tail_reads(y: Seq<Field>, c: Seq<char>, msg: Message, conv: Seq<char>)
    requires
        led_by_command(y, c) || (all_plain(y) && c.len() == 0),
    ensures
        header_command(y + msg_id_field(msg) + conversation_field(conv)) == c,
        value_of(y + msg_id_field(msg) + conversation_field(conv), seq!["_msg_id"@])
            == msg.envelope.message_id@,
{
    lemma_read_keys_underscored();
    lemma_reply_keys_distinct();
    lemma_tail_key(y, msg, conv, "_type"@);
    lemma_tail_key(y, msg, conv, "_command"@);
    lemma_tail_key(y, msg, conv, "_db_cmd"@);
    lemma_tail_key(y, msg, conv, "_msg_id"@);
    if led_by_command(y, c) {
        lemma_led_command_keys(y, c, "_type"@);
        lemma_led_command_keys(y, c, "_command"@);
        lemma_led_command_keys(y, c, "_db_cmd"@);
        lemma_led_command_keys(y, c, "_msg_id"@);
    } else {
        lemma_plain_no_command(y, "_type"@);
        lemma_plain_no_command(y, "_command"@);
        lemma_plain_no_command(y, "_db_cmd"@);
        lemma_plain_no_command(y, "_msg_id"@);
        assert(c =~= Seq::<char>::empty());
    }
    if msg.envelope.message_id@.len() == 0 {
        assert(msg.envelope.message_id@ =~= Seq::<char>::empty());
    }
}

/// A lone command field is command-led.
proof fn lemma_base_led(c: Seq<char>)
    ensures
        led_by_command(one("_db_cmd"@, c), c),
{
    assert(one("_db_cmd"@, c).skip(1) =~= Seq::<Field>::empty());
}

/// The fields of a stored event keep a command-led header command-led.
proof fn lemma_store_event_after_led(base: Seq<Field>, msg: Message, e: crate::message::types::EventFields, c: Seq<char>)
    requires
        led_by_command(base, c),
    ensures
        led_by_command(store_event_after(base, msg, e), c),
{
    lemma_request_keys_plain();
    broadcast use lemma_led_concat, lemma_plain_one, lemma_plain_opt;
    let b = base + opt_field("unique_id"@, e.unique_id@) + opt_field("event_id"@, e.id@)
        + opt_field("owner"@, e.owner@) + opt_field("timestamp"@, e.timestamp@) + one(
        "loc_delim"@,
        crate::message::header::loc_delim_text(e.location_separator@),
    ) + opt_field("loc"@, e.location@) + opt_field("type"@, e.event_type@);
    assert(led_by_command(b, c));
    let b2 = match msg.payload {
        Some(p) => b + opt_field("mime"@, p.mime_type@),
        None => b,
    };
    assert(led_by_command(b2, c));
    lemma_tag_fields_led(b2, e.tags@, c);
}

/// The options of a GetEvent request keep a command-led header command-led.
proof fn lemma_get_event_options_led(
    base: Seq<Field>,
    o: crate::message::types::GetEventOptions,
    c: Seq<char>,
)
    requires
        led_by_command(base, c),
    ensures
        led_by_command(get_event_options_after(base, o), c),
{
    lemma_request_keys_plain();
    broadcast use lemma_led_concat, lemma_plain_one, lemma_plain_opt, lemma_plain_flag, lemma_plain_nonzero;
    let b = base + flag_field("send_data"@, o.send_data) + flag_field(
        "local_id_only"@,
        o.local_id_only,
    ) + flag_field("get_tags"@, o.get_tags) + flag_field("get_links"@, o.get_links) + flag_field(
        "get_link_tags"@,
        o.get_link_tags,
    ) + flag_field("get_target_tags"@, o.get_target_tags) + nonzero_field(
        "first_link"@,
        o.first_link,
    ) + nonzero_field("link_count"@, o.link_count);
    assert(led_by_command(b, c));
    let b2 = match o.tag_format {
        Some(tf) => b + one("tag_format"@, crate::text::int_text(tf as int)),
        None => b,
    };
    assert(led_by_command(b2, c));
}

/// The options of a GetEventsForTags request keep a command-led header
/// command-led.
proof fn lemma_events_for_tags_options_led(
    base: Seq<Field>,
    o: crate::message::types::GetEventsForTagsOptions,
    c: Seq<char>,
)
    requires
        led_by_command(base, c),
    ensures
        led_by_command(events_for_tags_options_after(base, o), c),
{
    lemma_request_keys_plain();
    broadcast use lemma_led_concat, lemma_plain_one, lemma_plain_opt, lemma_plain_flag, lemma_plain_nonzero;
    assert(led_by_command(events_for_tags_flags_after(base, o), c));
    assert(led_by_command(events_for_tags_limits_after(events_for_tags_flags_after(base, o), o), c));
}

/// The fields of a link or an unlink request keep a command-led header
/// command-led.
proof fn lemma_link_after_led(base: Seq<Field>, l: crate::message::types::LinkFields, c: Seq<char>)
    requires
        led_by_command(base, c),
    ensures
        led_by_command(link_after(base, l), c),
        led_by_command(unlink_after(base, l), c),
{
    lemma_request_keys_plain();
    broadcast use lemma_led_concat, lemma_plain_one, lemma_plain_opt, lemma_plain_either, lemma_plain_strength;
    assert(led_by_command(link_after(base, l), c));
    assert(led_by_command(unlink_after(base, l), c));
}

/// The command the decoder reads from the header of a request with a layout
/// of its own is the intent's command, and the message id it reads is the
/// message's.
proof fn lemma_request_layout_reads(msg: Message, i: crate::message::intents::Intent, conv: Seq<char>)
    requires
        has_own_layout(i),
    ensures
        header_command(header_fields(msg, i, conv)) == i.neural_memory_command@,
        value_of(header_fields(msg, i, conv), seq!["_msg_id"@]) == msg.envelope.message_id@,
{
    lemma_request_keys_plain();
    reveal_strlit("");
    assert(""@ =~= Seq::<char>::empty());
    broadcast use lemma_plain_concat, lemma_led_concat, lemma_plain_opt;
    let mid = msg_id_field(msg);
    let y = if i.same(spec_gateway_id()) {
        Seq::<Field>::empty() + opt_field("id:passcode"@, msg.envelope.passcode@) + opt_field(
            "id:user"@,
            msg.envelope.user_name@,
        ) + opt_field("id:name"@, msg.envelope.client_name@)
    } else if i.same(spec_gateway_stream_on()) || i.same(spec_actor_echo()) {
        Seq::<Field>::empty()
    } else if i.same(spec_store_event()) {
        let base = one("_db_cmd"@, "store"@);
        match msg.event {
            Some(e) => store_event_after(base, msg, e),
            None => base,
        }
    } else if i.same(spec_store_batch_events()) {
        one("_db_cmd"@, "store_batch"@)
    } else if i.same(spec_store_batch_tags()) {
        let base = one("_db_cmd"@, "tag_store_batch"@);
        match msg.event {
            Some(e) => base + opt_field("event_id"@, e.id@) + opt_field("unique_id"@, e.unique_id@)
                + opt_field("owner"@, e.owner@) + opt_field("owner_unique_id"@, e.owner_unique_id@),
            None => base,
        }
    } else if i.same(spec_get_event()) {
        let base = one("_db_cmd"@, "get"@);
        let b = match msg.event {
            Some(e) => base + opt_field("event_id"@, e.id@) + opt_field("unique_id"@, e.unique_id@),
            None => base,
        };
        match msg.spec_get_event_opts() {
            Some(o) => get_event_options_after(b, o),
            None => b,
        }
    } else if i.same(spec_get_events_for_tags()) {
        let base = one("_db_cmd"@, "events_for_tag"@);
        match msg.spec_get_events_for_tags_opts() {
            Some(o) => events_for_tags_options_after(base, o),
            None => base,
        }
    } else if i.same(spec_link_event()) {
        let base = one("_db_cmd"@, "link"@);
        match msg.spec_link() {
            Some(l) => link_after(base, l),
            None => base,
        }
    } else if i.same(spec_unlink_event()) {
        let base = one("_db_cmd"@, "unlink"@);
        match msg.spec_link() {
            Some(l) => unlink_after(base, l),
            None => base,
        }
    } else {
        one("_db_cmd"@, "link_batch"@)
    };
    assert(spec_header_fields(msg, i) == y + mid);
    assert(header_fields(msg, i, conv) == y + mid + conversation_field(conv));
    if i.same(spec_gateway_id()) {
        assert(all_plain(y));
    } else if i.same(spec_gateway_stream_on()) || i.same(spec_actor_echo()) {
        assert(all_plain(y));
    } else if i.same(spec_store_event()) {
        lemma_base_led("store"@);
        match msg.event {
            Some(e) => lemma_store_event_after_led(one("_db_cmd"@, "store"@), msg, e, "store"@),
            None => {},
        }
    } else if i.same(spec_store_batch_events()) {
        lemma_base_led("store_batch"@);
    } else if i.same(spec_store_batch_tags()) {
        lemma_base_led("tag_store_batch"@);
        assert(led_by_command(y, "tag_store_batch"@));
    } else if i.same(spec_get_event()) {
        let base = one("_db_cmd"@, "get"@);
        lemma_base_led("get"@);
        let b = match msg.event {
            Some(e) => base + opt_field("event_id"@, e.id@) + opt_field("unique_id"@, e.unique_id@),
            None => base,
        };
        assert(led_by_command(b, "get"@));
        match msg.spec_get_event_opts() {
            Some(o) => lemma_get_event_options_led(b, o, "get"@),
            None => {},
        }
    } else if i.same(spec_get_events_for_tags()) {
        lemma_base_led("events_for_tag"@);
        match msg.spec_get_events_for_tags_opts() {
            Some(o) => lemma_events_for_tags_options_led(
                one("_db_cmd"@, "events_for_tag"@),
                o,
                "events_for_tag"@,
            ),
            None => {},
        }
    } else if i.same(spec_link_event()) {
        lemma_base_led("link"@);
        match msg.spec_link() {
            Some(l) => lemma_link_after_led(one("_db_cmd"@, "link"@), l, "link"@),
            None => {},
        }
    } else if i.same(spec_unlink_event()) {
        lemma_base_led("unlink"@);
        match msg.spec_link() {
            Some(l) => lemma_link_after_led(one("_db_cmd"@, "unlink"@), l, "unlink"@),
            None => {},
        }
    } else {
        lemma_base_led("link_batch"@);
    }
    lemma_tail_reads(y, i.neural_memory_command@, msg, conv);
}

/// A frame the encoder wrote for a request with a header layout of its own
/// decodes with the command it was written with — the intent's Neural
/// Memory command, none for the gateway requests — and so resolves to the
/// intent written, and with the message id written; provided no header
/// value (nor the conversation id) holds a tab and the frame fits the
/// limits.
pub proof fn lemma_request_command_reads_back(msg: Message, conv: Seq<char>, max: int)
    requires
        message_frame_len(msg, conv) < 0x1_0000_0000,
        0 <= msg.envelope.intent.message_type < 1_000_000_000,
        message_frame(msg, conv).len() <= max,
        has_own_layout(msg.envelope.intent),
        clean_fields(header_fields(msg, msg.envelope.intent, conv)),
    ensures
        decode_failure(message_frame(msg, conv), max) is None,
        header_command(header_pairs(message_frame(msg, conv)))
            == msg.envelope.intent.neural_memory_command@,
        decoded_intent(message_frame(msg, conv)) == (match spec_intent_from_type_and_command(
            msg.envelope.intent.message_type,
            msg.envelope.intent.neural_memory_command@,
        ) {
            Some(x) => x,
            None => zero_intent(),
        }),
        decoded_intent(message_frame(msg, conv)).same(msg.envelope.intent),
        value_of(header_pairs(message_frame(msg, conv)), seq!["_msg_id"@])
            == msg.envelope.message_id@,
{
    lemma_decode_reads_encoded(msg, conv, max);
    lemma_header_reads_back(msg, conv, max);
    lemma_request_layout_reads(msg, msg.envelope.intent, conv);
    lemma_request_intents_found();
}


/// Whether the header of `msg` (with the conversation id `conv`) is written
/// so that its command and message id read back: a request with a layout of
/// its own whose fields hold no tab, or a reply whose intent the decoder
/// knows (a Neural Memory reply, or one known by its type alone) whose
/// message id, command, response texts and conversation id hold no tab.
pub open spec fn header_reads_cleanly(msg: Message, conv: Seq<char>) -> bool {
    let i = msg.envelope.intent;
    if has_own_layout(i) {
        clean_fields(header_fields(msg, i, conv))
    } else {
        &&& is_memory_response(i) || is_plain_reply(i)
        &&& !msg.envelope.message_id@.contains('\t')
        &&& !i.neural_memory_command@.contains('\t')
        &&& msg.response matches Some(r) ==> !r.status@.contains('\t') && !r.message@.contains('\t')
        &&& !conv.contains('\t')
    }
}

/// Decoding what the encoder wrote gives back the message's to and from
/// addresses, its intent and its message id: any message `d` the decoder
/// gives for the frame carries them — provided the from address holds no
/// `|`, the header reads back cleanly and the frame fits the limits.
pub proof fn lemma_message_reads_back(msg: Message, conv: Seq<char>, max: int, d: Message)
    requires
        message_frame_len(msg, conv) < 0x1_0000_0000,
        0 <= msg.envelope.intent.message_type < 1_000_000_000,
        message_frame(msg, conv).len() <= max,
        !msg.envelope.from@.contains('|'),
        header_reads_cleanly(msg, conv),
        decoded_ok(d, message_frame(msg, conv)),
    ensures
        decode_failure(message_frame(msg, conv), max) is None,
        d.envelope.to@ == msg.envelope.to@,
        d.envelope.from@ == msg.envelope.from@,
        d.envelope.intent.same(msg.envelope.intent),
        d.envelope.message_id@ == msg.envelope.message_id@,
{
    lemma_decode_reads_encoded(msg, conv, max);
    if has_own_layout(msg.envelope.intent) {
        lemma_request_command_reads_back(msg, conv, max);
    } else {
        lemma_reply_reads_back(msg, conv, max);
    }
}

} // verus!
