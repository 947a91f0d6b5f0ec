//! What a reader finds under each key of the fields the library writes and
//! reads, and in each place of the lines it parses: the options of each
//! request layout, the fields of batch event and link records and what the
//! decoders read back from them, the fields and counts of a decoded
//! response, and the parts of tag and brief hit lines.

use vstd::prelude::*;

use crate::message::decoder::{decoded_ok, header_pairs};
use crate::message::encoder::event_record_fields;
use crate::message::header::{
    either_field, flag_field, header_fields, nonzero_field, one, opt_field, spec_header_fields,
    strength_field, strength_is_zero, tag_fields, tag_key, tag_output_text, Field,
};
use crate::message::intents::spec_get_event;
use crate::message::records::names_response;
use crate::message::types::{EventFields, Message, TagOutput};
use crate::message::wire::last_value;
use crate::text::{dec_digits, first_index_of, int_text, parse_i32_or_zero};

verus! {

/// Fields none of which has the key `key`.
pub open spec fn absent(fs: Seq<Field>, key: Seq<char>) -> bool {
    forall|j: int| 0 <= j < fs.len() ==> (#[trigger] fs[j]).0 != key
}

broadcast proof fn lemma_absent_concat(a: Seq<Field>, b: Seq<Field>, key: Seq<char>)
    requires
        absent(a, key),
        absent(b, key),
    ensures
        #[trigger] absent(a + b, key),
{
    assert forall|j: int| 0 <= j < (a + b).len() implies (#[trigger] (a + b)[j]).0 != key by {
        if j < a.len() {
            assert((a + b)[j] == a[j]);
        } else {
            assert((a + b)[j] == b[j - a.len()]);
        }
    }
}

broadcast proof fn lemma_absent_opt(k: Seq<char>, v: Seq<char>, key: Seq<char>)
    requires
        k != key,
    ensures
        #[trigger] absent(opt_field(k, v), key),
{
    if v.len() > 0 {
        assert(opt_field(k, v)[0].0 == k);
    }
}

broadcast proof fn lemma_absent_one(k: Seq<char>, v: Seq<char>, key: Seq<char>)
    requires
        k != key,
    ensures
        #[trigger] absent(one(k, v), key),
{
    assert(one(k, v)[0].0 == k);
}

broadcast proof fn lemma_absent_flag(k: Seq<char>, b: bool, key: Seq<char>)
    requires
        k != key,
    ensures
        #[trigger] absent(flag_field(k, b), key),
{
    if b {
        assert(flag_field(k, b)[0].0 == k);
    }
}

broadcast proof fn lemma_absent_nonzero(k: Seq<char>, n: i32, key: Seq<char>)
    requires
        k != key,
    ensures
        #[trigger] absent(nonzero_field(k, n), key),
{
    if n != 0 {
        assert(nonzero_field(k, n)[0].0 == k);
    }
}

broadcast proof fn lemma_absent_empty(key: Seq<char>)
    ensures
        #[trigger] absent(Seq::<Field>::empty(), key),
{
}

/// Nothing is found under a key the fields do not have.
broadcast proof fn lemma_lookup_absent(fs: Seq<Field>, key: Seq<char>)
    requires
        absent(fs, key),
    ensures
        #[trigger] last_value(fs, seq![key]) is None,
    decreases fs.len(),
{
    if fs.len() > 0 {
        assert(fs[fs.len() - 1].0 != key);
        assert(!seq![key].contains(fs.last().0)) by {
            if seq![key].contains(fs.last().0) {
                let j = choose|j: int| 0 <= j < seq![key].len() && seq![key][j] == fs.last().0;
                assert(seq![key][j] == key);
            }
        }
        assert forall|j: int| 0 <= j < fs.drop_last().len() implies (
        #[trigger] fs.drop_last()[j]).0 != key by {
            assert(fs.drop_last()[j] == fs[j]);
        }
        lemma_lookup_absent(fs.drop_last(), key);
    }
}

/// Fields without the key after `a` leave what is found in `a`.
broadcast proof fn lemma_lookup_skip(a: Seq<Field>, b: Seq<Field>, key: Seq<char>)
    requires
        absent(b, key),
    ensures
        #[trigger] last_value(a + b, seq![key]) == last_value(a, seq![key]),
{
    lemma_lookup_concat(a, b, key);
    lemma_lookup_absent(b, key);
}

/// The value found for `key` in `a + b`: the last in `b`, else in `a`.
proof fn lemma_lookup_concat(a: Seq<Field>, b: Seq<Field>, key: Seq<char>)
    ensures
        last_value(a + b, seq![key]) == match last_value(b, seq![key]) {
            Some(v) => Some(v),
            None => last_value(a, seq![key]),
        },
    decreases b.len(),
{
    if b.len() == 0 {
        assert(a + b =~= a);
    } else {
        assert((a + b).drop_last() =~= a + b.drop_last());
        assert((a + b).last() == b.last());
        lemma_lookup_concat(a, b.drop_last(), key);
    }
}

/// The value found for `key` in a single field.
proof fn lemma_lookup_one(k: Seq<char>, v: Seq<char>, key: Seq<char>)
    ensures
        last_value(seq![(k, v)], seq![key]) == if k == key {
            Some(v)
        } else {
            None::<Seq<char>>
        },
{
    let fs = seq![(k, v)];
    assert(fs.drop_last() =~= Seq::<Field>::empty());
    assert(last_value(fs.drop_last(), seq![key]) is None);
    assert(fs.last() == (k, v));
    if k == key {
        assert(seq![key][0] == k);
        assert(seq![key].contains(k));
    } else {
        assert(!seq![key].contains(k)) by {
            if seq![key].contains(k) {
                let j = choose|j: int| 0 <= j < seq![key].len() && seq![key][j] == k;
                assert(seq![key][j] == key);
            }
        }
    }
}

/// The value under `key` after a field that may hold it.
broadcast proof fn lemma_lookup_opt_at(a: Seq<Field>, v: Seq<char>, key: Seq<char>)
    ensures
        #[trigger] last_value(a + opt_field(key, v), seq![key]) == if v.len() > 0 {
            Some(v)
        } else {
            last_value(a, seq![key])
        },
{
    lemma_lookup_concat(a, opt_field(key, v), key);
    if v.len() > 0 {
        lemma_lookup_one(key, v, key);
    }
}

broadcast proof fn lemma_lookup_one_at(a: Seq<Field>, v: Seq<char>, key: Seq<char>)
    ensures
        #[trigger] last_value(a + one(key, v), seq![key]) == Some(v),
{
    lemma_lookup_concat(a, one(key, v), key);
    lemma_lookup_one(key, v, key);
}

broadcast proof fn lemma_lookup_flag_at(a: Seq<Field>, b: bool, key: Seq<char>)
    ensures
        #[trigger] last_value(a + flag_field(key, b), seq![key]) == if b {
            Some("Y"@)
        } else {
            last_value(a, seq![key])
        },
{
    lemma_lookup_concat(a, flag_field(key, b), key);
    if b {
        lemma_lookup_one(key, "Y"@, key);
    }
}

broadcast proof fn lemma_lookup_nonzero_at(a: Seq<Field>, n: i32, key: Seq<char>)
    ensures
        #[trigger] last_value(a + nonzero_field(key, n), seq![key]) == if n != 0 {
            Some(int_text(n as int))
        } else {
            last_value(a, seq![key])
        },
{
    lemma_lookup_concat(a, nonzero_field(key, n), key);
    if n != 0 {
        lemma_lookup_one(key, int_text(n as int), key);
    }
}

broadcast proof fn lemma_absent_either(
    ka: Seq<char>,
    a: Seq<char>,
    kb: Seq<char>,
    b: Seq<char>,
    key: Seq<char>,
)
    requires
        ka != key,
        kb != key,
    ensures
        #[trigger] absent(either_field(ka, a, kb, b), key),
{
    if a.len() != 0 {
        assert(either_field(ka, a, kb, b)[0].0 == ka);
    } else if b.len() != 0 {
        assert(either_field(ka, a, kb, b)[0].0 == kb);
    }
}

broadcast proof fn lemma_absent_strength(k: Seq<char>, v: Seq<char>, key: Seq<char>)
    requires
        k != key,
    ensures
        #[trigger] absent(strength_field(k, v), key),
{
    if !strength_is_zero(v) {
        assert(strength_field(k, v)[0].0 == k);
    }
}

/// The value under the first key of an either-field.
broadcast proof fn lemma_lookup_either_first(
    p: Seq<Field>,
    ka: Seq<char>,
    a: Seq<char>,
    kb: Seq<char>,
    b: Seq<char>,
)
    requires
        ka != kb,
    ensures
        #[trigger] last_value(p + either_field(ka, a, kb, b), seq![ka]) == if a.len() != 0 {
            Some(a)
        } else {
            last_value(p, seq![ka])
        },
{
    lemma_lookup_concat(p, either_field(ka, a, kb, b), ka);
    if a.len() != 0 {
        lemma_lookup_one(ka, a, ka);
    } else if b.len() != 0 {
        lemma_lookup_one(kb, b, ka);
    }
}

/// The value under the second key of an either-field.
broadcast proof fn lemma_lookup_either_second(
    p: Seq<Field>,
    ka: Seq<char>,
    a: Seq<char>,
    kb: Seq<char>,
    b: Seq<char>,
)
    requires
        ka != kb,
    ensures
        #[trigger] last_value(p + either_field(ka, a, kb, b), seq![kb]) == if a.len() == 0
            && b.len() != 0 {
            Some(b)
        } else {
            last_value(p, seq![kb])
        },
{
    lemma_lookup_concat(p, either_field(ka, a, kb, b), kb);
    if a.len() != 0 {
        lemma_lookup_one(ka, a, kb);
    } else if b.len() != 0 {
        lemma_lookup_one(kb, b, kb);
    }
}

broadcast proof fn lemma_lookup_strength_at(p: Seq<Field>, v: Seq<char>, key: Seq<char>)
    ensures
        #[trigger] last_value(p + strength_field(key, v), seq![key]) == if strength_is_zero(v) {
            last_value(p, seq![key])
        } else {
            Some(v)
        },
{
    lemma_lookup_concat(p, strength_field(key, v), key);
    if !strength_is_zero(v) {
        lemma_lookup_one(key, v, key);
    }
}

/// Tag fields hold none of the keys that do not begin with `ta`.
proof fn lemma_lookup_past_tags(base: Seq<Field>, tags: Seq<TagOutput>, key: Seq<char>)
    requires
        key.len() > 1,
        key[0] != 't' || key[1] != 'a',
    ensures
        last_value(tag_fields(base, tags), seq![key]) == last_value(base, seq![key]),
    decreases tags.len(),
{
    if tags.len() > 0 {
        lemma_lookup_past_tags(base, tags.drop_last(), key);
        reveal_strlit("tag_");
        let tk = tag_key(tags.len());
        assert(tk[0] == "tag_"@[0] && tk[1] == "tag_"@[1]);
        assert(tk != key);
        lemma_lookup_concat(
            tag_fields(base, tags.drop_last()),
            one(tk, tag_output_text(tags.last())),
            key,
        );
        lemma_lookup_one(tk, tag_output_text(tags.last()), key);
    }
}

pub broadcast group group_lookups {
    lemma_absent_concat,
    lemma_absent_opt,
    lemma_absent_one,
    lemma_absent_flag,
    lemma_absent_nonzero,
    lemma_absent_empty,
    lemma_lookup_absent,
    lemma_lookup_skip,
    lemma_lookup_opt_at,
    lemma_lookup_one_at,
    lemma_lookup_flag_at,
    lemma_lookup_nonzero_at,
    lemma_absent_either,
    lemma_absent_strength,
    lemma_lookup_either_first,
    lemma_lookup_either_second,
    lemma_lookup_strength_at,
}

/// A text value, present when non-empty.
pub open spec fn present(v: Seq<char>) -> Option<Seq<char>> {
    if v.len() == 0 {
        None
    } else {
        Some(v)
    }
}

/// The keys of the GetEvent request header and of a batch event record
/// differ from one another: by length, or by one of their first characters.
proof fn lemma_keys_differ()
    ensures
        "_db_cmd"@.len() == 7 && "_db_cmd"@[0] == '_' && "_db_cmd"@[1] == 'd',
        "_msg_id"@.len() == 7 && "_msg_id"@[0] == '_' && "_msg_id"@[1] == 'm',
        "_conversation_uuid"@.len() == 18 && "_conversation_uuid"@[0] == '_',
        "event_id"@.len() == 8 && "event_id"@[0] == 'e',
        "unique_id"@.len() == 9 && "unique_id"@[0] == 'u',
        "send_data"@.len() == 9 && "send_data"@[0] == 's',
        "local_id_only"@.len() == 13 && "local_id_only"@[0] == 'l',
        "get_tags"@.len() == 8 && "get_tags"@[0] == 'g',
        "get_links"@.len() == 9 && "get_links"@[0] == 'g',
        "get_link_tags"@.len() == 13 && "get_link_tags"@[0] == 'g',
        "get_target_tags"@.len() == 15 && "get_target_tags"@[0] == 'g',
        "first_link"@.len() == 10 && "first_link"@[0] == 'f',
        "link_count"@.len() == 10 && "link_count"@[0] == 'l',
        "tag_format"@.len() == 10 && "tag_format"@[0] == 't' && "tag_format"@[5] == 'o',
        "request_format"@.len() == 14 && "request_format"@[0] == 'r',
        "event_facet_filter"@.len() == 18 && "event_facet_filter"@[0] == 'e',
        "link_facet_filter"@.len() == 17 && "link_facet_filter"@[0] == 'l',
        "target_facet_filter"@.len() == 19 && "target_facet_filter"@[0] == 't',
        "category_filter"@.len() == 15 && "category_filter"@[0] == 'c',
        "tag_filter"@.len() == 10 && "tag_filter"@[0] == 't' && "tag_filter"@[5] == 'i',
        "local_id"@.len() == 8 && "local_id"@[0] == 'l',
        "owner"@.len() == 5 && "owner"@[0] == 'o',
        "timestamp"@.len() == 9 && "timestamp"@[0] == 't',
        "type"@.len() == 4 && "type"@[0] == 't',
        "loc"@.len() == 3 && "loc"@[0] == 'l',
        "loc_delim"@.len() == 9 && "loc_delim"@[0] == 'l',
        "mime"@.len() == 4 && "mime"@[0] == 'm',
{
    reveal_strlit("_db_cmd");
    reveal_strlit("_msg_id");
    reveal_strlit("_conversation_uuid");
    reveal_strlit("event_id");
    reveal_strlit("unique_id");
    reveal_strlit("send_data");
    reveal_strlit("local_id_only");
    reveal_strlit("get_tags");
    reveal_strlit("get_links");
    reveal_strlit("get_link_tags");
    reveal_strlit("get_target_tags");
    reveal_strlit("first_link");
    reveal_strlit("link_count");
    reveal_strlit("tag_format");
    reveal_strlit("request_format");
    reveal_strlit("event_facet_filter");
    reveal_strlit("link_facet_filter");
    reveal_strlit("target_facet_filter");
    reveal_strlit("category_filter");
    reveal_strlit("tag_filter");
    reveal_strlit("local_id");
    reveal_strlit("owner");
    reveal_strlit("timestamp");
    reveal_strlit("type");
    reveal_strlit("loc");
    reveal_strlit("loc_delim");
    reveal_strlit("mime");
}

/// More keys of the request layouts and records: lengths and the
/// characters that tell apart keys of one length.
proof fn lemma_more_keys_differ()
    ensures
        "timestamp"@.len() == 9 && "timestamp"@[0] == 't' && "timestamp"@[1] == 'i',
        "type"@.len() == 4 && "type"@[0] == 't' && "type"@[1] == 'y',
        "event_id_a"@.len() == 10 && "event_id_a"@[0] == 'e' && "event_id_a"@[9] == 'a',
        "event_id_b"@.len() == 10 && "event_id_b"@[0] == 'e' && "event_id_b"@[9] == 'b',
        "unique_id_a"@.len() == 11 && "unique_id_a"@[0] == 'u' && "unique_id_a"@[10] == 'a',
        "unique_id_b"@.len() == 11 && "unique_id_b"@[0] == 'u' && "unique_id_b"@[10] == 'b',
        "strength_a"@.len() == 10 && "strength_a"@[0] == 's' && "strength_a"@[9] == 'a',
        "strength_b"@.len() == 10 && "strength_b"@[0] == 's' && "strength_b"@[9] == 'b',
        "category"@.len() == 8 && "category"@[0] == 'c',
        "owner_event_id"@.len() == 14 && "owner_event_id"@[0] == 'o',
        "owner_unique_id"@.len() == 15 && "owner_unique_id"@[0] == 'o',
        "id:passcode"@.len() == 11 && "id:passcode"@[0] == 'i',
        "id:user"@.len() == 7 && "id:user"@[0] == 'i' && "id:user"@[3] == 'u',
        "id:name"@.len() == 7 && "id:name"@[0] == 'i' && "id:name"@[3] == 'n',
        "event_pattern"@.len() == 13 && "event_pattern"@[0] == 'e',
        "event_pattern_high"@.len() == 18 && "event_pattern_high"@[0] == 'e' && "event_pattern_high"@[5] == '_',
        "buffer_results"@.len() == 14 && "buffer_results"@[0] == 'b',
        "include_brief_hits"@.len() == 18 && "include_brief_hits"@[0] == 'i',
        "get_all_data"@.len() == 12 && "get_all_data"@[0] == 'g',
        "count_only"@.len() == 10 && "count_only"@[0] == 'c',
        "get_match_links"@.len() == 15 && "get_match_links"@[0] == 'g' && "get_match_links"@[4] == 'm',
        "count_match_links"@.len() == 17 && "count_match_links"@[0] == 'c',
        "get_event_object_count"@.len() == 22 && "get_event_object_count"@[0] == 'g',
        "include_tag_stats"@.len() == 17 && "include_tag_stats"@[0] == 'i',
        "invert_hit_tag_filter"@.len() == 21 && "invert_hit_tag_filter"@[0] == 'i',
        "events_per_message"@.len() == 18 && "events_per_message"@[0] == 'e' && "events_per_message"@[5] == 's',
        "start_result"@.len() == 12 && "start_result"@[0] == 's',
        "end_result"@.len() == 10 && "end_result"@[0] == 'e',
        "min_event_hits"@.len() == 14 && "min_event_hits"@[0] == 'm',
        "link_tag_filter"@.len() == 15 && "link_tag_filter"@[0] == 'l',
        "linked_events_filter"@.len() == 20 && "linked_events_filter"@[0] == 'l',
        "link_category"@.len() == 13 && "link_category"@[0] == 'l',
        "hit_tag_filter"@.len() == 14 && "hit_tag_filter"@[0] == 'h',
        "buffer_format"@.len() == 13 && "buffer_format"@[0] == 'b',
        "get_target_tags"@.len() == 15 && "get_target_tags"@[0] == 'g' && "get_target_tags"@[4] == 't',
{
    reveal_strlit("timestamp");
    reveal_strlit("type");
    reveal_strlit("event_id_a");
    reveal_strlit("event_id_b");
    reveal_strlit("unique_id_a");
    reveal_strlit("unique_id_b");
    reveal_strlit("strength_a");
    reveal_strlit("strength_b");
    reveal_strlit("category");
    reveal_strlit("owner_event_id");
    reveal_strlit("owner_unique_id");
    reveal_strlit("id:passcode");
    reveal_strlit("id:user");
    reveal_strlit("id:name");
    reveal_strlit("event_pattern");
    reveal_strlit("event_pattern_high");
    reveal_strlit("buffer_results");
    reveal_strlit("include_brief_hits");
    reveal_strlit("get_all_data");
    reveal_strlit("count_only");
    reveal_strlit("get_match_links");
    reveal_strlit("count_match_links");
    reveal_strlit("get_event_object_count");
    reveal_strlit("include_tag_stats");
    reveal_strlit("invert_hit_tag_filter");
    reveal_strlit("events_per_message");
    reveal_strlit("start_result");
    reveal_strlit("end_result");
    reveal_strlit("min_event_hits");
    reveal_strlit("link_tag_filter");
    reveal_strlit("linked_events_filter");
    reveal_strlit("link_category");
    reveal_strlit("hit_tag_filter");
    reveal_strlit("buffer_format");
    reveal_strlit("get_target_tags");
}

/// In the header of a GetEvent request with options `o`, each option key
/// holds the option of the same name: `first_link` and `link_count` their
/// decimal numbers (when non-zero), `request_format` its number,
/// `tag_format` its number when set, each flag `Y` when set, and each
/// filter its text when non-empty; a key whose option is unset is absent.
#[verifier::rlimit(100)]
#[verifier::spinoff_prover]
pub proof fn lemma_get_event_options_by_name(msg: Message, conv: Seq<char>)
    requires
        msg.envelope.intent.same(spec_get_event()),
        msg.spec_get_event_opts() is Some,
    ensures
        ({
            let o = msg.spec_get_event_opts().unwrap();
            let fs = header_fields(msg, msg.envelope.intent, conv);
            &&& last_value(fs, seq!["first_link"@]) == if o.first_link != 0 {
                Some(int_text(o.first_link as int))
            } else {
                None
            }
            &&& last_value(fs, seq!["link_count"@]) == if o.link_count != 0 {
                Some(int_text(o.link_count as int))
            } else {
                None
            }
            &&& last_value(fs, seq!["request_format"@]) == Some(int_text(o.request_format as int))
            &&& last_value(fs, seq!["tag_format"@]) == match o.tag_format {
                Some(tf) => Some(int_text(tf as int)),
                None => None,
            }
            &&& last_value(fs, seq!["send_data"@]) == if o.send_data {
                Some("Y"@)
            } else {
                None
            }
            &&& last_value(fs, seq!["local_id_only"@]) == if o.local_id_only {
                Some("Y"@)
            } else {
                None
            }
            &&& last_value(fs, seq!["get_tags"@]) == if o.get_tags {
                Some("Y"@)
            } else {
                None
            }
            &&& last_value(fs, seq!["get_links"@]) == if o.get_links {
                Some("Y"@)
            } else {
                None
            }
            &&& last_value(fs, seq!["get_link_tags"@]) == if o.get_link_tags {
                Some("Y"@)
            } else {
                None
            }
            &&& last_value(fs, seq!["get_target_tags"@]) == if o.get_target_tags {
                Some("Y"@)
            } else {
                None
            }
            &&& last_value(fs, seq!["event_facet_filter"@]) == present(o.event_facet_filter@)
            &&& last_value(fs, seq!["link_facet_filter"@]) == present(o.link_facet_filter@)
            &&& last_value(fs, seq!["target_facet_filter"@]) == present(o.target_facet_filter@)
            &&& last_value(fs, seq!["category_filter"@]) == present(o.category_filter@)
            &&& last_value(fs, seq!["tag_filter"@]) == present(o.tag_filter@)
        }),
{
    lemma_keys_differ();
    crate::message::intents::lemma_request_commands_distinct();
    broadcast use group_lookups;
    let i = msg.envelope.intent;
    assert(spec_header_fields(msg, i) == crate::message::header::spec_get_event_fields(msg));
}


/// In a batch event record, each key holds the event field it names:
/// `unique_id`, `event_id` (the id), `local_id`, `owner`, `timestamp`,
/// `type` (the event type), `loc` (the location), `loc_delim` (the location
/// separator) and `mime` (the payload's MIME type), each when non-empty; a
/// key whose field is empty is absent.
#[verifier::rlimit(50)]
#[verifier::spinoff_prover]
pub proof fn lemma_batch_record_by_name(e: EventFields)
    ensures
        ({
            let fs = event_record_fields(e);
            &&& last_value(fs, seq!["unique_id"@]) == present(e.unique_id@)
            &&& last_value(fs, seq!["event_id"@]) == present(e.id@)
            &&& last_value(fs, seq!["local_id"@]) == present(e.local_id@)
            &&& last_value(fs, seq!["owner"@]) == present(e.owner@)
            &&& last_value(fs, seq!["timestamp"@]) == present(e.timestamp@)
            &&& last_value(fs, seq!["type"@]) == present(e.event_type@)
            &&& last_value(fs, seq!["loc"@]) == present(e.location@)
            &&& last_value(fs, seq!["loc_delim"@]) == present(e.location_separator@)
            &&& last_value(fs, seq!["mime"@]) == present(e.payload_data.mime_type@)
        }),
{
    lemma_keys_differ();
    broadcast use group_lookups;
}


/// The decimal digits of a number that fits an `i32` read back as it.
proof fn lemma_dec_digits_i32(n: nat)
    requires
        n <= i32::MAX,
    ensures
        parse_i32_or_zero(dec_digits(n)) == n,
{
    crate::message::roundtrip::lemma_dec_digits_read(n);
    let d = dec_digits(n);
    assert(d[0] != '-' && d[0] != '+');
}

/// The result window of a decoded response is the one its header gives: a
/// frame whose header names a response and holds `_start_result=s` and
/// `_end_result=e` (decimal) decodes to a response whose `start_result` is
/// `s` and whose `end_result` is `e`, whatever the intent.
pub proof fn lemma_result_window_reads(raw: Seq<u8>, d: Message, s: nat, e: nat)
    requires
        decoded_ok(d, raw),
        names_response(header_pairs(raw)),
        s <= i32::MAX,
        e <= i32::MAX,
        last_value(header_pairs(raw), seq!["_start_result"@]) == Some(dec_digits(s)),
        last_value(header_pairs(raw), seq!["_end_result"@]) == Some(dec_digits(e)),
    ensures
        d.response matches Some(r) && r.start_result == s && r.end_result == e,
{
    lemma_dec_digits_i32(s);
    lemma_dec_digits_i32(e);
}


/// The number a header gives under `key`, when it gives the decimal digits
/// of `n`.
pub open spec fn gives_number(fs: Seq<Field>, key: Seq<char>, n: nat) -> bool {
    last_value(fs, seq![key]) == Some(dec_digits(n))
}

/// The text a header gives under `key`, empty when it gives none.
pub open spec fn text_under(fs: Seq<Field>, key: Seq<char>) -> Seq<char> {
    match last_value(fs, seq![key]) {
        Some(v) => v,
        None => Seq::empty(),
    }
}

/// Each field of a decoded response is what the header gives under the key
/// that names it: the status under `_status`, the message under `_msg`, the
/// link id under `link_event`, and the numbers `_start_result`,
/// `_end_result`, `_returned_event_hits`, `_tag_count`, `_links_ok` and
/// `_links_with_errors` as `start_result`, `end_result`, `returned_events`,
/// `tag_count`, `storage_success_count` and `storage_error_count`.
pub proof fn lemma_response_fields_read(raw: Seq<u8>, d: Message)
    requires
        decoded_ok(d, raw),
        names_response(header_pairs(raw)),
    ensures
        ({
            let fs = header_pairs(raw);
            &&& d.response is Some
            &&& d.response.unwrap().status@ == text_under(fs, "_status"@)
            &&& d.response.unwrap().message@ == text_under(fs, "_msg"@)
            &&& d.response.unwrap().link_id@ == text_under(fs, "link_event"@)
            &&& forall|n: nat|
                n <= i32::MAX && #[trigger] gives_number(fs, "_start_result"@, n)
                    ==> d.response.unwrap().start_result == n
            &&& forall|n: nat|
                n <= i32::MAX && #[trigger] gives_number(fs, "_end_result"@, n)
                    ==> d.response.unwrap().end_result == n
            &&& forall|n: nat|
                n <= i32::MAX && #[trigger] gives_number(fs, "_returned_event_hits"@, n)
                    ==> d.response.unwrap().returned_events == n
            &&& forall|n: nat|
                n <= i32::MAX && #[trigger] gives_number(fs, "_tag_count"@, n)
                    ==> d.response.unwrap().tag_count == n
            &&& forall|n: nat|
                n <= i32::MAX && #[trigger] gives_number(fs, "_links_ok"@, n)
                    ==> d.response.unwrap().storage_success_count == n
            &&& forall|n: nat|
                n <= i32::MAX && #[trigger] gives_number(fs, "_links_with_errors"@, n)
                    ==> d.response.unwrap().storage_error_count == n
        }),
{
    assert forall|n: nat| n <= i32::MAX implies parse_i32_or_zero(#[trigger] dec_digits(n)) == n by {
        lemma_dec_digits_i32(n);
    }
}


/// In the header of a StoreEvent request for the event `e`, each key holds
/// the event field it names: `unique_id`, `event_id` (the id), `owner`,
/// `timestamp`, `loc` (the location) and `type` (the event type) when
/// non-empty, `loc_delim` the location separator (`|` when unset), and
/// `mime` the payload's MIME type when there is a payload.
#[verifier::rlimit(100)]
#[verifier::spinoff_prover]
pub proof fn lemma_store_event_fields_by_name(msg: Message, conv: Seq<char>)
    requires
        msg.envelope.intent.same(crate::message::intents::spec_store_event()),
        msg.event is Some,
    ensures
        ({
            let e = msg.event.unwrap();
            let fs = header_fields(msg, msg.envelope.intent, conv);
            &&& last_value(fs, seq!["unique_id"@]) == present(e.unique_id@)
            &&& last_value(fs, seq!["event_id"@]) == present(e.id@)
            &&& last_value(fs, seq!["owner"@]) == present(e.owner@)
            &&& last_value(fs, seq!["timestamp"@]) == present(e.timestamp@)
            &&& last_value(fs, seq!["loc"@]) == present(e.location@)
            &&& last_value(fs, seq!["type"@]) == present(e.event_type@)
            &&& last_value(fs, seq!["loc_delim"@]) == Some(
                if e.location_separator@.len() == 0 {
                    "|"@
                } else {
                    e.location_separator@
                },
            )
            &&& last_value(fs, seq!["mime"@]) == match msg.payload {
                Some(p) => present(p.mime_type@),
                None => None,
            }
        }),
{
    lemma_keys_differ();
    lemma_more_keys_differ();
    broadcast use group_lookups;
    let i = msg.envelope.intent;
    let e = msg.event.unwrap();
    let base = one("_db_cmd"@, "store"@);
    let b = base + opt_field("unique_id"@, e.unique_id@) + opt_field("event_id"@, e.id@)
        + opt_field("owner"@, e.owner@) + opt_field("timestamp"@, e.timestamp@) + one(
        "loc_delim"@,
        crate::message::header::loc_delim_text(e.location_separator@),
    ) + opt_field("loc"@, e.location@) + opt_field("type"@, e.event_type@);
    let b2 = match msg.payload {
        Some(p) => b + opt_field("mime"@, p.mime_type@),
        None => b,
    };
    assert(spec_header_fields(msg, i) == tag_fields(b2, e.tags@) + crate::message::header::msg_id_field(msg));
    lemma_lookup_past_tags(b2, e.tags@, "unique_id"@);
    lemma_lookup_past_tags(b2, e.tags@, "event_id"@);
    lemma_lookup_past_tags(b2, e.tags@, "owner"@);
    lemma_lookup_past_tags(b2, e.tags@, "timestamp"@);
    lemma_lookup_past_tags(b2, e.tags@, "loc"@);
    lemma_lookup_past_tags(b2, e.tags@, "type"@);
    lemma_lookup_past_tags(b2, e.tags@, "loc_delim"@);
    lemma_lookup_past_tags(b2, e.tags@, "mime"@);
}

/// In the header of a StoreBatchTags request for the event `e`, each key
/// holds the event field it names, when non-empty: `event_id` (the id),
/// `unique_id`, `owner` and `owner_unique_id`.
#[verifier::rlimit(50)]
pub proof fn lemma_store_batch_tags_fields_by_name(msg: Message, conv: Seq<char>)
    requires
        msg.envelope.intent.same(crate::message::intents::spec_store_batch_tags()),
        msg.event is Some,
    ensures
        ({
            let e = msg.event.unwrap();
            let fs = header_fields(msg, msg.envelope.intent, conv);
            &&& last_value(fs, seq!["event_id"@]) == present(e.id@)
            &&& last_value(fs, seq!["unique_id"@]) == present(e.unique_id@)
            &&& last_value(fs, seq!["owner"@]) == present(e.owner@)
            &&& last_value(fs, seq!["owner_unique_id"@]) == present(e.owner_unique_id@)
        }),
{
    lemma_keys_differ();
    lemma_more_keys_differ();
    crate::message::intents::lemma_request_commands_distinct();
    broadcast use group_lookups;
    let i = msg.envelope.intent;
    assert(spec_header_fields(msg, i) == crate::message::header::spec_store_batch_tags_fields(msg));
}

/// In the header of a GatewayId request, `id:passcode`, `id:user` and
/// `id:name` hold the envelope's passcode, user name and client name, each
/// when non-empty.
pub proof fn lemma_gateway_id_fields_by_name(msg: Message, conv: Seq<char>)
    requires
        msg.envelope.intent.same(crate::message::intents::spec_gateway_id()),
    ensures
        ({
            let fs = header_fields(msg, msg.envelope.intent, conv);
            &&& last_value(fs, seq!["id:passcode"@]) == present(msg.envelope.passcode@)
            &&& last_value(fs, seq!["id:user"@]) == present(msg.envelope.user_name@)
            &&& last_value(fs, seq!["id:name"@]) == present(msg.envelope.client_name@)
        }),
{
    lemma_keys_differ();
    lemma_more_keys_differ();
    broadcast use group_lookups;
    let i = msg.envelope.intent;
    assert(spec_header_fields(msg, i) == crate::message::header::spec_gateway_id_fields(msg));
}


/// In the header of a LinkEvent request for the link `l`, each key holds
/// the link field it names: `event_id` (the link's id) and `owner` when
/// set; `event_id_a` the first event's id, or else `unique_id_a` its unique
/// id (and likewise for `_b`); `strength_a` and `strength_b` their
/// strengths when not zero; `category`, `loc` (the location), `type` (the
/// link type) and `timestamp` when set; `loc_delim` the separator (`|`
/// when unset); `owner_event_id` the owner's id, or else `owner_unique_id`
/// its unique id.
#[verifier::rlimit(100)]
#[verifier::spinoff_prover]
pub proof fn lemma_link_fields_by_name(msg: Message, conv: Seq<char>)
    requires
        msg.envelope.intent.same(crate::message::intents::spec_link_event()),
        msg.spec_link() is Some,
    ensures
        ({
            let l = msg.spec_link().unwrap();
            let fs = header_fields(msg, msg.envelope.intent, conv);
            &&& last_value(fs, seq!["event_id"@]) == present(l.id@)
            &&& last_value(fs, seq!["owner"@]) == present(l.owner@)
            &&& last_value(fs, seq!["event_id_a"@]) == present(l.event_a@)
            &&& last_value(fs, seq!["unique_id_a"@]) == if l.event_a@.len() == 0 {
                present(l.unique_id_a@)
            } else {
                None
            }
            &&& last_value(fs, seq!["event_id_b"@]) == present(l.event_b@)
            &&& last_value(fs, seq!["unique_id_b"@]) == if l.event_b@.len() == 0 {
                present(l.unique_id_b@)
            } else {
                None
            }
            &&& last_value(fs, seq!["strength_a"@]) == if strength_is_zero(l.strength_a@) {
                None
            } else {
                Some(l.strength_a@)
            }
            &&& last_value(fs, seq!["strength_b"@]) == if strength_is_zero(l.strength_b@) {
                None
            } else {
                Some(l.strength_b@)
            }
            &&& last_value(fs, seq!["category"@]) == present(l.category@)
            &&& last_value(fs, seq!["loc"@]) == present(l.location@)
            &&& last_value(fs, seq!["type"@]) == present(l.link_type@)
            &&& last_value(fs, seq!["timestamp"@]) == present(l.timestamp@)
            &&& last_value(fs, seq!["loc_delim"@]) == Some(
                if l.location_separator@.len() == 0 {
                    "|"@
                } else {
                    l.location_separator@
                },
            )
            &&& last_value(fs, seq!["owner_event_id"@]) == present(l.owner_id@)
            &&& last_value(fs, seq!["owner_unique_id"@]) == if l.owner_id@.len() == 0 {
                present(l.owner_unique_id@)
            } else {
                None
            }
        }),
{
    lemma_keys_differ();
    lemma_more_keys_differ();
    crate::message::intents::lemma_request_commands_distinct();
    broadcast use group_lookups;
    let i = msg.envelope.intent;
    assert(spec_header_fields(msg, i) == crate::message::header::spec_link_fields(msg));
}

/// In the header of an UnlinkEvent request for the link `l`: `owner` when
/// set; `event_id` the link's id, or else `unique_id` its unique id;
/// `loc_delim` the separator (`|` when unset); `loc` the location and
/// `timestamp` when set.
#[verifier::rlimit(100)]
#[verifier::spinoff_prover]
pub proof fn lemma_unlink_fields_by_name(msg: Message, conv: Seq<char>)
    requires
        msg.envelope.intent.same(crate::message::intents::spec_unlink_event()),
        msg.spec_link() is Some,
    ensures
        ({
            let l = msg.spec_link().unwrap();
            let fs = header_fields(msg, msg.envelope.intent, conv);
            &&& last_value(fs, seq!["owner"@]) == present(l.owner@)
            &&& last_value(fs, seq!["event_id"@]) == present(l.id@)
            &&& last_value(fs, seq!["unique_id"@]) == if l.id@.len() == 0 {
                present(l.unique_id@)
            } else {
                None
            }
            &&& last_value(fs, seq!["loc_delim"@]) == Some(
                if l.location_separator@.len() == 0 {
                    "|"@
                } else {
                    l.location_separator@
                },
            )
            &&& last_value(fs, seq!["loc"@]) == present(l.location@)
            &&& last_value(fs, seq!["timestamp"@]) == present(l.timestamp@)
        }),
{
    lemma_keys_differ();
    lemma_more_keys_differ();
    crate::message::intents::lemma_request_commands_distinct();
    broadcast use group_lookups;
    let i = msg.envelope.intent;
    assert(spec_header_fields(msg, i) == crate::message::header::spec_unlink_fields(msg));
}


/// In the header of a GetEventsForTags request with options `o`, each flag
/// key holds `Y` exactly when the option of the same name is set.
#[verifier::rlimit(100)]
#[verifier::spinoff_prover]
pub proof fn lemma_events_for_tags_flags_by_name(msg: Message, conv: Seq<char>)
    requires
        msg.envelope.intent.same(crate::message::intents::spec_get_events_for_tags()),
        msg.spec_get_events_for_tags_opts() is Some,
    ensures
        ({
            let o = msg.spec_get_events_for_tags_opts().unwrap();
            let fs = header_fields(msg, msg.envelope.intent, conv);
            &&& last_value(fs, seq!["include_brief_hits"@]) == if o.include_brief_hits {
                Some("Y"@)
            } else {
                None
            }
            &&& last_value(fs, seq!["get_all_data"@]) == if o.get_all_data {
                Some("Y"@)
            } else {
                None
            }
            &&& last_value(fs, seq!["count_only"@]) == if o.count_only {
                Some("Y"@)
            } else {
                None
            }
            &&& last_value(fs, seq!["get_match_links"@]) == if o.get_match_links {
                Some("Y"@)
            } else {
                None
            }
            &&& last_value(fs, seq!["count_match_links"@]) == if o.count_match_links {
                Some("Y"@)
            } else {
                None
            }
            &&& last_value(fs, seq!["get_link_tags"@]) == if o.get_link_tags {
                Some("Y"@)
            } else {
                None
            }
            &&& last_value(fs, seq!["get_target_tags"@]) == if o.get_target_tags {
                Some("Y"@)
            } else {
                None
            }
            &&& last_value(fs, seq!["get_event_object_count"@]) == if o.get_event_object_count {
                Some("Y"@)
            } else {
                None
            }
            &&& last_value(fs, seq!["include_tag_stats"@]) == if o.include_tag_stats {
                Some("Y"@)
            } else {
                None
            }
            &&& last_value(fs, seq!["invert_hit_tag_filter"@]) == if o.invert_hit_tag_filter {
                Some("Y"@)
            } else {
                None
            }
        }),
{
    lemma_keys_differ();
    lemma_more_keys_differ();
    crate::message::intents::lemma_request_commands_distinct();
    broadcast use group_lookups;
    let i = msg.envelope.intent;
    assert(spec_header_fields(msg, i) == crate::message::header::spec_get_events_for_tags_fields(
        msg,
    ));
}

/// In the header of a GetEventsForTags request with options `o`, each
/// paging and limit key (`first_link`, `link_count`, `events_per_message`,
/// `start_result`, `end_result`, `min_event_hits`) holds the decimal number
/// of the option of the same name when it is non-zero.
#[verifier::rlimit(100)]
#[verifier::spinoff_prover]
pub proof fn lemma_events_for_tags_limits_by_name(msg: Message, conv: Seq<char>)
    requires
        msg.envelope.intent.same(crate::message::intents::spec_get_events_for_tags()),
        msg.spec_get_events_for_tags_opts() is Some,
    ensures
        ({
            let o = msg.spec_get_events_for_tags_opts().unwrap();
            let fs = header_fields(msg, msg.envelope.intent, conv);
            &&& last_value(fs, seq!["first_link"@]) == if o.first_link != 0 {
                Some(int_text(o.first_link as int))
            } else {
                None
            }
            &&& last_value(fs, seq!["link_count"@]) == if o.link_count != 0 {
                Some(int_text(o.link_count as int))
            } else {
                None
            }
            &&& last_value(fs, seq!["events_per_message"@]) == if o.events_per_message != 0 {
                Some(int_text(o.events_per_message as int))
            } else {
                None
            }
            &&& last_value(fs, seq!["start_result"@]) == if o.start_result != 0 {
                Some(int_text(o.start_result as int))
            } else {
                None
            }
            &&& last_value(fs, seq!["end_result"@]) == if o.end_result != 0 {
                Some(int_text(o.end_result as int))
            } else {
                None
            }
            &&& last_value(fs, seq!["min_event_hits"@]) == if o.min_event_hits != 0 {
                Some(int_text(o.min_event_hits as int))
            } else {
                None
            }
        }),
{
    lemma_keys_differ();
    lemma_more_keys_differ();
    crate::message::intents::lemma_request_commands_distinct();
    broadcast use group_lookups;
    let i = msg.envelope.intent;
    assert(spec_header_fields(msg, i) == crate::message::header::spec_get_events_for_tags_fields(
        msg,
    ));
}

/// The patterns of GetEventsForTags options, in the fields they lead.
#[verifier::rlimit(50)]
proof fn lemma_patterns_in_flags(base: Seq<Field>, o: crate::message::types::GetEventsForTagsOptions)
    requires
        absent(base, "event_pattern"@),
        absent(base, "event_pattern_high"@),
    ensures
        ({
            let y = crate::message::header::events_for_tags_flags_after(base, o);
            &&& last_value(y, seq!["event_pattern"@]) == present(o.event_pattern@)
            &&& last_value(y, seq!["event_pattern_high"@]) == present(o.event_pattern_high@)
        }),
{
    lemma_keys_differ();
    lemma_more_keys_differ();
    broadcast use group_lookups;
}

/// The limit fields of GetEventsForTags options hold no pattern key.
#[verifier::rlimit(50)]
proof fn lemma_limits_keep(y: Seq<Field>, o: crate::message::types::GetEventsForTagsOptions, key: Seq<char>)
    requires
        key == "event_pattern"@ || key == "event_pattern_high"@,
    ensures
        last_value(crate::message::header::events_for_tags_limits_after(y, o), seq![key])
            == last_value(y, seq![key]),
{
    lemma_keys_differ();
    lemma_more_keys_differ();
    broadcast use group_lookups;
}

/// The link filters of GetEventsForTags options, in the fields they end.
#[verifier::rlimit(50)]
proof fn lemma_link_filters_in_limits(y: Seq<Field>, o: crate::message::types::GetEventsForTagsOptions)
    requires
        absent(y, "link_tag_filter"@),
        absent(y, "linked_events_filter"@),
        absent(y, "link_category"@),
    ensures
        ({
            let z = crate::message::header::events_for_tags_limits_after(y, o);
            &&& last_value(z, seq!["link_tag_filter"@]) == present(o.link_tag_filter@)
            &&& last_value(z, seq!["linked_events_filter"@]) == present(o.linked_events_filter@)
            &&& last_value(z, seq!["link_category"@]) == present(o.link_category@)
        }),
{
    lemma_keys_differ();
    lemma_more_keys_differ();
    broadcast use group_lookups;
}

/// The message id and conversation id fields hold none of the option keys.
proof fn lemma_tail_keep(z: Seq<Field>, msg: Message, conv: Seq<char>, key: Seq<char>)
    requires
        key.len() > 0,
        key[0] != '_',
    ensures
        last_value(
            z + crate::message::header::msg_id_field(msg) + crate::message::header::conversation_field(
                conv,
            ),
            seq![key],
        ) == last_value(z, seq![key]),
{
    lemma_keys_differ();
    broadcast use group_lookups;
}

/// In the header of a GetEventsForTags request with options `o`, each
/// pattern and link filter key (`event_pattern`, `event_pattern_high`,
/// `link_tag_filter`, `linked_events_filter`, `link_category`) holds the
/// option of the same name when non-empty.
#[verifier::rlimit(100)]
#[verifier::spinoff_prover]
pub proof fn lemma_events_for_tags_patterns_by_name(msg: Message, conv: Seq<char>)
    requires
        msg.envelope.intent.same(crate::message::intents::spec_get_events_for_tags()),
        msg.spec_get_events_for_tags_opts() is Some,
    ensures
        ({
            let o = msg.spec_get_events_for_tags_opts().unwrap();
            let fs = header_fields(msg, msg.envelope.intent, conv);
            &&& last_value(fs, seq!["event_pattern"@]) == present(o.event_pattern@)
            &&& last_value(fs, seq!["event_pattern_high"@]) == present(o.event_pattern_high@)
            &&& last_value(fs, seq!["link_tag_filter"@]) == present(o.link_tag_filter@)
            &&& last_value(fs, seq!["linked_events_filter"@]) == present(o.linked_events_filter@)
            &&& last_value(fs, seq!["link_category"@]) == present(o.link_category@)
        }),
{
    lemma_keys_differ();
    lemma_more_keys_differ();
    crate::message::intents::lemma_request_commands_distinct();
    let i = msg.envelope.intent;
    let o = msg.spec_get_events_for_tags_opts().unwrap();
    let base = one("_db_cmd"@, "events_for_tag"@);
    let y = crate::message::header::events_for_tags_flags_after(base, o);
    assert(spec_header_fields(msg, i) == crate::message::header::spec_get_events_for_tags_fields(
        msg,
    ));
    let z = crate::message::header::events_for_tags_limits_after(y, o);
    assert(header_fields(msg, i, conv) == z + crate::message::header::msg_id_field(msg)
        + crate::message::header::conversation_field(conv));
    assert(absent(base, "event_pattern"@) && absent(base, "event_pattern_high"@)) by {
        broadcast use group_lookups;
    }
    assert(absent(y, "link_tag_filter"@) && absent(y, "linked_events_filter"@) && absent(
        y,
        "link_category"@,
    )) by {
        broadcast use group_lookups;
    }
    lemma_patterns_in_flags(base, o);
    lemma_limits_keep(y, o, "event_pattern"@);
    lemma_limits_keep(y, o, "event_pattern_high"@);
    lemma_tail_keep(
        crate::message::header::events_for_tags_limits_after(y, o),
        msg,
        conv,
        "event_pattern"@,
    );
    lemma_tail_keep(
        crate::message::header::events_for_tags_limits_after(y, o),
        msg,
        conv,
        "event_pattern_high"@,
    );
    lemma_tail_keep(
        crate::message::header::events_for_tags_limits_after(y, o),
        msg,
        conv,
        "link_tag_filter"@,
    );
    lemma_tail_keep(
        crate::message::header::events_for_tags_limits_after(y, o),
        msg,
        conv,
        "linked_events_filter"@,
    );
    lemma_tail_keep(
        crate::message::header::events_for_tags_limits_after(y, o),
        msg,
        conv,
        "link_category"@,
    );
    lemma_link_filters_in_limits(y, o);
}

/// In the header of a GetEventsForTags request with options `o`, `owner`,
/// `owner_unique_id` and `hit_tag_filter` hold the options of the same name
/// when non-empty, `buffer_results` `Y` or `N`, and `buffer_format` the
/// format (`0` when unset).
#[verifier::rlimit(100)]
#[verifier::spinoff_prover]
pub proof fn lemma_events_for_tags_owner_by_name(msg: Message, conv: Seq<char>)
    requires
        msg.envelope.intent.same(crate::message::intents::spec_get_events_for_tags()),
        msg.spec_get_events_for_tags_opts() is Some,
    ensures
        ({
            let o = msg.spec_get_events_for_tags_opts().unwrap();
            let fs = header_fields(msg, msg.envelope.intent, conv);
            &&& last_value(fs, seq!["owner"@]) == present(o.owner@)
            &&& last_value(fs, seq!["owner_unique_id"@]) == present(o.owner_unique_id@)
            &&& last_value(fs, seq!["hit_tag_filter"@]) == present(o.hit_tag_filter@)
            &&& last_value(fs, seq!["buffer_results"@]) == Some(
                if o.buffer_results {
                    "Y"@
                } else {
                    "N"@
                },
            )
            &&& last_value(fs, seq!["buffer_format"@]) == Some(
                if o.buffer_format@.len() == 0 {
                    "0"@
                } else {
                    o.buffer_format@
                },
            )
        }),
{
    lemma_keys_differ();
    lemma_more_keys_differ();
    crate::message::intents::lemma_request_commands_distinct();
    broadcast use group_lookups;
    let i = msg.envelope.intent;
    assert(spec_header_fields(msg, i) == crate::message::header::spec_get_events_for_tags_fields(
        msg,
    ));
}

/// In a batch link record, each key holds the link field it names:
/// `event_id_a`, `unique_id_a`, `event_id_b`, `unique_id_b`, `category` and
/// `type` (the link type) when non-empty, `strength_a` and `strength_b`
/// when not zero.
pub proof fn lemma_batch_link_record_by_name(l: crate::message::types::LinkFields)
    ensures
        ({
            let fs = crate::message::encoder::link_record_fields(l);
            &&& last_value(fs, seq!["event_id_a"@]) == present(l.event_a@)
            &&& last_value(fs, seq!["unique_id_a"@]) == present(l.unique_id_a@)
            &&& last_value(fs, seq!["event_id_b"@]) == present(l.event_b@)
            &&& last_value(fs, seq!["unique_id_b"@]) == present(l.unique_id_b@)
            &&& last_value(fs, seq!["strength_a"@]) == if strength_is_zero(l.strength_a@) {
                None
            } else {
                Some(l.strength_a@)
            }
            &&& last_value(fs, seq!["strength_b"@]) == if strength_is_zero(l.strength_b@) {
                None
            } else {
                Some(l.strength_b@)
            }
            &&& last_value(fs, seq!["category"@]) == present(l.category@)
            &&& last_value(fs, seq!["type"@]) == present(l.link_type@)
        }),
{
    lemma_keys_differ();
    lemma_more_keys_differ();
    broadcast use group_lookups;
}

/// Among fields that hold no other key of `keys`, what is found under the
/// alias list `keys` is what is found under its key `k`.
proof fn lemma_lookup_alias(fs: Seq<Field>, keys: Seq<Seq<char>>, k: Seq<char>)
    requires
        keys.contains(k),
        forall|j: int| 0 <= j < keys.len() && keys[j] != k ==> absent(fs, #[trigger] keys[j]),
    ensures
        last_value(fs, keys) == last_value(fs, seq![k]),
    decreases fs.len(),
{
    if fs.len() > 0 {
        let x = fs.last().0;
        if keys.contains(x) {
            let j = choose|j: int| 0 <= j < keys.len() && keys[j] == x;
            if keys[j] != k {
                assert(fs[fs.len() - 1].0 != keys[j]);
            }
            assert(seq![k][0] == x);
            assert(seq![k].contains(x));
        } else {
            assert(!seq![k].contains(x)) by {
                if seq![k].contains(x) {
                    let i = choose|i: int| 0 <= i < seq![k].len() && seq![k][i] == x;
                    assert(seq![k][i] == k);
                    assert(keys.contains(k));
                }
            }
        }
        assert forall|j: int| 0 <= j < keys.len() && keys[j] != k implies absent(
            fs.drop_last(),
            #[trigger] keys[j],
        ) by {
            assert forall|i: int| 0 <= i < fs.drop_last().len() implies (
            #[trigger] fs.drop_last()[i]).0 != keys[j] by {
                assert(fs.drop_last()[i] == fs[i]);
            }
        }
        lemma_lookup_alias(fs.drop_last(), keys, k);
    }
}

/// The other names a decoded record answers to differ from the keys of a
/// batch event record: each begins with `_`, or differs in length or in
/// its second character.
proof fn lemma_alias_keys_differ()
    ensures
        "_event_id"@.len() == 9 && "_event_id"@[0] == '_',
        "_event_local_id"@.len() == 15 && "_event_local_id"@[0] == '_',
        "_unique_id"@.len() == 10 && "_unique_id"@[0] == '_',
        "tag:1:_unique_id"@.len() == 16 && "tag:1:_unique_id"@[0] == 't'
            && "tag:1:_unique_id"@[1] == 'a',
        "event_type"@.len() == 10 && "event_type"@[0] == 'e',
        "_type"@.len() == 5 && "_type"@[0] == '_',
        "_owner_id"@.len() == 9 && "_owner_id"@[0] == '_',
        "_event_owner"@.len() == 12 && "_event_owner"@[0] == '_',
        "_timestamp"@.len() == 10 && "_timestamp"@[0] == '_',
{
    reveal_strlit("_event_id");
    reveal_strlit("_event_local_id");
    reveal_strlit("_unique_id");
    reveal_strlit("tag:1:_unique_id");
    reveal_strlit("event_type");
    reveal_strlit("_type");
    reveal_strlit("_owner_id");
    reveal_strlit("_event_owner");
    reveal_strlit("_timestamp");
}

/// The text `present(v)` leaves when read as a value: `v` itself.
proof fn lemma_present_value(v: Seq<char>)
    ensures
        (match present(v) {
            Some(x) => x,
            None => Seq::<char>::empty(),
        }) == v,
{
    if v.len() == 0 {
        assert(v =~= Seq::<char>::empty());
    }
}

/// A batch event record holds none of the underscored names of an id, a
/// local id or a unique id.
#[verifier::rlimit(50)]
#[verifier::spinoff_prover]
proof fn lemma_record_lacks_id_aliases(e: EventFields)
    ensures
        absent(event_record_fields(e), "_event_id"@),
        absent(event_record_fields(e), "_event_local_id"@),
        absent(event_record_fields(e), "_unique_id"@),
        absent(event_record_fields(e), "tag:1:_unique_id"@),
{
    lemma_keys_differ();
    lemma_alias_keys_differ();
    broadcast use group_lookups;
}

/// A batch event record holds none of the other names of a type, an owner
/// or a timestamp.
#[verifier::rlimit(50)]
#[verifier::spinoff_prover]
proof fn lemma_record_lacks_other_aliases(e: EventFields)
    ensures
        absent(event_record_fields(e), "event_type"@),
        absent(event_record_fields(e), "_type"@),
        absent(event_record_fields(e), "_owner_id"@),
        absent(event_record_fields(e), "_event_owner"@),
        absent(event_record_fields(e), "_timestamp"@),
{
    lemma_keys_differ();
    lemma_alias_keys_differ();
    broadcast use group_lookups;
}

/// A batch event record the encoder writes reads back through the record
/// decoder with the event's own id, local id, unique id, type, owner and
/// timestamp: any event `d` decoded from the fields of `e`'s record carries
/// them.
#[verifier::rlimit(100)]
#[verifier::spinoff_prover]
pub proof fn lemma_batch_record_reads_back(e: EventFields, d: EventFields)
    requires
        crate::message::records::record_event_fields_ok(d, event_record_fields(e)),
    ensures
        d.id@ == e.id@,
        d.local_id@ == e.local_id@,
        d.unique_id@ == e.unique_id@,
        d.event_type@ == e.event_type@,
        d.owner@ == e.owner@,
        d.timestamp@ == e.timestamp@,
{
    let fs = event_record_fields(e);
    lemma_batch_record_by_name(e);
    lemma_record_lacks_id_aliases(e);
    lemma_record_lacks_other_aliases(e);
    let k_id = seq!["_event_id"@, "event_id"@];
    assert(k_id[1] == "event_id"@);
    lemma_lookup_alias(fs, k_id, "event_id"@);
    let k_local = seq!["local_id"@, "_event_local_id"@];
    assert(k_local[0] == "local_id"@);
    lemma_lookup_alias(fs, k_local, "local_id"@);
    let k_unique = seq!["unique_id"@, "_unique_id"@, "tag:1:_unique_id"@];
    assert(k_unique[0] == "unique_id"@);
    lemma_lookup_alias(fs, k_unique, "unique_id"@);
    let k_type = seq!["event_type"@, "_type"@, "type"@];
    assert(k_type[2] == "type"@);
    lemma_lookup_alias(fs, k_type, "type"@);
    let k_owner = seq!["_owner_id"@, "owner"@, "_event_owner"@];
    assert(k_owner[1] == "owner"@);
    lemma_lookup_alias(fs, k_owner, "owner"@);
    let k_time = seq!["timestamp"@, "_timestamp"@];
    assert(k_time[0] == "timestamp"@);
    lemma_lookup_alias(fs, k_time, "timestamp"@);
    lemma_present_value(e.id@);
    lemma_present_value(e.local_id@);
    lemma_present_value(e.unique_id@);
    lemma_present_value(e.event_type@);
    lemma_present_value(e.owner@);
    lemma_present_value(e.timestamp@);
}

/// A link line whose fields are those of the batch link record the encoder
/// writes for `l` reads back through the link decoder with `l`'s event ids,
/// unique ids, category and type.
#[verifier::rlimit(50)]
#[verifier::spinoff_prover]
pub proof fn lemma_link_record_reads_back(
    l: crate::message::types::LinkFields,
    rest: Seq<char>,
    d: crate::message::types::LinkFields,
)
    requires
        crate::message::wire::tab_pairs(rest) == crate::message::encoder::link_record_fields(l),
        crate::message::records::link_fields_ok(d, rest),
    ensures
        d.event_a@ == l.event_a@,
        d.event_b@ == l.event_b@,
        d.unique_id_a@ == l.unique_id_a@,
        d.unique_id_b@ == l.unique_id_b@,
        d.category@ == l.category@,
        d.link_type@ == l.link_type@,
{
    lemma_batch_link_record_by_name(l);
    lemma_present_value(l.event_a@);
    lemma_present_value(l.event_b@);
    lemma_present_value(l.unique_id_a@);
    lemma_present_value(l.unique_id_b@);
    lemma_present_value(l.category@);
    lemma_present_value(l.link_type@);
}

/// Each number of a decoded event record is the one its record gives under
/// the name of that number: `_hits` the hit count, and `_year`, `_month`,
/// `_day`, `_hour`, `_min`, `_sec` and `_usec` the parts of its date and
/// time.
pub proof fn lemma_record_numbers_read(d: EventFields, fs: Seq<Field>)
    requires
        crate::message::records::record_event_fields_ok(d, fs),
    ensures
        forall|n: nat| n <= i32::MAX && #[trigger] gives_number(fs, "_hits"@, n) ==> d.hits == n,
        forall|n: nat|
            n <= i32::MAX && #[trigger] gives_number(fs, "_year"@, n) ==> d.date_time.year == n,
        forall|n: nat|
            n <= i32::MAX && #[trigger] gives_number(fs, "_month"@, n) ==> d.date_time.month == n,
        forall|n: nat|
            n <= i32::MAX && #[trigger] gives_number(fs, "_day"@, n) ==> d.date_time.day == n,
        forall|n: nat|
            n <= i32::MAX && #[trigger] gives_number(fs, "_hour"@, n) ==> d.date_time.hour == n,
        forall|n: nat|
            n <= i32::MAX && #[trigger] gives_number(fs, "_min"@, n) ==> d.date_time.min == n,
        forall|n: nat|
            n <= i32::MAX && #[trigger] gives_number(fs, "_sec"@, n) ==> d.date_time.sec == n,
        forall|n: nat|
            n <= i32::MAX && #[trigger] gives_number(fs, "_usec"@, n) ==> d.date_time.usec == n,
{
    assert forall|n: nat| n <= i32::MAX implies parse_i32_or_zero(#[trigger] dec_digits(n)) == n by {
        lemma_dec_digits_i32(n);
    }
}

/// A `_event_id=` record of a tag-hit response whose fields are those of
/// the batch record the encoder writes for `e` reads back with `e`'s id,
/// unique id, owner, timestamp and type.
#[verifier::rlimit(50)]
#[verifier::spinoff_prover]
pub proof fn lemma_tag_hit_record_reads_back(e: EventFields, d: EventFields)
    requires
        crate::message::payloads::tag_hit_event_ok(d, event_record_fields(e)),
    ensures
        d.id@ == e.id@,
        d.unique_id@ == e.unique_id@,
        d.owner@ == e.owner@,
        d.timestamp@ == e.timestamp@,
        d.event_type@ == e.event_type@,
{
    let fs = event_record_fields(e);
    lemma_batch_record_by_name(e);
    lemma_record_lacks_id_aliases(e);
    lemma_record_lacks_other_aliases(e);
    let k_id = seq!["_event_id"@, "event_id"@];
    assert(k_id[1] == "event_id"@);
    lemma_lookup_alias(fs, k_id, "event_id"@);
    let k_unique = seq!["unique_id"@, "_unique_id"@];
    assert(k_unique[0] == "unique_id"@);
    lemma_lookup_alias(fs, k_unique, "unique_id"@);
    let k_time = seq!["timestamp"@, "_timestamp"@];
    assert(k_time[0] == "timestamp"@);
    lemma_lookup_alias(fs, k_time, "timestamp"@);
    let k_type = seq!["_type"@, "type"@];
    assert(k_type[1] == "type"@);
    lemma_lookup_alias(fs, k_type, "type"@);
    lemma_present_value(e.id@);
    lemma_present_value(e.unique_id@);
    lemma_present_value(e.owner@);
    lemma_present_value(e.timestamp@);
    lemma_present_value(e.event_type@);
}

/// A batch link response line whose fields are those of the batch link
/// record the encoder writes for `l` reports a link with `l`'s event ids
/// and unique ids.
pub proof fn lemma_batch_link_result_reads_back(
    l: crate::message::types::LinkFields,
    d: crate::message::types::LinkFields,
)
    requires
        crate::message::payloads::batch_link_ok(d, crate::message::encoder::link_record_fields(l)),
    ensures
        d.event_a@ == l.event_a@,
        d.event_b@ == l.event_b@,
        d.unique_id_a@ == l.unique_id_a@,
        d.unique_id_b@ == l.unique_id_b@,
{
    lemma_batch_link_record_by_name(l);
    lemma_present_value(l.event_a@);
    lemma_present_value(l.event_b@);
    lemma_present_value(l.unique_id_a@);
    lemma_present_value(l.unique_id_b@);
}

/// The counts of a decoded response that have more than one name: the
/// total is what the header gives under `_total_event_hits`, `_count` or
/// `total_link_requests_found` when it gives only that one of them, the
/// link count what it gives under `_set_link_count` or `_link_count` when
/// it gives only that one; and the response is buffered when `_is_buffered`
/// is `Y` or `true`, and not when the header has no `_is_buffered`.
#[verifier::rlimit(50)]
#[verifier::spinoff_prover]
pub proof fn lemma_response_counts_read(raw: Seq<u8>, d: Message)
    requires
        decoded_ok(d, raw),
        names_response(header_pairs(raw)),
    ensures
        ({
            let fs = header_pairs(raw);
            let r = d.response.unwrap();
            &&& d.response is Some
            &&& forall|n: nat|
                n <= i32::MAX && #[trigger] gives_number(fs, "_total_event_hits"@, n) && absent(
                    fs,
                    "_count"@,
                ) && absent(fs, "total_link_requests_found"@) ==> r.total_events == n
            &&& forall|n: nat|
                n <= i32::MAX && #[trigger] gives_number(fs, "_count"@, n) && absent(
                    fs,
                    "_total_event_hits"@,
                ) && absent(fs, "total_link_requests_found"@) ==> r.total_events == n
            &&& forall|n: nat|
                n <= i32::MAX && #[trigger] gives_number(fs, "total_link_requests_found"@, n)
                    && absent(fs, "_total_event_hits"@) && absent(fs, "_count"@)
                    ==> r.total_events == n
            &&& forall|n: nat|
                n <= i32::MAX && #[trigger] gives_number(fs, "_set_link_count"@, n) && absent(
                    fs,
                    "_link_count"@,
                ) ==> r.link_count == n
            &&& forall|n: nat|
                n <= i32::MAX && #[trigger] gives_number(fs, "_link_count"@, n) && absent(
                    fs,
                    "_set_link_count"@,
                ) ==> r.link_count == n
            &&& last_value(fs, seq!["_is_buffered"@]) == Some("Y"@) ==> r.is_buffered
            &&& last_value(fs, seq!["_is_buffered"@]) == Some("true"@) ==> r.is_buffered
            &&& last_value(fs, seq!["_is_buffered"@]) is None ==> !r.is_buffered
        }),
{
    let fs = header_pairs(raw);
    let total = seq!["_total_event_hits"@, "_count"@, "total_link_requests_found"@];
    let links = seq!["_set_link_count"@, "_link_count"@];
    assert(total[0] == "_total_event_hits"@ && total[1] == "_count"@ && total[2]
        == "total_link_requests_found"@);
    assert(links[0] == "_set_link_count"@ && links[1] == "_link_count"@);
    assert forall|n: nat| n <= i32::MAX implies parse_i32_or_zero(#[trigger] dec_digits(n)) == n by {
        lemma_dec_digits_i32(n);
    }
    assert forall|k: Seq<char>|
        #![trigger total.contains(k)]
        total.contains(k) && (forall|j: int|
            0 <= j < total.len() && total[j] != k ==> absent(fs, #[trigger] total[j]))
            implies last_value(fs, total) == last_value(fs, seq![k]) by {
        lemma_lookup_alias(fs, total, k);
    }
    assert forall|k: Seq<char>|
        #![trigger links.contains(k)]
        links.contains(k) && (forall|j: int|
            0 <= j < links.len() && links[j] != k ==> absent(fs, #[trigger] links[j]))
            implies last_value(fs, links) == last_value(fs, seq![k]) by {
        lemma_lookup_alias(fs, links, k);
    }
    assert(total.contains("_total_event_hits"@));
    assert(total.contains("_count"@));
    assert(total.contains("total_link_requests_found"@));
    assert(links.contains("_set_link_count"@));
    assert(links.contains("_link_count"@));
}

/// A text with no `c` in it splits into itself alone.
proof fn lemma_split_plain(a: Seq<char>, c: char)
    requires
        !a.contains(c),
    ensures
        crate::message::wire::split_on(a, c) == seq![a],
{
    assert forall|j: int| 0 <= j < a.len() implies a[j] != c by {
        if a[j] == c {
            assert(a.contains(c));
        }
    }
    crate::message::wire::lemma_split_last(a, c, 0);
    assert(a.skip(0) =~= a);
}

/// Text with no `c` before a `c` splits off as the first part.
proof fn lemma_split_front(a: Seq<char>, c: char, b: Seq<char>)
    requires
        !a.contains(c),
    ensures
        crate::message::wire::split_on(a + seq![c] + b, c) == seq![a]
            + crate::message::wire::split_on(b, c),
{
    let s = a + seq![c] + b;
    assert forall|j: int| 0 <= j < a.len() implies s[j] != c by {
        assert(s[j] == a[j]);
        if a[j] == c {
            assert(a.contains(c));
        }
    }
    assert(s[a.len() as int] == c);
    crate::message::wire::lemma_split_step(s, c, 0, a.len() as int);
    assert(s.skip(0) =~= s);
    assert(s.subrange(0, a.len() as int) =~= a);
    assert(s.skip(a.len() as int + 1) =~= b);
}

/// Decimal digits hold no character but a digit.
proof fn lemma_digits_lack(n: nat, c: char)
    requires
        c < '0' || c > '9',
    ensures
        !dec_digits(n).contains(c),
{
    crate::message::roundtrip::lemma_dec_digits_read(n);
    if dec_digits(n).contains(c) {
        let j = choose|j: int| 0 <= j < dec_digits(n).len() && dec_digits(n)[j] == c;
        assert(crate::text::digit_value(dec_digits(n)[j], 10) is Some);
    }
}

/// In `a`, `c`, `b` with no `c` in `a`, the first `c` is the one after `a`.
proof fn lemma_first_after(a: Seq<char>, c: char, b: Seq<char>)
    requires
        !a.contains(c),
    ensures
        first_index_of(a + seq![c] + b, c) == Some(a.len() as int),
        (a + seq![c] + b).take(a.len() as int) == a,
        (a + seq![c] + b).skip(a.len() as int + 1) == b,
{
    let s = a + seq![c] + b;
    assert forall|j: int| 0 <= j < a.len() implies s[j] != c by {
        assert(s[j] == a[j]);
        if a[j] == c {
            assert(a.contains(c));
        }
    }
    assert(s[a.len() as int] == c);
    crate::text::lemma_first_index_of_unique(s, c, a.len() as int);
    assert(s.take(a.len() as int) =~= a);
    assert(s.skip(a.len() as int + 1) =~= b);
}

/// A `<id>\t<frequency>\t<category>\t<value>` tag line (of a `_linktag=`
/// or `_targettag=` record) gives a tag with that frequency, category and
/// value, whatever the id: the parts are read in their places.
pub proof fn lemma_tag_line_reads(
    id: Seq<char>,
    f: nat,
    category: Seq<char>,
    value: Seq<char>,
    t: TagOutput,
)
    requires
        !id.contains('\t'),
        !category.contains('\t'),
        !value.contains('\t'),
        f <= i32::MAX,
        crate::message::records::tag_line(
            t,
            id + seq!['\t'] + dec_digits(f) + seq!['\t'] + category + seq!['\t'] + value,
        ),
    ensures
        t.frequency == f,
        t.category@ == category,
        t.value@ == value,
{
    lemma_digits_lack(f, '\t');
    lemma_dec_digits_i32(f);
    let tab = seq!['\t'];
    let s3 = category + tab + value;
    let s2 = dec_digits(f) + tab + s3;
    let s1 = id + tab + s2;
    assert(s1 =~= id + seq!['\t'] + dec_digits(f) + seq!['\t'] + category + seq!['\t'] + value);
    lemma_split_plain(value, '\t');
    lemma_split_front(category, '\t', value);
    lemma_split_front(dec_digits(f), '\t', s3);
    lemma_split_front(id, '\t', s2);
    let ps = crate::message::wire::split_on(s1, '\t');
    assert(ps =~= seq![id, dec_digits(f), category, value]);
}

/// A `_brief_hit=` record `<id>\t_total_hits=<n>` gives a brief hit for the
/// event `id` with `n` hits, and a record of a bare `id` gives one for `id`
/// with none.
pub proof fn lemma_brief_hit_reads(id: Seq<char>, n: nat, b: crate::message::types::BriefHitRecord)
    requires
        !id.contains('\t'),
        n <= i32::MAX,
    ensures
        crate::message::payloads::brief_hit_ok(b, id + seq!['\t'] + "_total_hits="@ + dec_digits(n))
            ==> b.event_id@ == id && b.total_hits == n,
        crate::message::payloads::brief_hit_ok(b, id) ==> b.event_id@ == id && b.total_hits == 0,
{
    reveal_strlit("_total_hits=");
    lemma_dec_digits_i32(n);
    let after = "_total_hits="@ + dec_digits(n);
    let rest = id + seq!['\t'] + after;
    assert(id + seq!['\t'] + "_total_hits="@ + dec_digits(n) =~= rest);
    assert("_total_hits="@.len() == 12);
    assert forall|j: int| 0 <= j < id.len() implies rest[j] != '\t' by {
        assert(rest[j] == id[j]);
        if id[j] == '\t' {
            assert(id.contains('\t'));
        }
    }
    assert(rest[id.len() as int] == '\t');
    crate::text::lemma_first_index_of_unique(rest, '\t', id.len() as int);
    assert(rest.take(id.len() as int) =~= id);
    assert(rest.skip(id.len() as int + 1) =~= after);
    assert(after.take(12) =~= "_total_hits="@);
    assert(after.skip(12) =~= dec_digits(n));
    crate::text::lemma_first_index_of(id, '\t');
    if first_index_of(id, '\t') is Some {
        let k = first_index_of(id, '\t').unwrap();
        assert(id.contains('\t'));
    }
}

/// A `tag:<freq>:<key>` field of a tag-hit event record whose value is `v`
/// gives a tag with that frequency, that key (colons and all) and the value
/// `v`, whatever the name before the first colon.
pub proof fn lemma_inline_tag_reads(
    name: Seq<char>,
    f: nat,
    key: Seq<char>,
    v: Seq<char>,
    t: TagOutput,
)
    requires
        !name.contains(':'),
        f <= i32::MAX,
        crate::message::records::inline_tag(name + seq![':'] + dec_digits(f) + seq![':'] + key, v, t),
    ensures
        t.frequency == f,
        t.key@ == key,
        t.value@ == v,
{
    lemma_digits_lack(f, ':');
    lemma_dec_digits_i32(f);
    let tail = dec_digits(f) + seq![':'] + key;
    assert(name + seq![':'] + dec_digits(f) + seq![':'] + key =~= name + seq![':'] + tail);
    lemma_first_after(name, ':', tail);
    lemma_first_after(dec_digits(f), ':', key);
}

/// An `event_tag:<num>:<freq>` header field whose value is `key=value`
/// gives a tag with that frequency, key and value, whatever the name and
/// number before it; a value without `=` is the key alone.
pub proof fn lemma_event_tag_reads(
    name: Seq<char>,
    num: Seq<char>,
    f: nat,
    key: Seq<char>,
    value: Seq<char>,
    t: TagOutput,
)
    requires
        !name.contains(':'),
        !num.contains(':'),
        !key.contains('='),
        f <= i32::MAX,
    ensures
        crate::message::records::event_tag(
            name + seq![':'] + num + seq![':'] + dec_digits(f),
            key + seq!['='] + value,
            t,
        ) ==> t.frequency == f && t.key@ == key && t.value@ == value,
        crate::message::records::event_tag(
            name + seq![':'] + num + seq![':'] + dec_digits(f),
            key,
            t,
        ) ==> t.frequency == f && t.key@ == key && t.value@.len() == 0,
{
    lemma_dec_digits_i32(f);
    let tail = num + seq![':'] + dec_digits(f);
    assert(name + seq![':'] + num + seq![':'] + dec_digits(f) =~= name + seq![':'] + tail);
    lemma_first_after(name, ':', tail);
    lemma_first_after(num, ':', dec_digits(f));
    lemma_first_after(key, '=', value);
    crate::text::lemma_first_index_of(key, '=');
    if first_index_of(key, '=') is Some {
        let k = first_index_of(key, '=').unwrap();
        assert(key.contains('='));
    }
}

/// The summary of a batch event response is what its lines give under the
/// names of its parts: the status under `_status`, the message under
/// `_msg` and the event count under `_count`.
pub proof fn lemma_batch_events_summary_read(
    r: crate::message::types::StoreBatchEventRecord,
    ls: Seq<Seq<char>>,
)
    requires
        crate::message::payloads::batch_event_record_ok(r, ls),
    ensures
        ({
            let fs = crate::message::payloads::all_pairs(ls);
            &&& r.status@ == text_under(fs, "_status"@)
            &&& r.message@ == text_under(fs, "_msg"@)
            &&& forall|n: nat|
                n <= i32::MAX && #[trigger] gives_number(fs, "_count"@, n) ==> r.event_count == n
        }),
{
    assert forall|n: nat| n <= i32::MAX implies parse_i32_or_zero(#[trigger] dec_digits(n)) == n by {
        lemma_dec_digits_i32(n);
    }
}

/// The summary of a batch link response is what its lines give under the
/// names of its parts: the status under `_status`, the message under
/// `_msg`, and the counts under `total_link_requests_found`, `_links_ok`
/// and `_links_with_errors`.
pub proof fn lemma_batch_links_summary_read(
    r: crate::message::types::StoreLinkBatchEventRecord,
    ls: Seq<Seq<char>>,
)
    requires
        crate::message::payloads::batch_link_record_ok(r, ls),
    ensures
        ({
            let fs = crate::message::payloads::all_pairs(ls);
            &&& r.status@ == text_under(fs, "_status"@)
            &&& r.message@ == text_under(fs, "_msg"@)
            &&& forall|n: nat|
                n <= i32::MAX && #[trigger] gives_number(fs, "total_link_requests_found"@, n)
                    ==> r.total_link_requests_found == n
            &&& forall|n: nat|
                n <= i32::MAX && #[trigger] gives_number(fs, "_links_ok"@, n) ==> r.links_ok == n
            &&& forall|n: nat|
                n <= i32::MAX && #[trigger] gives_number(fs, "_links_with_errors"@, n)
                    ==> r.links_with_errors == n
        }),
{
    assert forall|n: nat| n <= i32::MAX implies parse_i32_or_zero(#[trigger] dec_digits(n)) == n by {
        lemma_dec_digits_i32(n);
    }
}

/// Whether `s` reads as `a`, `sep`, `b`, `=`, `c`: cut at its first `sep`
/// it gives `a`, and the rest cut at its first `=` gives `b` and `c`.
pub open spec fn cuts_into(s: Seq<char>, sep: char, a: Seq<char>, b: Seq<char>, c: Seq<char>) -> bool {
    let rest = s.skip(a.len() as int + 1);
    &&& first_index_of(s, sep) == Some(a.len() as int)
    &&& s.take(a.len() as int) == a
    &&& first_index_of(rest, '=') == Some(b.len() as int)
    &&& rest.take(b.len() as int) == b
    &&& rest.skip(b.len() as int + 1) == c
}

/// The decimal text of an integer holds neither `:` nor `=`.
proof fn lemma_int_text_lacks(n: int, c: char)
    requires
        c == ':' || c == '=',
    ensures
        !int_text(n).contains(c),
{
    if n < 0 {
        lemma_digits_lack((-n) as nat, c);
        let t = int_text(n);
        if t.contains(c) {
            let j = choose|j: int| 0 <= j < t.len() && t[j] == c;
            if j > 0 {
                assert(t[j] == dec_digits((-n) as nat)[j - 1]);
                assert(dec_digits((-n) as nat).contains(c));
            }
        }
    } else {
        lemma_digits_lack(n as nat, c);
    }
}

/// Text of a frequency, a separator, a key without `=`, `=` and a value
/// cuts back into its parts.
proof fn lemma_cuts_into(f: int, sep: char, key: Seq<char>, value: Seq<char>)
    requires
        sep == ':' || sep == '=',
        !key.contains('='),
    ensures
        cuts_into(int_text(f) + seq![sep] + key + seq!['='] + value, sep, int_text(f), key, value),
{
    lemma_int_text_lacks(f, sep);
    let tail = key + seq!['='] + value;
    assert(int_text(f) + seq![sep] + key + seq!['='] + value =~= int_text(f) + seq![sep] + tail);
    lemma_first_after(int_text(f), sep, tail);
    lemma_first_after(key, '=', value);
}

/// The tag texts the library writes read back into their parts when the
/// key holds no `=`: a stored event's `tag_NNNN` value `freq:key=value`,
/// a batch event's `tag_N` value `freq:key=value`, and a StoreBatchTags
/// line `freq=key=value` each cut at their first separator give the
/// frequency's decimal text, and the rest cut at its first `=` gives the
/// key and the value's text.
pub proof fn lemma_tag_texts_read(t: TagOutput, bt: crate::message::types::Tag)
    requires
        !t.key@.contains('='),
        !bt.key@.contains('='),
    ensures
        cuts_into(
            crate::message::header::tag_output_text(t),
            ':',
            int_text(t.frequency as int),
            t.key@,
            t.value@,
        ),
        cuts_into(
            crate::message::encoder::batch_tag_value(bt),
            ':',
            int_text(bt.frequency as int),
            bt.key@,
            crate::message::encoder::tag_value_text(bt.value),
        ),
        cuts_into(
            crate::message::encoder::batch_tags_line(bt),
            '=',
            int_text(bt.frequency as int),
            bt.key@,
            crate::message::encoder::tag_value_text(bt.value),
        ),
{
    lemma_cuts_into(t.frequency as int, ':', t.key@, t.value@);
    lemma_cuts_into(
        bt.frequency as int,
        ':',
        bt.key@,
        crate::message::encoder::tag_value_text(bt.value),
    );
    lemma_cuts_into(
        bt.frequency as int,
        '=',
        bt.key@,
        crate::message::encoder::tag_value_text(bt.value),
    );
}

} // verus!
