//! What the decoder reads back of a header the encoder wrote: the fields
//! themselves when no key or value holds a tab (and no key an `=`), and for
//! replies their message id, status, message and command.

use vstd::prelude::*;

use crate::message::decoder::{decode_failure, decoded_intent, header_command, header_pairs};
use crate::message::encoder::{message_frame_len, message_frame};
use crate::message::header::{
    field_text, has_own_layout, join_fields, msg_id_field, one, opt_field, outcome_fields,
    reply_fields, spec_header, spec_header_fields, Field, conversation_field, header_fields,
};
use crate::message::intents::{
    is_memory_response, is_plain_reply, lemma_plain_intents_found, lemma_response_intents_found,
};
use crate::message::records::value_of;
use crate::message::roundtrip::lemma_decode_reads_encoded;
use crate::message::types::Message;
use crate::message::wire::{fields_of_parts, last_value, part_field, split_on, tab_pairs};
use crate::text::{first_index_of, lemma_first_index_of, lemma_first_index_of_unique};

verus! {

/// A field that reads back as itself: no tab anywhere, no `=` in the key.
pub open spec fn clean_field(f: Field) -> bool {
    !f.0.contains('\t') && !f.0.contains('=') && !f.1.contains('\t')
}

/// Fields that all read back as themselves.
pub open spec fn clean_fields(fs: Seq<Field>) -> bool {
    forall|i: int| 0 <= i < fs.len() ==> clean_field(#[trigger] fs[i])
}

proof fn lemma_first_index_append(a: Seq<char>, c: char, b: Seq<char>)
    ensures
        first_index_of(a + seq![c] + b, c) == match first_index_of(a, c) {
            Some(i) => Some(i),
            None => Some(a.len() as int),
        },
{
    let s = a + seq![c] + b;
    lemma_first_index_of(a, c);
    match first_index_of(a, c) {
        Some(i) => {
            assert forall|j: int| 0 <= j < i implies s[j] != c by {
                assert(s[j] == a[j]);
            }
            assert(s[i] == a[i]);
            lemma_first_index_of_unique(s, c, i);
        },
        None => {
            assert forall|j: int| 0 <= j < a.len() implies s[j] != c by {
                assert(s[j] == a[j]);
            }
            assert(s[a.len() as int] == c);
            lemma_first_index_of_unique(s, c, a.len() as int);
        },
    }
}

proof fn lemma_split_no_sep(b: Seq<char>, c: char)
    requires
        !b.contains(c),
    ensures
        split_on(b, c) == seq![b],
{
    lemma_first_index_of(b, c);
    if first_index_of(b, c) is Some {
        let k = first_index_of(b, c).unwrap();
        assert(b.contains(c)) by {
            assert(b[k] == c);
        }
    }
}

/// Splitting `a`, a separator and a piece without separators splits `a` and
/// adds the piece.
proof fn lemma_split_append(a: Seq<char>, c: char, b: Seq<char>)
    requires
        !b.contains(c),
    ensures
        split_on(a + seq![c] + b, c) == split_on(a, c) + seq![b],
    decreases a.len(),
{
    let s = a + seq![c] + b;
    lemma_first_index_append(a, c, b);
    lemma_first_index_of(a, c);
    match first_index_of(a, c) {
        Some(i) => {
            assert(s.take(i) =~= a.take(i));
            assert(s.skip(i + 1) =~= a.skip(i + 1) + seq![c] + b);
            lemma_split_append(a.skip(i + 1), c, b);
            assert(split_on(a, c) == seq![a.take(i)] + split_on(a.skip(i + 1), c));
            assert(split_on(s, c) =~= split_on(a, c) + seq![b]);
        },
        None => {
            assert(s.take(a.len() as int) =~= a);
            assert(s.skip(a.len() as int + 1) =~= b);
            lemma_split_no_sep(b, c);
            assert(split_on(s, c) =~= split_on(a, c) + seq![b]);
        },
    }
}

proof fn lemma_fields_of_parts_push(ps: Seq<Seq<char>>, p: Seq<char>)
    ensures
        fields_of_parts(ps.push(p)) == fields_of_parts(ps) + part_field(p),
    decreases ps.len(),
{
    if ps.len() == 0 {
        assert(ps.push(p).drop_first() =~= Seq::<Seq<char>>::empty());
        assert(fields_of_parts(Seq::<Seq<char>>::empty()) == Seq::<Field>::empty());
        assert(ps.push(p)[0] == p);
        assert(fields_of_parts(ps.push(p)) =~= part_field(p));
    } else {
        assert(ps.push(p).drop_first() =~= ps.drop_first().push(p));
        lemma_fields_of_parts_push(ps.drop_first(), p);
        assert(fields_of_parts(ps.push(p)) =~= fields_of_parts(ps) + part_field(p));
    }
}

proof fn lemma_part_field(f: Field)
    requires
        !f.0.contains('='),
    ensures
        part_field(field_text(f)) == seq![f],
{
    let t = field_text(f);
    assert forall|j: int| 0 <= j < f.0.len() implies t[j] != '=' by {
        assert(t[j] == f.0[j]);
        if t[j] == '=' {
            assert(f.0.contains('='));
        }
    }
    assert(t[f.0.len() as int] == '=');
    lemma_first_index_of_unique(t, '=', f.0.len() as int);
    assert(t.take(f.0.len() as int) =~= f.0);
    assert(t.skip(f.0.len() as int + 1) =~= f.1);
}

proof fn lemma_field_text_no_tab(f: Field)
    requires
        clean_field(f),
    ensures
        !field_text(f).contains('\t'),
{
    let t = field_text(f);
    if t.contains('\t') {
        let k = choose|k: int| 0 <= k < t.len() && t[k] == '\t';
        if k < f.0.len() {
            assert(f.0[k] == '\t');
            assert(f.0.contains('\t'));
        } else if k > f.0.len() {
            assert(f.1[k - f.0.len() - 1] == '\t');
            assert(f.1.contains('\t'));
        }
    }
}

/// Fields that hold no tab, and keys no `=`, are parsed back from their
/// text exactly.
pub proof fn lemma_tab_pairs_join(fs: Seq<Field>)
    requires
        clean_fields(fs),
    ensures
        tab_pairs(join_fields(fs)) == fs,
    decreases fs.len(),
{
    if fs.len() == 0 {
        lemma_split_no_sep(Seq::empty(), '\t');
        assert(first_index_of(Seq::<char>::empty(), '=') is None);
        assert(part_field(Seq::<char>::empty()) == Seq::<Field>::empty());
        assert(seq![Seq::<char>::empty()].drop_first() =~= Seq::<Seq<char>>::empty());
        assert(fields_of_parts(Seq::<Seq<char>>::empty()) == Seq::<Field>::empty());
        assert(fields_of_parts(seq![Seq::<char>::empty()]) =~= Seq::<Field>::empty());
    } else {
        let f = fs.last();
        assert(clean_field(fs[fs.len() - 1]));
        lemma_field_text_no_tab(f);
        lemma_part_field(f);
        if fs.len() == 1 {
            lemma_split_no_sep(field_text(f), '\t');
            assert(seq![field_text(f)] =~= Seq::<Seq<char>>::empty().push(field_text(f)));
            lemma_fields_of_parts_push(Seq::empty(), field_text(f));
            assert(fs =~= seq![f]);
        } else {
            let rest = fs.drop_last();
            assert(clean_fields(rest)) by {
                assert forall|i: int| 0 <= i < rest.len() implies clean_field(#[trigger] rest[i]) by {
                    assert(rest[i] == fs[i]);
                }
            }
            lemma_tab_pairs_join(rest);
            lemma_split_append(join_fields(rest), '\t', field_text(f));
            let parts = split_on(join_fields(rest), '\t');
            assert(parts + seq![field_text(f)] =~= parts.push(field_text(f)));
            lemma_fields_of_parts_push(parts, field_text(f));
            assert(fs =~= rest + seq![f]);
        }
    }
}

/// The last value for `keys` in `a + b`: found in `b` if it is there.
pub(crate) proof fn lemma_last_value_concat(a: Seq<Field>, b: Seq<Field>, keys: Seq<Seq<char>>)
    ensures
        last_value(a + b, keys) == match last_value(b, keys) {
            Some(v) => Some(v),
            None => last_value(a, keys),
        },
    decreases b.len(),
{
    if b.len() == 0 {
        assert(a + b =~= a);
    } else {
        assert((a + b).drop_last() =~= a + b.drop_last());
        assert((a + b).last() == b.last());
        lemma_last_value_concat(a, b.drop_last(), keys);
    }
}

/// The last value for a single key in an optional field.
pub(crate) proof fn lemma_last_value_opt(k: Seq<char>, v: Seq<char>, key: Seq<char>)
    ensures
        last_value(opt_field(k, v), seq![key]) == (if v.len() > 0 && k == key {
            Some(v)
        } else {
            None
        }),
{
    let keys = seq![key];
    if v.len() > 0 {
        let fs = opt_field(k, v);
        assert(fs.len() == 1);
        assert(fs.drop_last() =~= Seq::<Field>::empty());
        assert(last_value(fs.drop_last(), keys) is None);
        assert(fs.last() == (k, v));
        if k == key {
            assert(keys[0] == k);
            assert(keys.contains(k));
        } else {
            assert(!keys.contains(k)) by {
                if keys.contains(k) {
                    let j = choose|j: int| 0 <= j < keys.len() && keys[j] == k;
                    assert(keys[j] == key);
                }
            }
        }
    } else {
        assert(opt_field(k, v) == Seq::<Field>::empty());
    }
}

/// The reply layout's keys are `_db_cmd`, `_msg_id`, `_status` and `_msg`.
proof fn lemma_reply_keys(msg: Message, i: crate::message::intents::Intent, k: int)
    requires
        0 <= k < reply_fields(msg, i).len(),
    ensures
        ({
            let key = reply_fields(msg, i)[k].0;
            key == "_db_cmd"@ || key == "_msg_id"@ || key == "_status"@ || key == "_msg"@
        }),
{
    let cmd = if i.message_type == 1001 {
        opt_field("_db_cmd"@, i.neural_memory_command@)
    } else {
        Seq::empty()
    };
    let fs = reply_fields(msg, i);
    let a = cmd + msg_id_field(msg);
    assert(fs == a + outcome_fields(msg));
    if k < cmd.len() {
        assert(fs[k] == cmd[k]);
    } else if k < a.len() {
        assert(fs[k] == msg_id_field(msg)[k - cmd.len()]);
    } else {
        assert(fs[k] == outcome_fields(msg)[k - a.len()]);
        match msg.response {
            Some(r) => {
                let o = opt_field("_status"@, r.status@);
                assert(outcome_fields(msg) == o + opt_field("_msg"@, r.message@));
                if k - a.len() >= o.len() {
                    assert(outcome_fields(msg)[k - a.len()] == opt_field("_msg"@, r.message@)[k
                        - a.len() - o.len()]);
                }
            },
            None => {},
        }
    }
}

/// Under the reply layout, fields without tabs are clean.
proof fn lemma_reply_fields_clean(msg: Message, i: crate::message::intents::Intent)
    requires
        !msg.envelope.message_id@.contains('\t'),
        !i.neural_memory_command@.contains('\t'),
        msg.response matches Some(r) ==> !r.status@.contains('\t') && !r.message@.contains('\t'),
    ensures
        clean_fields(reply_fields(msg, i)),
{
    reveal_strlit("_db_cmd");
    reveal_strlit("_msg_id");
    reveal_strlit("_status");
    reveal_strlit("_msg");
    let fs = reply_fields(msg, i);
    assert forall|k: int| 0 <= k < fs.len() implies clean_field(#[trigger] fs[k]) by {
        lemma_reply_keys(msg, i, k);
        let f = fs[k];
        assert(!f.0.contains('\t') && !f.0.contains('='));
        let cmd = if i.message_type == 1001 {
            opt_field("_db_cmd"@, i.neural_memory_command@)
        } else {
            Seq::empty()
        };
        let a = cmd + msg_id_field(msg);
        assert(fs == a + outcome_fields(msg));
        if k < cmd.len() {
            assert(fs[k] == cmd[k]);
        } else if k < a.len() {
            assert(fs[k] == msg_id_field(msg)[k - cmd.len()]);
        } else {
            assert(fs[k] == outcome_fields(msg)[k - a.len()]);
            match msg.response {
                Some(r) => {
                    let o = opt_field("_status"@, r.status@);
                    assert(outcome_fields(msg) == o + opt_field("_msg"@, r.message@));
                    if k - a.len() >= o.len() {
                        assert(outcome_fields(msg)[k - a.len()] == opt_field("_msg"@, r.message@)[k
                            - a.len() - o.len()]);
                    }
                },
                None => {},
            }
        }
    }
}

/// The reply layout's keys differ from one another and from the command keys.
pub(crate) proof fn lemma_reply_keys_distinct()
    ensures
        "_status"@ != "_msg_id"@,
        "_msg"@ != "_msg_id"@,
        "_db_cmd"@ != "_msg_id"@,
        "_msg"@ != "_status"@,
        "_db_cmd"@ != "_status"@,
        "_db_cmd"@ != "_msg"@,
        "_type"@ != "_msg_id"@,
        "_type"@ != "_status"@,
        "_type"@ != "_msg"@,
        "_type"@ != "_db_cmd"@,
        "_command"@ != "_msg_id"@,
        "_command"@ != "_status"@,
        "_command"@ != "_msg"@,
        "_command"@ != "_db_cmd"@,
        "_conversation_uuid"@ != "_msg_id"@,
        "_conversation_uuid"@ != "_status"@,
        "_conversation_uuid"@ != "_msg"@,
        "_conversation_uuid"@ != "_db_cmd"@,
        "_conversation_uuid"@ != "_type"@,
        "_conversation_uuid"@ != "_command"@,
{
    reveal_strlit("_conversation_uuid");
    assert("_conversation_uuid"@.len() == 18);
    reveal_strlit("_db_cmd");
    reveal_strlit("_msg_id");
    reveal_strlit("_status");
    reveal_strlit("_msg");
    reveal_strlit("_type");
    reveal_strlit("_command");
    assert("_status"@[1] == 's');
    assert("_msg_id"@[1] == 'm');
    assert("_msg"@[1] == 'm');
    assert("_db_cmd"@[1] == 'd');
    assert("_type"@[1] == 't');
    assert("_command"@[1] == 'c');
    assert("_msg"@.len() == 4);
    assert("_msg_id"@.len() == 7);
    assert("_status"@.len() == 7);
    assert("_db_cmd"@.len() == 7);
    assert("_type"@.len() == 5);
    assert("_command"@.len() == 8);
}

/// The conversation id field holds none of the reply and command keys, so
/// the values read for them are those of the fields before it.
pub(crate) proof fn lemma_conversation_transparent(fs: Seq<Field>, conv: Seq<char>, key: Seq<char>)
    requires
        key == "_msg_id"@ || key == "_status"@ || key == "_msg"@ || key == "_type"@ || key
            == "_command"@ || key == "_db_cmd"@,
    ensures
        last_value(fs + conversation_field(conv), seq![key]) == last_value(fs, seq![key]),
{
    lemma_reply_keys_distinct();
    lemma_last_value_concat(fs, conversation_field(conv), seq![key]);
    lemma_last_value_opt("_conversation_uuid"@, conv, key);
}

/// A conversation id without tabs gives a clean field.
proof fn lemma_conversation_clean(conv: Seq<char>)
    requires
        !conv.contains('\t'),
    ensures
        clean_fields(conversation_field(conv)),
{
    reveal_strlit("_conversation_uuid");
    let k = "_conversation_uuid"@;
    assert(!k.contains('\t') && !k.contains('=')) by {
        assert forall|j: int| 0 <= j < k.len() implies k[j] != '\t' && k[j] != '=' by {
            assert(k[j] == "_conversation_uuid"@[j]);
        }
    }
    if conv.len() > 0 {
        assert(conversation_field(conv)[0] == (k, conv));
    }
}

/// Clean fields followed by clean fields are clean.
proof fn lemma_clean_concat(a: Seq<Field>, b: Seq<Field>)
    requires
        clean_fields(a),
        clean_fields(b),
    ensures
        clean_fields(a + b),
{
    assert forall|i: int| 0 <= i < (a + b).len() implies clean_field(#[trigger] (a + b)[i]) by {
        if i < a.len() {
            assert((a + b)[i] == a[i]);
        } else {
            assert((a + b)[i] == b[i - a.len()]);
        }
    }
}

/// The values the reply layout gives for its keys, and for the command keys.
proof fn lemma_reply_values(msg: Message, i: crate::message::intents::Intent)
    ensures
        value_of(reply_fields(msg, i), seq!["_msg_id"@]) == msg.envelope.message_id@,
        msg.response matches Some(r) ==> value_of(reply_fields(msg, i), seq!["_status"@])
            == r.status@,
        msg.response matches Some(r) ==> value_of(reply_fields(msg, i), seq!["_msg"@])
            == r.message@,
        header_command(reply_fields(msg, i)) == (if i.message_type == 1001 {
            i.neural_memory_command@
        } else {
            Seq::empty()
        }),
{
    reveal_strlit("_db_cmd");
    reveal_strlit("_msg_id");
    reveal_strlit("_status");
    reveal_strlit("_msg");
    reveal_strlit("_type");
    reveal_strlit("_command");
    lemma_reply_keys_distinct();
    let cmd = if i.message_type == 1001 {
        opt_field("_db_cmd"@, i.neural_memory_command@)
    } else {
        Seq::empty()
    };
    let mid = msg_id_field(msg);
    let out = outcome_fields(msg);
    let fs = reply_fields(msg, i);
    assert(fs == cmd + mid + out);
    let keys = seq!["_msg_id"@, "_status"@, "_msg"@, "_type"@, "_command"@, "_db_cmd"@];
    assert forall|n: int| 0 <= n < keys.len() implies {
        let key = #[trigger] keys[n];
        &&& last_value(fs, seq![key]) == match last_value(out, seq![key]) {
            Some(v) => Some(v),
            None => match last_value(mid, seq![key]) {
                Some(v) => Some(v),
                None => last_value(cmd, seq![key]),
            },
        }
        &&& last_value(mid, seq![key]) == (if msg.envelope.message_id@.len() > 0 && "_msg_id"@
            == key {
            Some(msg.envelope.message_id@)
        } else {
            None
        })
    } by {
        let key = keys[n];
        lemma_last_value_concat(cmd + mid, out, seq![key]);
        lemma_last_value_concat(cmd, mid, seq![key]);
        lemma_last_value_opt("_msg_id"@, msg.envelope.message_id@, key);
    }
    assert(keys[0] == "_msg_id"@ && keys[1] == "_status"@ && keys[2] == "_msg"@ && keys[3]
        == "_type"@ && keys[4] == "_command"@ && keys[5] == "_db_cmd"@);
    if i.message_type == 1001 {
        lemma_last_value_opt("_db_cmd"@, i.neural_memory_command@, "_type"@);
        lemma_last_value_opt("_db_cmd"@, i.neural_memory_command@, "_command"@);
        lemma_last_value_opt("_db_cmd"@, i.neural_memory_command@, "_db_cmd"@);
        lemma_last_value_opt("_db_cmd"@, i.neural_memory_command@, "_msg_id"@);
        lemma_last_value_opt("_db_cmd"@, i.neural_memory_command@, "_status"@);
        lemma_last_value_opt("_db_cmd"@, i.neural_memory_command@, "_msg"@);
    }
    match msg.response {
        Some(r) => {
            let st = opt_field("_status"@, r.status@);
            let ms = opt_field("_msg"@, r.message@);
            assert(out == st + ms);
            assert forall|n: int| 0 <= n < keys.len() implies last_value(out, seq![#[trigger] keys[n]])
                == match last_value(ms, seq![keys[n]]) {
                Some(v) => Some(v),
                None => last_value(st, seq![keys[n]]),
            } by {
                lemma_last_value_concat(st, ms, seq![keys[n]]);
            }
            lemma_last_value_opt("_status"@, r.status@, "_msg_id"@);
            lemma_last_value_opt("_msg"@, r.message@, "_msg_id"@);
            lemma_last_value_opt("_status"@, r.status@, "_status"@);
            lemma_last_value_opt("_msg"@, r.message@, "_status"@);
            lemma_last_value_opt("_status"@, r.status@, "_msg"@);
            lemma_last_value_opt("_msg"@, r.message@, "_msg"@);
            lemma_last_value_opt("_status"@, r.status@, "_type"@);
            lemma_last_value_opt("_msg"@, r.message@, "_type"@);
            lemma_last_value_opt("_status"@, r.status@, "_command"@);
            lemma_last_value_opt("_msg"@, r.message@, "_command"@);
            lemma_last_value_opt("_status"@, r.status@, "_db_cmd"@);
            lemma_last_value_opt("_msg"@, r.message@, "_db_cmd"@);
            if r.status@.len() == 0 {
                assert(r.status@ =~= Seq::<char>::empty());
            }
            if r.message@.len() == 0 {
                assert(r.message@ =~= Seq::<char>::empty());
            }
        },
        None => {},
    }
    assert(last_value(out, seq!["_msg_id"@]) is None);
    assert(last_value(cmd, seq!["_msg_id"@]) is None);
    assert(last_value(fs, seq!["_msg_id"@]) == last_value(mid, seq!["_msg_id"@]));
    if msg.envelope.message_id@.len() == 0 {
        assert(msg.envelope.message_id@ =~= Seq::<char>::empty());
    }
    if i.neural_memory_command@.len() == 0 {
        assert(i.neural_memory_command@ =~= Seq::<char>::empty());
    }
}

/// A frame the encoder wrote decodes with exactly the header fields it was
/// written with, in order, whatever the intent's layout and the conversation
/// id — provided no key or value holds a tab, no key an `=`, and the frame
/// fits the limits.
pub proof fn lemma_header_reads_back(msg: Message, conv: Seq<char>, max: int)
    requires
        message_frame_len(msg, conv) < 0x1_0000_0000,
        0 <= msg.envelope.intent.message_type < 1_000_000_000,
        message_frame(msg, conv).len() <= max,
        clean_fields(header_fields(msg, msg.envelope.intent, conv)),
    ensures
        decode_failure(message_frame(msg, conv), max) is None,
        header_pairs(message_frame(msg, conv)) == header_fields(msg, msg.envelope.intent, conv),
{
    lemma_decode_reads_encoded(msg, conv, max);
    lemma_tab_pairs_join(header_fields(msg, msg.envelope.intent, conv));
}

/// A frame the encoder wrote for an intent without a layout of its own (a
/// reply) decodes with the header fields it was written with (the reply
/// fields, then the conversation id); its message
/// id, the status and message of its response, and its command (that of a
/// Neural Memory reply, message type 1001) read back, and a Neural Memory
/// reply, or a reply the table knows by its type alone, decodes to the
/// intent written — provided none of these texts holds a tab and the frame
/// fits the limits.
pub proof fn lemma_reply_reads_back(msg: Message, conv: Seq<char>, max: int)
    requires
        message_frame_len(msg, conv) < 0x1_0000_0000,
        0 <= msg.envelope.intent.message_type < 1_000_000_000,
        message_frame(msg, conv).len() <= max,
        !has_own_layout(msg.envelope.intent),
        !msg.envelope.message_id@.contains('\t'),
        !msg.envelope.intent.neural_memory_command@.contains('\t'),
        msg.response matches Some(r) ==> !r.status@.contains('\t') && !r.message@.contains('\t'),
        !conv.contains('\t'),
    ensures
        ({
            let fs = header_pairs(message_frame(msg, conv));
            let i = msg.envelope.intent;
            &&& decode_failure(message_frame(msg, conv), max) is None
            &&& fs == reply_fields(msg, i) + conversation_field(conv)
            &&& value_of(fs, seq!["_msg_id"@]) == msg.envelope.message_id@
            &&& msg.response matches Some(r) ==> value_of(fs, seq!["_status"@]) == r.status@
                && value_of(fs, seq!["_msg"@]) == r.message@
            &&& header_command(fs) == (if i.message_type == 1001 {
                i.neural_memory_command@
            } else {
                Seq::empty()
            })
            &&& is_memory_response(i) ==> decoded_intent(message_frame(msg, conv)).same(i)
            &&& is_plain_reply(i) ==> decoded_intent(message_frame(msg, conv)).same(i)
        }),
{
    let i = msg.envelope.intent;
    let rf = reply_fields(msg, i);
    lemma_decode_reads_encoded(msg, conv, max);
    assert(spec_header_fields(msg, i) == rf);
    assert(header_fields(msg, i, conv) == rf + conversation_field(conv));
    lemma_reply_fields_clean(msg, i);
    lemma_conversation_clean(conv);
    lemma_clean_concat(rf, conversation_field(conv));
    lemma_tab_pairs_join(rf + conversation_field(conv));
    lemma_reply_values(msg, i);
    lemma_conversation_transparent(rf, conv, "_msg_id"@);
    lemma_conversation_transparent(rf, conv, "_status"@);
    lemma_conversation_transparent(rf, conv, "_msg"@);
    lemma_conversation_transparent(rf, conv, "_type"@);
    lemma_conversation_transparent(rf, conv, "_command"@);
    lemma_conversation_transparent(rf, conv, "_db_cmd"@);
    lemma_response_intents_found();
    lemma_plain_intents_found();
    reveal_strlit("");
    assert(""@ =~= Seq::<char>::empty());
}


/// With a conversation id `u`, the frame the encoder writes carries it as
/// its last header field (`_conversation_uuid`) and differs from the frame
/// written without one, whose header holds the message's own fields alone —
/// provided both frames fit the limits and their fields read back cleanly.
pub proof fn lemma_conversation_id_written(msg: Message, u: Seq<char>, max: int)
    requires
        u.len() > 0,
        message_frame_len(msg, u) < 0x1_0000_0000,
        message_frame_len(msg, Seq::empty()) < 0x1_0000_0000,
        0 <= msg.envelope.intent.message_type < 1_000_000_000,
        message_frame(msg, u).len() <= max,
        message_frame(msg, Seq::empty()).len() <= max,
        clean_fields(header_fields(msg, msg.envelope.intent, u)),
    ensures
        header_pairs(message_frame(msg, u)) == spec_header_fields(msg, msg.envelope.intent) + seq![
            ("_conversation_uuid"@, u),
        ],
        header_pairs(message_frame(msg, Seq::empty())) == spec_header_fields(
            msg,
            msg.envelope.intent,
        ),
        message_frame(msg, u) != message_frame(msg, Seq::empty()),
{
    let i = msg.envelope.intent;
    let own = spec_header_fields(msg, i);
    let with_id = header_fields(msg, i, u);
    assert(with_id =~= own + seq![("_conversation_uuid"@, u)]);
    assert(header_fields(msg, i, Seq::empty()) =~= own);
    assert(clean_fields(own)) by {
        assert forall|k: int| 0 <= k < own.len() implies clean_field(#[trigger] own[k]) by {
            assert(with_id[k] == own[k]);
        }
    }
    lemma_header_reads_back(msg, u, max);
    lemma_header_reads_back(msg, Seq::empty(), max);
    assert(header_pairs(message_frame(msg, u)).len() != header_pairs(
        message_frame(msg, Seq::empty()),
    ).len());
}

} // verus!
