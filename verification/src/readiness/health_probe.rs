//! AIP health probes: which probe an actor gets, and whether it succeeded.

use vstd::prelude::*;

use crate::errors::GatewayDError;
use crate::message::intents::{
    get_events_for_tags, spec_get_events_for_tags, spec_status_request, status_request,
};
use crate::message::types::{
    DataType, Envelope, GetEventsForTagsOptions, Message, NeuralMemoryFields, NullInt, PayloadData,
    PayloadFields,
};
use crate::message::utils::{is_uuid_v4_text, new_message_id};
use crate::text::{
    append_str, chars_eq_str, chars_of, lower_slice, lower_text, str_eq, string_from_chars,
    trim_slice, trimmed,
};

verus! {

/// Whether an actor type runs a Neural Memory store that can answer
/// GetEventsForTags: `pod_db`, `evolutionary-neural-memory`,
/// `neural_memory` or `neural-memory`, trimmed, in any ASCII case.
pub open spec fn is_neural_memory_type(actor_type: Seq<char>) -> bool {
    let t = lower_text(trimmed(actor_type));
    t == "pod_db"@ || t == "evolutionary-neural-memory"@ || t == "neural_memory"@ || t
        == "neural-memory"@
}

/// Whether an actor type runs a Neural Memory store.
pub fn is_neural_memory_backed_for_health_probe(actor_type: &str) -> (r: bool)
    ensures
        r == is_neural_memory_type(actor_type@),
{
    let c = chars_of(actor_type);
    let t = trim_slice(c.as_slice());
    let l = lower_slice(t.as_slice());
    let s = l.as_slice();
    chars_eq_str(s, "pod_db") || chars_eq_str(s, "evolutionary-neural-memory") || chars_eq_str(
        s,
        "neural_memory",
    ) || chars_eq_str(s, "neural-memory")
}

/// The start of the search clause of a Neural Memory probe.
pub open spec fn health_clause_prefix() -> Seq<char> {
    "health_check=_podos_health_check_"@
}

/// A search for a fresh health-check tag: the prefix, then a random UUID.
pub open spec fn is_health_clause(t: Seq<char>) -> bool {
    &&& t.len() == health_clause_prefix().len() + 36
    &&& t.take(health_clause_prefix().len() as int) == health_clause_prefix()
    &&& is_uuid_v4_text(t.skip(health_clause_prefix().len() as int))
}

/// Options asking only for the number of hits.
pub open spec fn is_count_only(o: GetEventsForTagsOptions) -> bool {
    &&& o.count_only
    &&& o.event_pattern@.len() == 0
    &&& o.event_pattern_high@.len() == 0
    &&& !o.include_brief_hits
    &&& !o.get_all_data
    &&& o.first_link == 0
    &&& o.link_count == 0
    &&& o.events_per_message == 0
    &&& o.start_result == 0
    &&& o.end_result == 0
    &&& o.min_event_hits == 0
    &&& !o.get_match_links
    &&& !o.count_match_links
    &&& !o.get_link_tags
    &&& !o.get_target_tags
    &&& o.link_tag_filter@.len() == 0
    &&& o.linked_events_filter@.len() == 0
    &&& o.link_category@.len() == 0
    &&& o.owner@.len() == 0
    &&& o.owner_unique_id@.len() == 0
    &&& !o.get_event_object_count
    &&& !o.buffer_results
    &&& !o.include_tag_stats
    &&& !o.invert_hit_tag_filter
    &&& o.hit_tag_filter@.len() == 0
    &&& o.buffer_format@.len() == 0
}

/// The health probe for an actor: a count-only GetEventsForTags for a
/// fresh health-check tag when the actor runs a Neural Memory store, a
/// StatusRequest otherwise; addressed from `from_address` to the actor,
/// under a fresh message id.
pub open spec fn is_probe_for(
    m: Message,
    actor_address: Seq<char>,
    from_address: Seq<char>,
    client_name: Seq<char>,
    actor_type: Seq<char>,
) -> bool {
    &&& m.envelope.to@ == actor_address
    &&& m.envelope.from@ == from_address
    &&& m.envelope.client_name@ == client_name
    &&& is_uuid_v4_text(m.envelope.message_id@)
    &&& m.envelope.passcode@.len() == 0
    &&& m.envelope.user_name@.len() == 0
    &&& m.event is None
    &&& m.response is None
    &&& m.public_key is None
    &&& if is_neural_memory_type(actor_type) {
        &&& m.envelope.intent == spec_get_events_for_tags()
        &&& m.payload matches Some(p) && p.data matches PayloadData::Text(t) && is_health_clause(t@)
            && p.data_type == DataType::Raw && p.mime_type@.len() == 0 && p.data_size == 0
        &&& m.neural_memory matches Some(nm) && nm.get_events_for_tags matches Some(o)
            && is_count_only(o) && nm.get_event is None && nm.search is None && nm.link is None
            && nm.batch_links@.len() == 0 && nm.unlink is None && nm.tags@.len() == 0
            && nm.batch_events@.len() == 0
    } else {
        &&& m.envelope.intent == spec_status_request()
        &&& m.payload is None
        &&& m.neural_memory is None
    }
}

fn count_only_options() -> (r: GetEventsForTagsOptions)
    ensures
        is_count_only(r),
{
    GetEventsForTagsOptions {
        event_pattern: String::new(),
        event_pattern_high: String::new(),
        include_brief_hits: false,
        get_all_data: false,
        first_link: 0,
        link_count: 0,
        events_per_message: 0,
        start_result: 0,
        end_result: 0,
        min_event_hits: 0,
        count_only: true,
        get_match_links: false,
        count_match_links: false,
        get_link_tags: false,
        get_target_tags: false,
        link_tag_filter: String::new(),
        linked_events_filter: String::new(),
        link_category: String::new(),
        owner: String::new(),
        owner_unique_id: String::new(),
        get_event_object_count: false,
        buffer_results: false,
        include_tag_stats: false,
        invert_hit_tag_filter: false,
        hit_tag_filter: String::new(),
        buffer_format: String::new(),
    }
}

/// The health probe for one actor, chosen by its type.
pub fn build_actor_health_probe_message(
    actor_address: &str,
    from_address: &str,
    client_name: &str,
    actor_type: &str,
) -> (r: Message)
    ensures
        is_probe_for(r, actor_address@, from_address@, client_name@, actor_type@),
{
    let message_id = new_message_id();
    if is_neural_memory_backed_for_health_probe(actor_type) {
        let tag = new_message_id();
        let mut clause = chars_of("health_check=_podos_health_check_");
        append_str(&mut clause, tag.as_str());
        assert(clause@.skip(health_clause_prefix().len() as int) =~= tag@);
        assert(clause@.take(health_clause_prefix().len() as int) =~= health_clause_prefix());
        let envelope = Envelope {
            to: actor_address.to_owned(),
            from: from_address.to_owned(),
            intent: get_events_for_tags(),
            client_name: client_name.to_owned(),
            message_id,
            passcode: String::new(),
            user_name: String::new(),
        };
        let payload = PayloadFields {
            data: PayloadData::Text(string_from_chars(clause.as_slice())),
            data_type: DataType::Raw,
            mime_type: String::new(),
            data_size: 0,
        };
        let nm = NeuralMemoryFields {
            get_event: None,
            get_events_for_tags: Some(count_only_options()),
            search: None,
            link: None,
            batch_links: Vec::new(),
            unlink: None,
            tags: Vec::new(),
            batch_events: Vec::new(),
        };
        return Message {
            envelope,
            event: None,
            payload: Some(payload),
            neural_memory: Some(nm),
            response: None,
            public_key: None,
        };
    }
    Message {
        envelope: Envelope {
            to: actor_address.to_owned(),
            from: from_address.to_owned(),
            intent: status_request(),
            client_name: client_name.to_owned(),
            message_id,
            passcode: String::new(),
            user_name: String::new(),
        },
        event: None,
        payload: None,
        neural_memory: None,
        response: None,
        public_key: None,
    }
}

/// A probe succeeded when it went through and its reply, if any, does not
/// report `ERROR`.
pub open spec fn probe_ok(err: Option<GatewayDError>, resp: Option<Message>) -> bool {
    match err {
        Some(_) => false,
        None => match resp {
            Some(m) => m.spec_processing_status() != "ERROR"@,
            None => true,
        },
    }
}

/// Whether a probe's transport result and AIP status mean success.
pub fn actor_health_probe_succeeded(err: Option<&GatewayDError>, resp: Option<&Message>) -> (r:
    bool)
    ensures
        r == probe_ok(
            match err {
                Some(e) => Some(*e),
                None => None,
            },
            match resp {
                Some(m) => Some(*m),
                None => None,
            },
        ),
{
    if err.is_some() {
        return false;
    }
    match resp {
        Some(m) => !str_eq(m.processing_status(), "ERROR"),
        None => true,
    }
}

} // verus!
