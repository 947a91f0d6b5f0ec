//! Message validation: the checks a message must pass for its intent, and
//! the checks on a raw wire frame and its header.
//!
//! Validation is opt-in: every entry point takes whether it is enabled, and
//! gives no errors when it is not.  Each error names its severity, the
//! intent, the field and wire field concerned, the rule broken, what is
//! wrong, how to fix it and an example.

use vstd::prelude::*;

use crate::message::constants::{max_message_size, spec_max_message_size};
use crate::message::decoder::{
    cut_at_bar, decode_failure, decode_message_with_limit, decoded_intent, len_at, size_field,
};
use crate::message::errors::{msg_err_code_number, DecodeError, MsgErrCode};
use crate::message::header::Field;
use crate::message::intents::{
    actor_report, actor_request, actor_response, gateway_id, gateway_stream_off,
    gateway_stream_on, get_event, get_events_for_tags, link_event, spec_actor_report,
    spec_actor_request, spec_actor_response, spec_gateway_id, spec_gateway_stream_off,
    spec_gateway_stream_on, spec_get_event, spec_get_events_for_tags, spec_link_event,
    spec_status, spec_store_batch_events, spec_store_batch_links, spec_store_batch_tags,
    spec_store_event, spec_unlink_event, status, store_batch_events, store_batch_links,
    store_batch_tags, store_event, unlink_event, Intent,
};
use crate::message::records::{find1, has_key, text1, value_of};
use crate::text::lower_text;
use crate::message::types::{BatchEventSpec, BatchLinkEventSpec, Message, Tag};
use crate::message::wire::{len_field_value, pairs_view, parse_length_value, parse_tab_pairs, tab_pairs, Chars};
use crate::text::{
    append_str, chars_eq_str, chars_of, dec_digits, int_text, join_strings, joined, push_dec_digits, push_int,
    str_contains_char, str_eq, string_from_chars, string_from_utf8_lossy, utf8_text,
};

verus! {

// ── Errors ───────────────────────────────────────────────────────────────────

/// One validation finding.
#[derive(Debug, Clone)]
pub struct ValidationError {
    pub severity: String,
    pub intent: String,
    pub field: String,
    pub wire_field: String,
    pub rule: String,
    pub message: String,
    pub fix: String,
    pub example_code: String,
    pub references: Vec<String>,
}

pub type ValidationErrors = Vec<ValidationError>;

/// A validation finding as text.
pub struct ErrorView {
    pub severity: Seq<char>,
    pub intent: Seq<char>,
    pub field: Seq<char>,
    pub wire_field: Seq<char>,
    pub rule: Seq<char>,
    pub message: Seq<char>,
    pub fix: Seq<char>,
    pub example_code: Seq<char>,
    pub references: Seq<Seq<char>>,
}

impl View for ValidationError {
    type V = ErrorView;

    open spec fn view(&self) -> ErrorView {
        ErrorView {
            severity: self.severity@,
            intent: self.intent@,
            field: self.field@,
            wire_field: self.wire_field@,
            rule: self.rule@,
            message: self.message@,
            fix: self.fix@,
            example_code: self.example_code@,
            references: self.references@.map_values(|r: String| r@),
        }
    }
}

/// The findings as text.
pub open spec fn errs_view(v: Seq<ValidationError>) -> Seq<ErrorView> {
    v.map_values(|e: ValidationError| e@)
}

/// A finding without references.
pub open spec fn ev(
    severity: Seq<char>,
    intent: Seq<char>,
    field: Seq<char>,
    wire_field: Seq<char>,
    rule: Seq<char>,
    message: Seq<char>,
    fix: Seq<char>,
    example_code: Seq<char>,
) -> ErrorView {
    ErrorView {
        severity,
        intent,
        field,
        wire_field,
        rule,
        message,
        fix,
        example_code,
        references: Seq::empty(),
    }
}

/// The finding `e` when `c` holds.
pub open spec fn when(c: bool, e: ErrorView) -> Seq<ErrorView> {
    if c {
        seq![e]
    } else {
        Seq::empty()
    }
}

/// The finding for a required field left empty.
pub open spec fn req(
    intent: Seq<char>,
    field: Seq<char>,
    wire: Seq<char>,
    value: Seq<char>,
    message: Seq<char>,
) -> Seq<ErrorView> {
    when(
        value.len() == 0,
        ev(
            "error"@,
            intent,
            field,
            wire,
            "required"@,
            message,
            "Set the "@ + field + " field before encoding"@,
            ""@,
        ),
    )
}

fn push_err(
    errs: &mut Vec<ValidationError>,
    severity: &str,
    intent: &str,
    field: &str,
    wire_field: &str,
    rule: &str,
    message: &str,
    fix: &str,
    example_code: &str,
)
    ensures
        errs_view(final(errs)@) == errs_view(old(errs)@).push(
            ev(severity@, intent@, field@, wire_field@, rule@, message@, fix@, example_code@),
        ),
{
    let e = ValidationError {
        severity: severity.to_owned(),
        intent: intent.to_owned(),
        field: field.to_owned(),
        wire_field: wire_field.to_owned(),
        rule: rule.to_owned(),
        message: message.to_owned(),
        fix: fix.to_owned(),
        example_code: example_code.to_owned(),
        references: Vec::new(),
    };
    let ghost before = errs@;
    errs.push(e);
    assert(e@.references =~= Seq::<Seq<char>>::empty());
    assert(errs_view(errs@) =~= errs_view(before).push(
        ev(severity@, intent@, field@, wire_field@, rule@, message@, fix@, example_code@),
    ));
}

/// Records a finding when `cond` holds.
fn push_if(
    errs: &mut Vec<ValidationError>,
    cond: bool,
    severity: &str,
    intent: &str,
    field: &str,
    wire_field: &str,
    rule: &str,
    message: &str,
    fix: &str,
    example_code: &str,
)
    ensures
        errs_view(final(errs)@) == errs_view(old(errs)@) + when(
            cond,
            ev(severity@, intent@, field@, wire_field@, rule@, message@, fix@, example_code@),
        ),
{
    if cond {
        push_err(errs, severity, intent, field, wire_field, rule, message, fix, example_code);
    }
    assert(errs_view(final(errs)@) =~= errs_view(old(errs)@) + when(
        cond,
        ev(severity@, intent@, field@, wire_field@, rule@, message@, fix@, example_code@),
    ));
}

fn required_field(
    errs: &mut Vec<ValidationError>,
    intent: &str,
    field: &str,
    wire: &str,
    value: &str,
    msg: &str,
)
    ensures
        errs_view(final(errs)@) == errs_view(old(errs)@) + req(intent@, field@, wire@, value@, msg@),
{
    let mut fix = chars_of("Set the ");
    append_str(&mut fix, field);
    append_str(&mut fix, " field before encoding");
    let fix = string_from_chars(fix.as_slice());
    push_if(
        errs,
        value.is_empty(),
        "error",
        intent,
        field,
        wire,
        "required",
        msg,
        fix.as_str(),
        "",
    );
}

/// Appends the findings of `src`.
fn append_errors(dst: &mut Vec<ValidationError>, src: Vec<ValidationError>)
    ensures
        errs_view(final(dst)@) == errs_view(old(dst)@) + errs_view(src@),
{
    let mut src = src;
    let ghost s = src@;
    dst.append(&mut src);
    assert(errs_view(dst@) =~= errs_view(old(dst)@) + errs_view(s));
}

/// `<prefix><i><suffix>`.
fn indexed(prefix: &str, i: usize, suffix: &str) -> (r: String)
    ensures
        r@ == prefix@ + dec_digits(i as nat) + suffix@,
{
    let mut v = chars_of(prefix);
    push_dec_digits(&mut v, i as u64);
    append_str(&mut v, suffix);
    string_from_chars(v.as_slice())
}

// ── The setting ──────────────────────────────────────────────────────────────

/// Whether a `PODOS_VALIDATE` setting turns validation on: `1`, `true` or
/// `yes`, in any case.
pub open spec fn setting_enables(v: Seq<char>) -> bool {
    let l = lower_text(v);
    l == "1"@ || l == "true"@ || l == "yes"@
}

/// Whether validation is on, given the `PODOS_VALIDATE` setting (absent
/// means off).
pub fn validation_enabled(setting: Option<&str>) -> (r: bool)
    ensures
        r == (setting matches Some(v) && setting_enables(v@)),
{
    match setting {
        None => false,
        Some(v) => {
            let l = crate::text::lower_chars(v);
            chars_eq_str(l.as_slice(), "1") || chars_eq_str(l.as_slice(), "true") || chars_eq_str(
                l.as_slice(),
                "yes",
            )
        },
    }
}

// ── Struct-level checks ──────────────────────────────────────────────────────

/// The envelope checks: addresses, intent, and the client name of a
/// gateway identification.
pub open spec fn envelope_errors(m: Message) -> Seq<ErrorView> {
    Seq::<ErrorView>::empty()
        + when(m.envelope.to@.len() == 0, ev("error"@, m.envelope.intent.name@, "Envelope.To"@, "to"@, "required"@, "To address is required and is missing"@, "Set Envelope.To to \"actor@gateway\" format"@, "msg.envelope.to = \"actor@gateway.local\".into()"@))
        + when(m.envelope.to@.len() > 0 && !m.envelope.to@.contains('@'), ev("error"@, m.envelope.intent.name@, "Envelope.To"@, "to"@, "format"@, "To address must match name@gateway format"@, "Include '@' separator between actor name and gateway"@, "msg.envelope.to = \"actor@gateway.local\".into()"@))
        + when(m.envelope.from@.len() == 0, ev("error"@, m.envelope.intent.name@, "Envelope.From"@, "from"@, "required"@, "From address is required and is missing"@, "Set Envelope.From to \"client@gateway\" format"@, "msg.envelope.from = \"client@gateway.local\".into()"@))
        + when(m.envelope.from@.len() > 0 && !m.envelope.from@.contains('@'), ev("error"@, m.envelope.intent.name@, "Envelope.From"@, "from"@, "format"@, "From address must match name@gateway format"@, "Include '@' separator between client name and gateway"@, "msg.envelope.from = \"client@gateway.local\".into()"@))
        + when(m.envelope.intent.spec_is_zero(), ev("error"@, m.envelope.intent.name@, "Envelope.Intent"@, "intent"@, "required"@, "Intent must be non-zero (set to a valid intent)"@, "Assign an intent constant (e.g. intents::STORE_EVENT)"@, "msg.envelope.intent = intents::STORE_EVENT.clone()"@))
        + when(m.envelope.intent.same(spec_gateway_id()) && m.envelope.client_name@.len() == 0, ev("error"@, m.envelope.intent.name@, "Envelope.ClientName"@, "id:name"@, "required"@, "ClientName is required for GatewayId"@, "Set Envelope.ClientName to your client identifier"@, "msg.envelope.client_name = \"my-client\".into()"@))
}

/// The checks of a store-event request: its event and the fields stored with it.
pub open spec fn store_event_errors(m: Message) -> Seq<ErrorView> {
    match m.event {
        None => Seq::<ErrorView>::empty()
        + when(true, ev("error"@, "StoreEvent"@, "Message.Event"@, ""@, "nil_struct"@, "Event fields are required for StoreEvent"@, "Initialize msg.event = Some(EventFields { owner: ..., location: ..., .. })"@, ""@)),
        Some(e) => Seq::<ErrorView>::empty()
        + when(e.timestamp@.len() == 0, ev("warn"@, "StoreEvent"@, "Event.Timestamp"@, "timestamp"@, "required"@, "Timestamp is required; encoder auto-fills if empty but explicit is preferred"@, "Set Event.Timestamp to a UTC timestamp string"@, "event.timestamp = get_timestamp()"@))
        + when(e.owner@.len() == 0 && e.owner_unique_id@.len() == 0, ev("error"@, "StoreEvent"@, "Event.Owner/OwnerUniqueID"@, "owner/owner_unique_id"@, "one_of_required"@, "Either Owner or OwnerUniqueID is required for StoreEvent"@, "Set event.owner or event.owner_unique_id"@, "event.owner = \"owner-id\".into()"@))
        + req("StoreEvent"@, "Event.Location"@, "loc"@, e.location@, "Location is required for StoreEvent"@)
        + req("StoreEvent"@, "Event.LocationSeparator"@, "loc_delim"@, e.location_separator@, "LocationSeparator is required for StoreEvent"@),
    }
}

/// The checks of a get-event request: an event identified by id or unique id.
pub open spec fn get_event_errors(m: Message) -> Seq<ErrorView> {
    match m.event {
        None => Seq::<ErrorView>::empty()
        + when(true, ev("error"@, "GetEvent"@, "Message.Event"@, ""@, "nil_struct"@, "Event fields are required for GetEvent (to identify the event)"@, "Initialize msg.event = Some(EventFields { id: ... OR unique_id: ... })"@, ""@)),
        Some(e) => Seq::<ErrorView>::empty()
        + when(e.id@.len() == 0 && e.unique_id@.len() == 0, ev("error"@, "GetEvent"@, "Event.Id/UniqueId"@, "event_id/unique_id"@, "one_of_required"@, "Either Event.Id or Event.UniqueId is required to identify the event"@, "Set event.id or event.unique_id"@, ""@)),
    }
}

/// The checks of a get-events-for-tags request: its options.
pub open spec fn get_events_for_tags_errors(m: Message) -> Seq<ErrorView> {
    match m.neural_memory {
        None => Seq::<ErrorView>::empty()
        + when(true, ev("error"@, "GetEventsForTags"@, "Message.NeuralMemory"@, ""@, "nil_struct"@, "NeuralMemory is required for GetEventsForTags"@, "Initialize msg.neural_memory = Some(NeuralMemoryFields { get_events_for_tags: Some(...), .. })"@, ""@)),
        Some(nm) => Seq::<ErrorView>::empty()
        + when(nm.get_events_for_tags is None, ev("error"@, "GetEventsForTags"@, "NeuralMemory.GetEventsForTags"@, ""@, "nil_struct"@, "GetEventsForTags options struct is required"@, "Initialize neural_memory.get_events_for_tags = Some(GetEventsForTagsOptions { ... })"@, ""@)),
    }
}

/// The checks of a link request: its endpoints, category, time, location and owner.
pub open spec fn link_event_errors(m: Message) -> Seq<ErrorView> {
    match m.spec_link() {
        None => Seq::<ErrorView>::empty()
        + when(true, ev("error"@, "LinkEvent"@, "NeuralMemory.Link"@, ""@, "nil_struct"@, "Link fields are required for LinkEvent"@, "Initialize neural_memory.link = Some(LinkFields { ... })"@, ""@)),
        Some(l) => Seq::<ErrorView>::empty()
        + when(!(l.event_a@.len() > 0 && l.event_b@.len() > 0) && !(l.unique_id_a@.len() > 0 && l.unique_id_b@.len() > 0), ev("error"@, "LinkEvent"@, "Link.EventA+EventB / UniqueIdA+UniqueIdB"@, "event_id_a+event_id_b / unique_id_a+unique_id_b"@, "one_of_required"@, "Either (EventA and EventB) or (UniqueIdA and UniqueIdB) are required"@, "Set link.event_a + link.event_b, or link.unique_id_a + link.unique_id_b"@, ""@))
        + req("LinkEvent"@, "Link.Category"@, "category"@, l.category@, "Category is required for LinkEvent"@)
        + req("LinkEvent"@, "Link.Timestamp"@, "timestamp"@, l.timestamp@, "Timestamp is required for LinkEvent (belongs to Link, not Event)"@)
        + req("LinkEvent"@, "Link.Location"@, "loc"@, l.location@, "Location is required for LinkEvent"@)
        + req("LinkEvent"@, "Link.LocationSeparator"@, "loc_delim"@, l.location_separator@, "LocationSeparator is required for LinkEvent"@)
        + when(l.owner_id@.len() == 0 && l.owner_unique_id@.len() == 0, ev("error"@, "LinkEvent"@, "Link.OwnerID/OwnerUniqueID"@, "owner_event_id/owner_unique_id"@, "one_of_required"@, "Either OwnerID or OwnerUniqueID is required for LinkEvent"@, "Set link.owner_id or link.owner_unique_id"@, ""@)),
    }
}

/// The checks of an unlink request: the link to remove, identified by id or unique id.
pub open spec fn unlink_event_errors(m: Message) -> Seq<ErrorView> {
    match m.spec_link() {
        None => Seq::<ErrorView>::empty()
        + when(true, ev("error"@, "UnlinkEvent"@, "NeuralMemory.Link"@, ""@, "nil_struct"@, "Link fields are required for UnlinkEvent (set neural_memory.link, not unlink)"@, "Initialize neural_memory.link = Some(LinkFields { id: ... OR unique_id: ... })"@, ""@)),
        Some(l) => Seq::<ErrorView>::empty()
        + when(l.id@.len() == 0 && l.unique_id@.len() == 0, ev("error"@, "UnlinkEvent"@, "Link.Id/UniqueId"@, "event_id/unique_id"@, "one_of_required"@, "Either Link.Id or Link.UniqueId is required to identify the link event"@, "Set link.id or link.unique_id"@, ""@))
        + when(l.location@.len() > 0 && l.location_separator@.len() == 0, ev("error"@, "UnlinkEvent"@, "Link.LocationSeparator"@, "loc_delim"@, "required"@, "LocationSeparator is required when Location is provided"@, "Set link.location_separator (e.g. \"|\")"@, ""@)),
    }
}

/// The checks of an actor report: a response with status and message.
pub open spec fn actor_report_errors(m: Message) -> Seq<ErrorView> {
    match m.response {
        None => Seq::<ErrorView>::empty()
        + when(true, ev("error"@, "ActorReport"@, "Message.Response"@, ""@, "nil_struct"@, "Response fields are required for ActorReport"@, "Initialize msg.response = Some(ResponseFields { status: ..., message: ... })"@, ""@)),
        Some(r) => Seq::<ErrorView>::empty()
        + req("ActorReport"@, "Response.Status"@, "_status"@, r.status@, "Response status is required for ActorReport"@)
        + req("ActorReport"@, "Response.Message"@, "_msg"@, r.message@, "Response message is required for ActorReport"@),
    }
}

/// The checks of a response intent: a response, preferably with a status.
pub open spec fn response_intent_errors(m: Message) -> Seq<ErrorView> {
    match m.response {
        None => Seq::<ErrorView>::empty()
        + when(true, ev("error"@, m.envelope.intent.name@, "Message.Response"@, ""@, "nil_struct"@, "Response fields are required for response intents"@, "Initialize msg.response = Some(ResponseFields { status: ... })"@, ""@)),
        Some(r) => Seq::<ErrorView>::empty()
        + when(r.status@.len() == 0, ev("warn"@, m.envelope.intent.name@, "Response.Status"@, "_status"@, "required"@, "Response.Status should be set for response intents"@, "Set response.status (e.g. \"OK\" or \"ERROR\")"@, ""@)),
    }
}

/// The checks of a gateway identification: user name and passcode go
/// together.
pub open spec fn gateway_id_errors(m: Message) -> Seq<ErrorView> {
    Seq::<ErrorView>::empty()
        + when(m.envelope.passcode@.len() > 0 && m.envelope.user_name@.len() == 0, ev("error"@, "GatewayId"@, "Envelope.UserName"@, "id:user"@, "required"@, "UserName is required when Passcode is provided"@, "Set Envelope.UserName"@, "msg.envelope.user_name = \"username\".into()"@))
        + when(m.envelope.user_name@.len() > 0 && m.envelope.passcode@.len() == 0, ev("error"@, "GatewayId"@, "Envelope.Passcode"@, "id:passcode"@, "required"@, "Passcode is required when UserName is provided"@, "Set Envelope.Passcode"@, "msg.envelope.passcode = \"passcode\".into()"@))
}

/// The checks of batch event `i`.
pub open spec fn batch_event_item_errors(x: BatchEventSpec, i: int) -> Seq<ErrorView> {
    let e = x.event;
    Seq::<ErrorView>::empty()
        + when(e.timestamp@.len() == 0, ev("warn"@, "StoreBatchEvents"@, ("NeuralMemory.BatchEvents["@ + dec_digits(i as nat) + "].Event.Timestamp"@), "timestamp"@, "required"@, ("Timestamp is required for batch event "@ + dec_digits(i as nat) + ""@), "Set event.timestamp"@, ""@))
        + when(e.owner@.len() == 0 && e.owner_unique_id@.len() == 0, ev("error"@, "StoreBatchEvents"@, ("NeuralMemory.BatchEvents["@ + dec_digits(i as nat) + "].Event.Owner/OwnerUniqueID"@), "owner/owner_unique_id"@, "one_of_required"@, ("Either Owner or OwnerUniqueID is required for batch event "@ + dec_digits(i as nat) + ""@), "Set event.owner or event.owner_unique_id"@, ""@))
        + when(e.location@.len() == 0, ev("error"@, "StoreBatchEvents"@, ("NeuralMemory.BatchEvents["@ + dec_digits(i as nat) + "].Event.Location"@), "loc"@, "required"@, ("Location is required for batch event "@ + dec_digits(i as nat) + ""@), "Set event.location"@, ""@))
        + when(e.location_separator@.len() == 0, ev("error"@, "StoreBatchEvents"@, ("NeuralMemory.BatchEvents["@ + dec_digits(i as nat) + "].Event.LocationSeparator"@), "loc_delim"@, "required"@, ("LocationSeparator is required for batch event "@ + dec_digits(i as nat) + ""@), "Set event.location_separator"@, ""@))
}

pub open spec fn batch_event_items_errors(xs: Seq<BatchEventSpec>, n: nat) -> Seq<ErrorView>
    decreases n,
{
    if n == 0 {
        Seq::empty()
    } else {
        batch_event_items_errors(xs, (n - 1) as nat) + batch_event_item_errors(xs[n - 1], n - 1)
    }
}

/// The checks of batch link `i`.
pub open spec fn batch_link_item_errors(x: BatchLinkEventSpec, i: int) -> Seq<ErrorView> {
    let e = x.event;
    let l = x.link;
    Seq::<ErrorView>::empty()
        + when(e.timestamp@.len() == 0, ev("error"@, "StoreBatchLinks"@, ("NeuralMemory.BatchLinks["@ + dec_digits(i as nat) + "].Event.Timestamp"@), "timestamp"@, "required"@, ("Event timestamp is required for batch link "@ + dec_digits(i as nat) + ""@), "Set event.timestamp"@, ""@))
        + when(e.owner@.len() == 0 && e.owner_unique_id@.len() == 0, ev("error"@, "StoreBatchLinks"@, ("NeuralMemory.BatchLinks["@ + dec_digits(i as nat) + "].Event.Owner/OwnerUniqueID"@), "owner/owner_unique_id"@, "one_of_required"@, ("Either event Owner or OwnerUniqueID is required for batch link "@ + dec_digits(i as nat) + ""@), "Set event.owner or event.owner_unique_id"@, ""@))
        + when(e.location@.len() == 0, ev("error"@, "StoreBatchLinks"@, ("NeuralMemory.BatchLinks["@ + dec_digits(i as nat) + "].Event.Location"@), "loc"@, "required"@, ("Event location is required for batch link "@ + dec_digits(i as nat) + ""@), "Set event.location"@, ""@))
        + when(e.location_separator@.len() == 0, ev("error"@, "StoreBatchLinks"@, ("NeuralMemory.BatchLinks["@ + dec_digits(i as nat) + "].Event.LocationSeparator"@), "loc_delim"@, "required"@, ("Event location separator is required for batch link "@ + dec_digits(i as nat) + ""@), "Set event.location_separator"@, ""@))
        + when(l.timestamp@.len() == 0, ev("error"@, "StoreBatchLinks"@, ("NeuralMemory.BatchLinks["@ + dec_digits(i as nat) + "].Link.Timestamp"@), "timestamp"@, "required"@, ("Link timestamp is required for batch link "@ + dec_digits(i as nat) + " (not auto-generated)"@), "Set link.timestamp explicitly"@, ""@))
        + when(!(l.event_a@.len() > 0 && l.event_b@.len() > 0) && !(l.unique_id_a@.len() > 0 && l.unique_id_b@.len() > 0), ev("error"@, "StoreBatchLinks"@, ("NeuralMemory.BatchLinks["@ + dec_digits(i as nat) + "].Link.EventA+EventB / UniqueIdA+UniqueIdB"@), "event_id_a+event_id_b / unique_id_a+unique_id_b"@, "one_of_required"@, ("Either (EventA+EventB) or (UniqueIdA+UniqueIdB) required for batch link "@ + dec_digits(i as nat) + ""@), "Set link.event_a+link.event_b or link.unique_id_a+link.unique_id_b"@, ""@))
        + when(l.category@.len() == 0, ev("error"@, "StoreBatchLinks"@, ("NeuralMemory.BatchLinks["@ + dec_digits(i as nat) + "].Link.Category"@), "category"@, "required"@, ("Link category is required for batch link "@ + dec_digits(i as nat) + ""@), "Set link.category"@, ""@))
        + when(l.owner_id@.len() == 0 && l.owner_unique_id@.len() == 0, ev("error"@, "StoreBatchLinks"@, ("NeuralMemory.BatchLinks["@ + dec_digits(i as nat) + "].Link.OwnerID/OwnerUniqueID"@), "owner_event_id/owner_unique_id"@, "one_of_required"@, ("Either link OwnerID or OwnerUniqueID is required for batch link "@ + dec_digits(i as nat) + ""@), "Set link.owner_id or link.owner_unique_id"@, ""@))
        + when(l.location@.len() == 0, ev("error"@, "StoreBatchLinks"@, ("NeuralMemory.BatchLinks["@ + dec_digits(i as nat) + "].Link.Location"@), "loc"@, "required"@, ("Link location is required for batch link "@ + dec_digits(i as nat) + ""@), "Set link.location"@, ""@))
        + when(l.location_separator@.len() == 0, ev("error"@, "StoreBatchLinks"@, ("NeuralMemory.BatchLinks["@ + dec_digits(i as nat) + "].Link.LocationSeparator"@), "loc_delim"@, "required"@, ("Link location separator is required for batch link "@ + dec_digits(i as nat) + ""@), "Set link.location_separator"@, ""@))
}

pub open spec fn batch_link_items_errors(xs: Seq<BatchLinkEventSpec>, n: nat) -> Seq<ErrorView>
    decreases n,
{
    if n == 0 {
        Seq::empty()
    } else {
        batch_link_items_errors(xs, (n - 1) as nat) + batch_link_item_errors(xs[n - 1], n - 1)
    }
}

/// The checks of tag `i` of a batch.
pub open spec fn batch_tag_item_errors(x: Tag, i: int) -> Seq<ErrorView> {
    let t = x;
    Seq::<ErrorView>::empty()
        + when(t.key@.len() == 0, ev("error"@, "StoreBatchTags"@, ("NeuralMemory.Tags["@ + dec_digits(i as nat) + "].Key"@), "key"@, "payload_format"@, ("Tag key must not be empty at index "@ + dec_digits(i as nat) + ""@), "Set tag.key to a non-empty string"@, ""@))
}

pub open spec fn batch_tag_items_errors(xs: Seq<Tag>, n: nat) -> Seq<ErrorView>
    decreases n,
{
    if n == 0 {
        Seq::empty()
    } else {
        batch_tag_items_errors(xs, (n - 1) as nat) + batch_tag_item_errors(xs[n - 1], n - 1)
    }
}

/// The checks of a batch event store: at least one event, each with time, owner and location.
pub open spec fn store_batch_events_errors(m: Message) -> Seq<ErrorView> {
    Seq::<ErrorView>::empty() + match m.neural_memory {
        None => Seq::<ErrorView>::empty()
        + when(true, ev("error"@, "StoreBatchEvents"@, "Message.NeuralMemory"@, ""@, "nil_struct"@, "NeuralMemory is required for StoreBatchEvents"@, "Initialize msg.neural_memory with batch_events"@, ""@)),
        Some(nm) => if nm.batch_events@.len() == 0 {
            Seq::<ErrorView>::empty()
        + when(true, ev("error"@, "StoreBatchEvents"@, "NeuralMemory.BatchEvents"@, ""@, "required"@, "At least one BatchEventSpec is required"@, "Push events into neural_memory.batch_events"@, ""@))
        } else {
            batch_event_items_errors(nm.batch_events@, nm.batch_events@.len())
        },
    }
}

/// The checks of a batch link store: at least one link, each with its event and link fields.
pub open spec fn store_batch_links_errors(m: Message) -> Seq<ErrorView> {
    Seq::<ErrorView>::empty() + match m.neural_memory {
        None => Seq::<ErrorView>::empty()
        + when(true, ev("error"@, "StoreBatchLinks"@, "Message.NeuralMemory"@, ""@, "nil_struct"@, "NeuralMemory is required for StoreBatchLinks"@, "Initialize msg.neural_memory with batch_links"@, ""@)),
        Some(nm) => if nm.batch_links@.len() == 0 {
            Seq::<ErrorView>::empty()
        + when(true, ev("error"@, "StoreBatchLinks"@, "NeuralMemory.BatchLinks"@, ""@, "required"@, "At least one BatchLinkEventSpec is required"@, "Push specs into neural_memory.batch_links"@, ""@))
        } else {
            batch_link_items_errors(nm.batch_links@, nm.batch_links@.len())
        },
    }
}

/// The checks of a batch tag store: the target event, its owner and at least one tag, each with a key.
pub open spec fn store_batch_tags_errors(m: Message) -> Seq<ErrorView> {
    Seq::<ErrorView>::empty()
        + when(!(m.event matches Some(e) && (e.id@.len() > 0 || e.unique_id@.len() > 0)), ev("error"@, "StoreBatchTags"@, "Event.Id/UniqueId"@, "event_id/unique_id"@, "one_of_required"@, "Either Event.Id or Event.UniqueId is required to identify the target event"@, "Set event.id or event.unique_id"@, ""@))
        + when(!(m.event matches Some(e) && (e.owner@.len() > 0 || e.owner_unique_id@.len() > 0)), ev("error"@, "StoreBatchTags"@, "Event.Owner/OwnerUniqueID"@, "owner/owner_unique_id"@, "one_of_required"@, "Either Owner or OwnerUniqueID is required for StoreBatchTags"@, "Set event.owner or event.owner_unique_id"@, ""@)) + match m.neural_memory {
        None => Seq::<ErrorView>::empty()
        + when(true, ev("error"@, "StoreBatchTags"@, "Message.NeuralMemory"@, ""@, "nil_struct"@, "NeuralMemory is required for StoreBatchTags"@, "Initialize msg.neural_memory with tags"@, ""@)),
        Some(nm) => if nm.tags@.len() == 0 {
            Seq::<ErrorView>::empty()
        + when(true, ev("error"@, "StoreBatchTags"@, "NeuralMemory.Tags"@, ""@, "required"@, "Tags list must not be empty"@, "Push tags into neural_memory.tags"@, ""@))
        } else {
            batch_tag_items_errors(nm.tags@, nm.tags@.len())
        },
    }
}

fn validate_envelope(msg: &Message, errs: &mut Vec<ValidationError>)
    ensures
        errs_view(final(errs)@) == errs_view(old(errs)@) + envelope_errors(*msg),
{
    let mut out: Vec<ValidationError> = Vec::new();
    push_if(&mut out, msg.envelope.to.as_str().is_empty(), "error", msg.envelope.intent.name, "Envelope.To", "to", "required", "To address is required and is missing", "Set Envelope.To to \"actor@gateway\" format", "msg.envelope.to = \"actor@gateway.local\".into()");
    push_if(&mut out, !msg.envelope.to.as_str().is_empty() && !str_contains_char(msg.envelope.to.as_str(), '@'), "error", msg.envelope.intent.name, "Envelope.To", "to", "format", "To address must match name@gateway format", "Include '@' separator between actor name and gateway", "msg.envelope.to = \"actor@gateway.local\".into()");
    push_if(&mut out, msg.envelope.from.as_str().is_empty(), "error", msg.envelope.intent.name, "Envelope.From", "from", "required", "From address is required and is missing", "Set Envelope.From to \"client@gateway\" format", "msg.envelope.from = \"client@gateway.local\".into()");
    push_if(&mut out, !msg.envelope.from.as_str().is_empty() && !str_contains_char(msg.envelope.from.as_str(), '@'), "error", msg.envelope.intent.name, "Envelope.From", "from", "format", "From address must match name@gateway format", "Include '@' separator between client name and gateway", "msg.envelope.from = \"client@gateway.local\".into()");
    push_if(&mut out, msg.envelope.intent.is_zero(), "error", msg.envelope.intent.name, "Envelope.Intent", "intent", "required", "Intent must be non-zero (set to a valid intent)", "Assign an intent constant (e.g. intents::STORE_EVENT)", "msg.envelope.intent = intents::STORE_EVENT.clone()");
    push_if(&mut out, msg.envelope.intent == gateway_id() && msg.envelope.client_name.as_str().is_empty(), "error", msg.envelope.intent.name, "Envelope.ClientName", "id:name", "required", "ClientName is required for GatewayId", "Set Envelope.ClientName to your client identifier", "msg.envelope.client_name = \"my-client\".into()");
    append_errors(errs, out);
}

fn validate_store_event(msg: &Message, errs: &mut Vec<ValidationError>)
    ensures
        errs_view(final(errs)@) == errs_view(old(errs)@) + store_event_errors(*msg),
{
    let mut out: Vec<ValidationError> = Vec::new();
    match &msg.event {
        None => {
            push_if(&mut out, true, "error", "StoreEvent", "Message.Event", "", "nil_struct", "Event fields are required for StoreEvent", "Initialize msg.event = Some(EventFields { owner: ..., location: ..., .. })", "");
        },
        Some(e) => {
            push_if(&mut out, e.timestamp.as_str().is_empty(), "warn", "StoreEvent", "Event.Timestamp", "timestamp", "required", "Timestamp is required; encoder auto-fills if empty but explicit is preferred", "Set Event.Timestamp to a UTC timestamp string", "event.timestamp = get_timestamp()");
            push_if(&mut out, e.owner.as_str().is_empty() && e.owner_unique_id.as_str().is_empty(), "error", "StoreEvent", "Event.Owner/OwnerUniqueID", "owner/owner_unique_id", "one_of_required", "Either Owner or OwnerUniqueID is required for StoreEvent", "Set event.owner or event.owner_unique_id", "event.owner = \"owner-id\".into()");
            required_field(&mut out, "StoreEvent", "Event.Location", "loc", e.location.as_str(), "Location is required for StoreEvent");
            required_field(&mut out, "StoreEvent", "Event.LocationSeparator", "loc_delim", e.location_separator.as_str(), "LocationSeparator is required for StoreEvent");
        },
    }
    append_errors(errs, out);
}

fn validate_get_event(msg: &Message, errs: &mut Vec<ValidationError>)
    ensures
        errs_view(final(errs)@) == errs_view(old(errs)@) + get_event_errors(*msg),
{
    let mut out: Vec<ValidationError> = Vec::new();
    match &msg.event {
        None => {
            push_if(&mut out, true, "error", "GetEvent", "Message.Event", "", "nil_struct", "Event fields are required for GetEvent (to identify the event)", "Initialize msg.event = Some(EventFields { id: ... OR unique_id: ... })", "");
        },
        Some(e) => {
            push_if(&mut out, e.id.as_str().is_empty() && e.unique_id.as_str().is_empty(), "error", "GetEvent", "Event.Id/UniqueId", "event_id/unique_id", "one_of_required", "Either Event.Id or Event.UniqueId is required to identify the event", "Set event.id or event.unique_id", "");
        },
    }
    append_errors(errs, out);
}

fn validate_get_events_for_tags(msg: &Message, errs: &mut Vec<ValidationError>)
    ensures
        errs_view(final(errs)@) == errs_view(old(errs)@) + get_events_for_tags_errors(*msg),
{
    let mut out: Vec<ValidationError> = Vec::new();
    match &msg.neural_memory {
        None => {
            push_if(&mut out, true, "error", "GetEventsForTags", "Message.NeuralMemory", "", "nil_struct", "NeuralMemory is required for GetEventsForTags", "Initialize msg.neural_memory = Some(NeuralMemoryFields { get_events_for_tags: Some(...), .. })", "");
        },
        Some(nm) => {
            push_if(&mut out, nm.get_events_for_tags.is_none(), "error", "GetEventsForTags", "NeuralMemory.GetEventsForTags", "", "nil_struct", "GetEventsForTags options struct is required", "Initialize neural_memory.get_events_for_tags = Some(GetEventsForTagsOptions { ... })", "");
        },
    }
    append_errors(errs, out);
}

fn validate_link_event(msg: &Message, errs: &mut Vec<ValidationError>)
    ensures
        errs_view(final(errs)@) == errs_view(old(errs)@) + link_event_errors(*msg),
{
    let mut out: Vec<ValidationError> = Vec::new();
    match msg.link() {
        None => {
            push_if(&mut out, true, "error", "LinkEvent", "NeuralMemory.Link", "", "nil_struct", "Link fields are required for LinkEvent", "Initialize neural_memory.link = Some(LinkFields { ... })", "");
        },
        Some(l) => {
            push_if(&mut out, !(!l.event_a.as_str().is_empty() && !l.event_b.as_str().is_empty()) && !(!l.unique_id_a.as_str().is_empty() && !l.unique_id_b.as_str().is_empty()), "error", "LinkEvent", "Link.EventA+EventB / UniqueIdA+UniqueIdB", "event_id_a+event_id_b / unique_id_a+unique_id_b", "one_of_required", "Either (EventA and EventB) or (UniqueIdA and UniqueIdB) are required", "Set link.event_a + link.event_b, or link.unique_id_a + link.unique_id_b", "");
            required_field(&mut out, "LinkEvent", "Link.Category", "category", l.category.as_str(), "Category is required for LinkEvent");
            required_field(&mut out, "LinkEvent", "Link.Timestamp", "timestamp", l.timestamp.as_str(), "Timestamp is required for LinkEvent (belongs to Link, not Event)");
            required_field(&mut out, "LinkEvent", "Link.Location", "loc", l.location.as_str(), "Location is required for LinkEvent");
            required_field(&mut out, "LinkEvent", "Link.LocationSeparator", "loc_delim", l.location_separator.as_str(), "LocationSeparator is required for LinkEvent");
            push_if(&mut out, l.owner_id.as_str().is_empty() && l.owner_unique_id.as_str().is_empty(), "error", "LinkEvent", "Link.OwnerID/OwnerUniqueID", "owner_event_id/owner_unique_id", "one_of_required", "Either OwnerID or OwnerUniqueID is required for LinkEvent", "Set link.owner_id or link.owner_unique_id", "");
        },
    }
    append_errors(errs, out);
}

fn validate_unlink_event(msg: &Message, errs: &mut Vec<ValidationError>)
    ensures
        errs_view(final(errs)@) == errs_view(old(errs)@) + unlink_event_errors(*msg),
{
    let mut out: Vec<ValidationError> = Vec::new();
    match msg.link() {
        None => {
            push_if(&mut out, true, "error", "UnlinkEvent", "NeuralMemory.Link", "", "nil_struct", "Link fields are required for UnlinkEvent (set neural_memory.link, not unlink)", "Initialize neural_memory.link = Some(LinkFields { id: ... OR unique_id: ... })", "");
        },
        Some(l) => {
            push_if(&mut out, l.id.as_str().is_empty() && l.unique_id.as_str().is_empty(), "error", "UnlinkEvent", "Link.Id/UniqueId", "event_id/unique_id", "one_of_required", "Either Link.Id or Link.UniqueId is required to identify the link event", "Set link.id or link.unique_id", "");
            push_if(&mut out, !l.location.as_str().is_empty() && l.location_separator.as_str().is_empty(), "error", "UnlinkEvent", "Link.LocationSeparator", "loc_delim", "required", "LocationSeparator is required when Location is provided", "Set link.location_separator (e.g. \"|\")", "");
        },
    }
    append_errors(errs, out);
}

fn validate_actor_report(msg: &Message, errs: &mut Vec<ValidationError>)
    ensures
        errs_view(final(errs)@) == errs_view(old(errs)@) + actor_report_errors(*msg),
{
    let mut out: Vec<ValidationError> = Vec::new();
    match &msg.response {
        None => {
            push_if(&mut out, true, "error", "ActorReport", "Message.Response", "", "nil_struct", "Response fields are required for ActorReport", "Initialize msg.response = Some(ResponseFields { status: ..., message: ... })", "");
        },
        Some(r) => {
            required_field(&mut out, "ActorReport", "Response.Status", "_status", r.status.as_str(), "Response status is required for ActorReport");
            required_field(&mut out, "ActorReport", "Response.Message", "_msg", r.message.as_str(), "Response message is required for ActorReport");
        },
    }
    append_errors(errs, out);
}

fn validate_response_intent(msg: &Message, errs: &mut Vec<ValidationError>)
    ensures
        errs_view(final(errs)@) == errs_view(old(errs)@) + response_intent_errors(*msg),
{
    let mut out: Vec<ValidationError> = Vec::new();
    match &msg.response {
        None => {
            push_if(&mut out, true, "error", msg.envelope.intent.name, "Message.Response", "", "nil_struct", "Response fields are required for response intents", "Initialize msg.response = Some(ResponseFields { status: ... })", "");
        },
        Some(r) => {
            push_if(&mut out, r.status.as_str().is_empty(), "warn", msg.envelope.intent.name, "Response.Status", "_status", "required", "Response.Status should be set for response intents", "Set response.status (e.g. \"OK\" or \"ERROR\")", "");
        },
    }
    append_errors(errs, out);
}

fn validate_gateway_id(msg: &Message, errs: &mut Vec<ValidationError>)
    ensures
        errs_view(final(errs)@) == errs_view(old(errs)@) + gateway_id_errors(*msg),
{
    let mut out: Vec<ValidationError> = Vec::new();
    push_if(&mut out, !msg.envelope.passcode.as_str().is_empty() && msg.envelope.user_name.as_str().is_empty(), "error", "GatewayId", "Envelope.UserName", "id:user", "required", "UserName is required when Passcode is provided", "Set Envelope.UserName", "msg.envelope.user_name = \"username\".into()");
    push_if(&mut out, !msg.envelope.user_name.as_str().is_empty() && msg.envelope.passcode.as_str().is_empty(), "error", "GatewayId", "Envelope.Passcode", "id:passcode", "required", "Passcode is required when UserName is provided", "Set Envelope.Passcode", "msg.envelope.passcode = \"passcode\".into()");
    append_errors(errs, out);
}

fn batch_event_item(x: &BatchEventSpec, i: usize) -> (r: Vec<ValidationError>)
    ensures
        errs_view(r@) == batch_event_item_errors(*x, i as int),
{
    let e = &x.event;
    let mut out: Vec<ValidationError> = Vec::new();
    let s1 = indexed("NeuralMemory.BatchEvents[", i, "].Event.Timestamp");
    let s2 = indexed("Timestamp is required for batch event ", i, "");
    push_if(&mut out, e.timestamp.as_str().is_empty(), "warn", "StoreBatchEvents", s1.as_str(), "timestamp", "required", s2.as_str(), "Set event.timestamp", "");
    let s3 = indexed("NeuralMemory.BatchEvents[", i, "].Event.Owner/OwnerUniqueID");
    let s4 = indexed("Either Owner or OwnerUniqueID is required for batch event ", i, "");
    push_if(&mut out, e.owner.as_str().is_empty() && e.owner_unique_id.as_str().is_empty(), "error", "StoreBatchEvents", s3.as_str(), "owner/owner_unique_id", "one_of_required", s4.as_str(), "Set event.owner or event.owner_unique_id", "");
    let s5 = indexed("NeuralMemory.BatchEvents[", i, "].Event.Location");
    let s6 = indexed("Location is required for batch event ", i, "");
    push_if(&mut out, e.location.as_str().is_empty(), "error", "StoreBatchEvents", s5.as_str(), "loc", "required", s6.as_str(), "Set event.location", "");
    let s7 = indexed("NeuralMemory.BatchEvents[", i, "].Event.LocationSeparator");
    let s8 = indexed("LocationSeparator is required for batch event ", i, "");
    push_if(&mut out, e.location_separator.as_str().is_empty(), "error", "StoreBatchEvents", s7.as_str(), "loc_delim", "required", s8.as_str(), "Set event.location_separator", "");
    out
}

fn batch_event_items(xs: &Vec<BatchEventSpec>) -> (r: Vec<ValidationError>)
    ensures
        errs_view(r@) == batch_event_items_errors(xs@, xs@.len()),
{
    let mut out: Vec<ValidationError> = Vec::new();
    let n = xs.len();
    let mut i: usize = 0;
    while i < n
        invariant
            i <= n == xs@.len(),
            errs_view(out@) == batch_event_items_errors(xs@, i as nat),
        decreases n - i,
    {
        let item = batch_event_item(&xs[i], i);
        append_errors(&mut out, item);
        i = i + 1;
    }
    out
}

fn batch_link_item(x: &BatchLinkEventSpec, i: usize) -> (r: Vec<ValidationError>)
    ensures
        errs_view(r@) == batch_link_item_errors(*x, i as int),
{
    let e = &x.event;
    let l = &x.link;
    let mut out: Vec<ValidationError> = Vec::new();
    let s9 = indexed("NeuralMemory.BatchLinks[", i, "].Event.Timestamp");
    let s10 = indexed("Event timestamp is required for batch link ", i, "");
    push_if(&mut out, e.timestamp.as_str().is_empty(), "error", "StoreBatchLinks", s9.as_str(), "timestamp", "required", s10.as_str(), "Set event.timestamp", "");
    let s11 = indexed("NeuralMemory.BatchLinks[", i, "].Event.Owner/OwnerUniqueID");
    let s12 = indexed("Either event Owner or OwnerUniqueID is required for batch link ", i, "");
    push_if(&mut out, e.owner.as_str().is_empty() && e.owner_unique_id.as_str().is_empty(), "error", "StoreBatchLinks", s11.as_str(), "owner/owner_unique_id", "one_of_required", s12.as_str(), "Set event.owner or event.owner_unique_id", "");
    let s13 = indexed("NeuralMemory.BatchLinks[", i, "].Event.Location");
    let s14 = indexed("Event location is required for batch link ", i, "");
    push_if(&mut out, e.location.as_str().is_empty(), "error", "StoreBatchLinks", s13.as_str(), "loc", "required", s14.as_str(), "Set event.location", "");
    let s15 = indexed("NeuralMemory.BatchLinks[", i, "].Event.LocationSeparator");
    let s16 = indexed("Event location separator is required for batch link ", i, "");
    push_if(&mut out, e.location_separator.as_str().is_empty(), "error", "StoreBatchLinks", s15.as_str(), "loc_delim", "required", s16.as_str(), "Set event.location_separator", "");
    let s17 = indexed("NeuralMemory.BatchLinks[", i, "].Link.Timestamp");
    let s18 = indexed("Link timestamp is required for batch link ", i, " (not auto-generated)");
    push_if(&mut out, l.timestamp.as_str().is_empty(), "error", "StoreBatchLinks", s17.as_str(), "timestamp", "required", s18.as_str(), "Set link.timestamp explicitly", "");
    let s19 = indexed("NeuralMemory.BatchLinks[", i, "].Link.EventA+EventB / UniqueIdA+UniqueIdB");
    let s20 = indexed("Either (EventA+EventB) or (UniqueIdA+UniqueIdB) required for batch link ", i, "");
    push_if(&mut out, !(!l.event_a.as_str().is_empty() && !l.event_b.as_str().is_empty()) && !(!l.unique_id_a.as_str().is_empty() && !l.unique_id_b.as_str().is_empty()), "error", "StoreBatchLinks", s19.as_str(), "event_id_a+event_id_b / unique_id_a+unique_id_b", "one_of_required", s20.as_str(), "Set link.event_a+link.event_b or link.unique_id_a+link.unique_id_b", "");
    let s21 = indexed("NeuralMemory.BatchLinks[", i, "].Link.Category");
    let s22 = indexed("Link category is required for batch link ", i, "");
    push_if(&mut out, l.category.as_str().is_empty(), "error", "StoreBatchLinks", s21.as_str(), "category", "required", s22.as_str(), "Set link.category", "");
    let s23 = indexed("NeuralMemory.BatchLinks[", i, "].Link.OwnerID/OwnerUniqueID");
    let s24 = indexed("Either link OwnerID or OwnerUniqueID is required for batch link ", i, "");
    push_if(&mut out, l.owner_id.as_str().is_empty() && l.owner_unique_id.as_str().is_empty(), "error", "StoreBatchLinks", s23.as_str(), "owner_event_id/owner_unique_id", "one_of_required", s24.as_str(), "Set link.owner_id or link.owner_unique_id", "");
    let s25 = indexed("NeuralMemory.BatchLinks[", i, "].Link.Location");
    let s26 = indexed("Link location is required for batch link ", i, "");
    push_if(&mut out, l.location.as_str().is_empty(), "error", "StoreBatchLinks", s25.as_str(), "loc", "required", s26.as_str(), "Set link.location", "");
    let s27 = indexed("NeuralMemory.BatchLinks[", i, "].Link.LocationSeparator");
    let s28 = indexed("Link location separator is required for batch link ", i, "");
    push_if(&mut out, l.location_separator.as_str().is_empty(), "error", "StoreBatchLinks", s27.as_str(), "loc_delim", "required", s28.as_str(), "Set link.location_separator", "");
    out
}

fn batch_link_items(xs: &Vec<BatchLinkEventSpec>) -> (r: Vec<ValidationError>)
    ensures
        errs_view(r@) == batch_link_items_errors(xs@, xs@.len()),
{
    let mut out: Vec<ValidationError> = Vec::new();
    let n = xs.len();
    let mut i: usize = 0;
    while i < n
        invariant
            i <= n == xs@.len(),
            errs_view(out@) == batch_link_items_errors(xs@, i as nat),
        decreases n - i,
    {
        let item = batch_link_item(&xs[i], i);
        append_errors(&mut out, item);
        i = i + 1;
    }
    out
}

fn batch_tag_item(x: &Tag, i: usize) -> (r: Vec<ValidationError>)
    ensures
        errs_view(r@) == batch_tag_item_errors(*x, i as int),
{
    let t = x;
    let mut out: Vec<ValidationError> = Vec::new();
    let s29 = indexed("NeuralMemory.Tags[", i, "].Key");
    let s30 = indexed("Tag key must not be empty at index ", i, "");
    push_if(&mut out, t.key.as_str().is_empty(), "error", "StoreBatchTags", s29.as_str(), "key", "payload_format", s30.as_str(), "Set tag.key to a non-empty string", "");
    out
}

fn batch_tag_items(xs: &Vec<Tag>) -> (r: Vec<ValidationError>)
    ensures
        errs_view(r@) == batch_tag_items_errors(xs@, xs@.len()),
{
    let mut out: Vec<ValidationError> = Vec::new();
    let n = xs.len();
    let mut i: usize = 0;
    while i < n
        invariant
            i <= n == xs@.len(),
            errs_view(out@) == batch_tag_items_errors(xs@, i as nat),
        decreases n - i,
    {
        let item = batch_tag_item(&xs[i], i);
        append_errors(&mut out, item);
        i = i + 1;
    }
    out
}

fn validate_store_batch_events(msg: &Message, errs: &mut Vec<ValidationError>)
    ensures
        errs_view(final(errs)@) == errs_view(old(errs)@) + store_batch_events_errors(*msg),
{
    let mut out: Vec<ValidationError> = Vec::new();

    let mut rest: Vec<ValidationError> = Vec::new();
    match &msg.neural_memory {
        None => {
            push_if(&mut rest, true, "error", "StoreBatchEvents", "Message.NeuralMemory", "", "nil_struct", "NeuralMemory is required for StoreBatchEvents", "Initialize msg.neural_memory with batch_events", "");
        },
        Some(nm) => {
            if nm.batch_events.len() == 0 {
                push_if(&mut rest, true, "error", "StoreBatchEvents", "NeuralMemory.BatchEvents", "", "required", "At least one BatchEventSpec is required", "Push events into neural_memory.batch_events", "");
            } else {
                rest = batch_event_items(&nm.batch_events);
            }
        },
    }
    append_errors(&mut out, rest);
    append_errors(errs, out);
}

fn validate_store_batch_links(msg: &Message, errs: &mut Vec<ValidationError>)
    ensures
        errs_view(final(errs)@) == errs_view(old(errs)@) + store_batch_links_errors(*msg),
{
    let mut out: Vec<ValidationError> = Vec::new();

    let mut rest: Vec<ValidationError> = Vec::new();
    match &msg.neural_memory {
        None => {
            push_if(&mut rest, true, "error", "StoreBatchLinks", "Message.NeuralMemory", "", "nil_struct", "NeuralMemory is required for StoreBatchLinks", "Initialize msg.neural_memory with batch_links", "");
        },
        Some(nm) => {
            if nm.batch_links.len() == 0 {
                push_if(&mut rest, true, "error", "StoreBatchLinks", "NeuralMemory.BatchLinks", "", "required", "At least one BatchLinkEventSpec is required", "Push specs into neural_memory.batch_links", "");
            } else {
                rest = batch_link_items(&nm.batch_links);
            }
        },
    }
    append_errors(&mut out, rest);
    append_errors(errs, out);
}

fn validate_store_batch_tags(msg: &Message, errs: &mut Vec<ValidationError>)
    ensures
        errs_view(final(errs)@) == errs_view(old(errs)@) + store_batch_tags_errors(*msg),
{
    let mut out: Vec<ValidationError> = Vec::new();
    let has_event_ref = match &msg.event {
        Some(e) => !e.id.as_str().is_empty() || !e.unique_id.as_str().is_empty(),
        None => false,
    };
    let has_owner = match &msg.event {
        Some(e) => !e.owner.as_str().is_empty() || !e.owner_unique_id.as_str().is_empty(),
        None => false,
    };
    push_if(&mut out, !has_event_ref, "error", "StoreBatchTags", "Event.Id/UniqueId", "event_id/unique_id", "one_of_required", "Either Event.Id or Event.UniqueId is required to identify the target event", "Set event.id or event.unique_id", "");
    push_if(&mut out, !has_owner, "error", "StoreBatchTags", "Event.Owner/OwnerUniqueID", "owner/owner_unique_id", "one_of_required", "Either Owner or OwnerUniqueID is required for StoreBatchTags", "Set event.owner or event.owner_unique_id", "");
    let mut rest: Vec<ValidationError> = Vec::new();
    match &msg.neural_memory {
        None => {
            push_if(&mut rest, true, "error", "StoreBatchTags", "Message.NeuralMemory", "", "nil_struct", "NeuralMemory is required for StoreBatchTags", "Initialize msg.neural_memory with tags", "");
        },
        Some(nm) => {
            if nm.tags.len() == 0 {
                push_if(&mut rest, true, "error", "StoreBatchTags", "NeuralMemory.Tags", "", "required", "Tags list must not be empty", "Push tags into neural_memory.tags", "");
            } else {
                rest = batch_tag_items(&nm.tags);
            }
        },
    }
    append_errors(&mut out, rest);
    append_errors(errs, out);
}

/// The header checks of a NeuralMemory request with command `db`.
pub open spec fn request_header_errors(db: Seq<char>, fs: Seq<Field>, pl: nat) -> Seq<ErrorView> {
    if db == "store"@ {
            Seq::<ErrorView>::empty()
            + when(!has_key(fs, seq!["timestamp"@]), ev("warn"@, "StoreEvent"@, "timestamp"@, "timestamp"@, "header_missing"@, "timestamp header field missing (encoder should auto-fill)"@, "Set event.timestamp before encoding"@, ""@))
        } else if db == "store_batch"@ {
            Seq::<ErrorView>::empty()
            + when(pl == 0, ev("error"@, "StoreBatchEvents"@, "payload"@, "payload"@, "required"@, "Payload is required for store_batch (batch events are payload-only)"@, "Provide batch events in neural_memory.batch_events"@, ""@))
        } else if db == "tag_store_batch"@ {
            Seq::<ErrorView>::empty()
            + when(!(has_key(fs, seq!["event_id"@]) || has_key(fs, seq!["unique_id"@])), ev("error"@, "StoreBatchTags"@, "event_id/unique_id"@, "event_id/unique_id"@, "header_missing"@, "event_id or unique_id required in header for tag_store_batch"@, "Set event.id or event.unique_id"@, ""@))
            + when(!(has_key(fs, seq!["owner"@]) || has_key(fs, seq!["owner_unique_id"@])), ev("error"@, "StoreBatchTags"@, "owner/owner_unique_id"@, "owner/owner_unique_id"@, "header_missing"@, "owner or owner_unique_id required in header for tag_store_batch"@, "Set event.owner or event.owner_unique_id"@, ""@))
        } else if db == "get"@ {
            Seq::<ErrorView>::empty()
            + when(!(has_key(fs, seq!["event_id"@]) || has_key(fs, seq!["unique_id"@])), ev("error"@, "GetEvent"@, "event_id/unique_id"@, "event_id/unique_id"@, "header_missing"@, "event_id or unique_id required in header for get"@, "Set event.id or event.unique_id"@, ""@))
        } else if db == "events_for_tag"@ {
            Seq::<ErrorView>::empty()
            + when(!has_key(fs, seq!["buffer_results"@]), ev("warn"@, "GetEventsForTags"@, "buffer_results"@, "buffer_results"@, "header_missing"@, "buffer_results should be present (always written by encoder)"@, "Ensure get_events_for_tags options are initialized"@, ""@))
        } else if db == "link"@ {
            Seq::<ErrorView>::empty()
            + when(!((has_key(fs, seq!["event_id_a"@]) && has_key(fs, seq!["event_id_b"@])) || (has_key(fs, seq!["unique_id_a"@]) && has_key(fs, seq!["unique_id_b"@]))), ev("error"@, "LinkEvent"@, "event_id_a+event_id_b / unique_id_a+unique_id_b"@, "event_id_a/unique_id_a"@, "header_missing"@, "Link source and target identifiers required in header"@, "Set link endpoints (event_a/b or unique_id_a/b)"@, ""@))
            + when(!has_key(fs, seq!["category"@]), ev("error"@, "LinkEvent"@, "category"@, "category"@, "header_missing"@, "category required in link header"@, "Set link.category"@, ""@))
            + when(!has_key(fs, seq!["strength_a"@]), ev("error"@, "LinkEvent"@, "strength_a"@, "strength_a"@, "header_missing"@, "strength_a required in link header"@, "Set link.strength_a"@, ""@))
            + when(!has_key(fs, seq!["strength_b"@]), ev("error"@, "LinkEvent"@, "strength_b"@, "strength_b"@, "header_missing"@, "strength_b required in link header"@, "Set link.strength_b"@, ""@))
            + when(!(has_key(fs, seq!["owner_event_id"@]) || has_key(fs, seq!["owner_unique_id"@])), ev("error"@, "LinkEvent"@, "owner_event_id/owner_unique_id"@, "owner_event_id/owner_unique_id"@, "header_missing"@, "owner_event_id or owner_unique_id required in link header"@, "Set link.owner_id or link.owner_unique_id"@, ""@))
            + when(!has_key(fs, seq!["timestamp"@]), ev("error"@, "LinkEvent"@, "timestamp"@, "timestamp"@, "header_missing"@, "timestamp required in link header"@, "Set link.timestamp"@, ""@))
        } else if db == "unlink"@ {
            Seq::<ErrorView>::empty()
            + when(!(has_key(fs, seq!["event_id"@]) || has_key(fs, seq!["unique_id"@])), ev("error"@, "UnlinkEvent"@, "event_id/unique_id"@, "event_id/unique_id"@, "header_missing"@, "event_id or unique_id required in unlink header"@, "Set link.id or link.unique_id"@, ""@))
        } else if db == "link_batch"@ {
            Seq::<ErrorView>::empty()
            + when(pl == 0, ev("error"@, "StoreBatchLinks"@, "payload"@, "payload"@, "required"@, "Payload is required for link_batch"@, "Provide batch links in neural_memory.batch_links"@, ""@))
        } else {
            Seq::empty()
        }
}

/// The header checks of a NeuralMemory response of intent `i` with command
/// `db`, after the status check.
pub open spec fn response_header_errors(i: Intent, db: Seq<char>, fs: Seq<Field>) -> Seq<ErrorView> {
    if db == "get"@ {
            Seq::<ErrorView>::empty()
            + when(!(has_key(fs, seq!["_event_id"@]) || has_key(fs, seq!["event_id"@])), ev("error"@, "GetEventResponse"@, "_event_id"@, "_event_id"@, "header_missing"@, "_event_id or event_id required in get response"@, "Response must include the event identifier"@, ""@))
        } else if db == "link"@ {
            Seq::<ErrorView>::empty()
            + when(!has_key(fs, seq!["link_event"@]), ev("error"@, "LinkEventResponse"@, "link_event"@, "link_event"@, "header_missing"@, "link_event (assigned link ID) required in link response"@, "Response must include link_event"@, ""@))
        } else if db == "store"@ || db == "store_batch"@ || db == "tag_store_batch"@ {
            Seq::<ErrorView>::empty()
            + when(!has_key(fs, seq!["_count"@]), ev("warn"@, i.name@, "_count"@, "_count"@, "header_missing"@, "_count typically present in store/batch response"@, "Verify response includes _count"@, ""@))
        } else if db == "link_batch"@ {
            Seq::<ErrorView>::empty()
            + when(!has_key(fs, seq!["_links_ok"@]), ev("warn"@, "StoreBatchLinksResponse"@, "_links_ok"@, "_links_ok"@, "header_missing"@, "_links_ok typically present in link_batch response"@, "Verify response includes _links_ok"@, ""@))
        } else {
            Seq::empty()
        }
}

/// The header checks of an intent of message type `mt` outside NeuralMemory.
pub open spec fn other_header_errors(mt: i32, fs: Seq<Field>) -> Seq<ErrorView> {
    if mt == 5 {
            Seq::<ErrorView>::empty()
            + when(value_of(fs, seq!["id:name"@]).len() == 0, ev("error"@, "GatewayId"@, "id:name"@, "id:name"@, "header_missing"@, "id:name must be present and non-empty for GatewayId"@, "Set envelope.client_name"@, ""@))
        } else if mt == 2 {
            Seq::<ErrorView>::empty()
            + when(value_of(fs, seq!["_msg_id"@]).len() == 0, ev("error"@, "ActorEcho"@, "_msg_id"@, "_msg_id"@, "header_missing"@, "_msg_id must be present and non-empty for ActorEcho"@, "Set envelope.message_id"@, ""@))
        } else if mt == 4 {
            Seq::<ErrorView>::empty()
            + when(value_of(fs, seq!["_type"@]) != "status"@, ev("error"@, "ActorRequest"@, "_type"@, "_type"@, "header_value"@, "_type must be 'status' for ActorRequest"@, "Encoder should write _type=status"@, ""@))
        } else {
            Seq::empty()
        }
}

fn request_header_checks(db: &Vec<char>, pairs: &Vec<(Chars, Chars)>, payload_len: usize) -> (r: Vec<ValidationError>)
    ensures
        errs_view(r@) == request_header_errors(db@, pairs_view(pairs@), payload_len as nat),
{
    let ghost fs = pairs_view(pairs@);
    let mut out: Vec<ValidationError> = Vec::new();
    if chars_eq_str(db.as_slice(), "store") {
        push_if(&mut out, !find1(&pairs, "timestamp").is_some(), "warn", "StoreEvent", "timestamp", "timestamp", "header_missing", "timestamp header field missing (encoder should auto-fill)", "Set event.timestamp before encoding", "");
    } else if chars_eq_str(db.as_slice(), "store_batch") {
        push_if(&mut out, payload_len == 0, "error", "StoreBatchEvents", "payload", "payload", "required", "Payload is required for store_batch (batch events are payload-only)", "Provide batch events in neural_memory.batch_events", "");
    } else if chars_eq_str(db.as_slice(), "tag_store_batch") {
        push_if(&mut out, !(find1(&pairs, "event_id").is_some() || find1(&pairs, "unique_id").is_some()), "error", "StoreBatchTags", "event_id/unique_id", "event_id/unique_id", "header_missing", "event_id or unique_id required in header for tag_store_batch", "Set event.id or event.unique_id", "");
        push_if(&mut out, !(find1(&pairs, "owner").is_some() || find1(&pairs, "owner_unique_id").is_some()), "error", "StoreBatchTags", "owner/owner_unique_id", "owner/owner_unique_id", "header_missing", "owner or owner_unique_id required in header for tag_store_batch", "Set event.owner or event.owner_unique_id", "");
    } else if chars_eq_str(db.as_slice(), "get") {
        push_if(&mut out, !(find1(&pairs, "event_id").is_some() || find1(&pairs, "unique_id").is_some()), "error", "GetEvent", "event_id/unique_id", "event_id/unique_id", "header_missing", "event_id or unique_id required in header for get", "Set event.id or event.unique_id", "");
    } else if chars_eq_str(db.as_slice(), "events_for_tag") {
        push_if(&mut out, !find1(&pairs, "buffer_results").is_some(), "warn", "GetEventsForTags", "buffer_results", "buffer_results", "header_missing", "buffer_results should be present (always written by encoder)", "Ensure get_events_for_tags options are initialized", "");
    } else if chars_eq_str(db.as_slice(), "link") {
        push_if(&mut out, !((find1(&pairs, "event_id_a").is_some() && find1(&pairs, "event_id_b").is_some()) || (find1(&pairs, "unique_id_a").is_some() && find1(&pairs, "unique_id_b").is_some())), "error", "LinkEvent", "event_id_a+event_id_b / unique_id_a+unique_id_b", "event_id_a/unique_id_a", "header_missing", "Link source and target identifiers required in header", "Set link endpoints (event_a/b or unique_id_a/b)", "");
        push_if(&mut out, !find1(&pairs, "category").is_some(), "error", "LinkEvent", "category", "category", "header_missing", "category required in link header", "Set link.category", "");
        push_if(&mut out, !find1(&pairs, "strength_a").is_some(), "error", "LinkEvent", "strength_a", "strength_a", "header_missing", "strength_a required in link header", "Set link.strength_a", "");
        push_if(&mut out, !find1(&pairs, "strength_b").is_some(), "error", "LinkEvent", "strength_b", "strength_b", "header_missing", "strength_b required in link header", "Set link.strength_b", "");
        push_if(&mut out, !(find1(&pairs, "owner_event_id").is_some() || find1(&pairs, "owner_unique_id").is_some()), "error", "LinkEvent", "owner_event_id/owner_unique_id", "owner_event_id/owner_unique_id", "header_missing", "owner_event_id or owner_unique_id required in link header", "Set link.owner_id or link.owner_unique_id", "");
        push_if(&mut out, !find1(&pairs, "timestamp").is_some(), "error", "LinkEvent", "timestamp", "timestamp", "header_missing", "timestamp required in link header", "Set link.timestamp", "");
    } else if chars_eq_str(db.as_slice(), "unlink") {
        push_if(&mut out, !(find1(&pairs, "event_id").is_some() || find1(&pairs, "unique_id").is_some()), "error", "UnlinkEvent", "event_id/unique_id", "event_id/unique_id", "header_missing", "event_id or unique_id required in unlink header", "Set link.id or link.unique_id", "");
    } else if chars_eq_str(db.as_slice(), "link_batch") {
        push_if(&mut out, payload_len == 0, "error", "StoreBatchLinks", "payload", "payload", "required", "Payload is required for link_batch", "Provide batch links in neural_memory.batch_links", "");
    }
    out
}

fn response_header_checks(intent: &Intent, db: &Vec<char>, pairs: &Vec<(Chars, Chars)>) -> (r: Vec<ValidationError>)
    ensures
        errs_view(r@) == response_header_errors(*intent, db@, pairs_view(pairs@)),
{
    let ghost fs = pairs_view(pairs@);
    let ghost i = *intent;
    let mut out: Vec<ValidationError> = Vec::new();
    if chars_eq_str(db.as_slice(), "get") {
        push_if(&mut out, !(find1(&pairs, "_event_id").is_some() || find1(&pairs, "event_id").is_some()), "error", "GetEventResponse", "_event_id", "_event_id", "header_missing", "_event_id or event_id required in get response", "Response must include the event identifier", "");
    } else if chars_eq_str(db.as_slice(), "link") {
        push_if(&mut out, !find1(&pairs, "link_event").is_some(), "error", "LinkEventResponse", "link_event", "link_event", "header_missing", "link_event (assigned link ID) required in link response", "Response must include link_event", "");
    } else if chars_eq_str(db.as_slice(), "store") || chars_eq_str(db.as_slice(), "store_batch") || chars_eq_str(db.as_slice(), "tag_store_batch") {
        push_if(&mut out, !find1(&pairs, "_count").is_some(), "warn", intent.name, "_count", "_count", "header_missing", "_count typically present in store/batch response", "Verify response includes _count", "");
    } else if chars_eq_str(db.as_slice(), "link_batch") {
        push_if(&mut out, !find1(&pairs, "_links_ok").is_some(), "warn", "StoreBatchLinksResponse", "_links_ok", "_links_ok", "header_missing", "_links_ok typically present in link_batch response", "Verify response includes _links_ok", "");
    }
    out
}

fn other_header_checks(mt: i32, pairs: &Vec<(Chars, Chars)>) -> (r: Vec<ValidationError>)
    ensures
        errs_view(r@) == other_header_errors(mt, pairs_view(pairs@)),
{
    let ghost fs = pairs_view(pairs@);
    let mut out: Vec<ValidationError> = Vec::new();
    if mt == 5 {
        push_if(&mut out, text1(&pairs, "id:name").as_str().is_empty(), "error", "GatewayId", "id:name", "id:name", "header_missing", "id:name must be present and non-empty for GatewayId", "Set envelope.client_name", "");
    } else if mt == 2 {
        push_if(&mut out, text1(&pairs, "_msg_id").as_str().is_empty(), "error", "ActorEcho", "_msg_id", "_msg_id", "header_missing", "_msg_id must be present and non-empty for ActorEcho", "Set envelope.message_id", "");
    } else if mt == 4 {
        push_if(&mut out, !str_eq(text1(&pairs, "_type").as_str(), "status"), "error", "ActorRequest", "_type", "_type", "header_value", "_type must be 'status' for ActorRequest", "Encoder should write _type=status", "");
    }
    out
}

/// The checks of the intent of `m`.
pub open spec fn intent_errors(m: Message) -> Seq<ErrorView> {
    let i = m.envelope.intent;
    if i.same(spec_store_event()) {
        store_event_errors(m)
    } else if i.same(spec_store_batch_events()) {
        store_batch_events_errors(m)
    } else if i.same(spec_store_batch_tags()) {
        store_batch_tags_errors(m)
    } else if i.same(spec_get_event()) {
        get_event_errors(m)
    } else if i.same(spec_get_events_for_tags()) {
        get_events_for_tags_errors(m)
    } else if i.same(spec_link_event()) {
        link_event_errors(m)
    } else if i.same(spec_unlink_event()) {
        unlink_event_errors(m)
    } else if i.same(spec_store_batch_links()) {
        store_batch_links_errors(m)
    } else if i.same(spec_gateway_id()) {
        gateway_id_errors(m)
    } else if i.same(spec_gateway_stream_on()) || i.same(spec_gateway_stream_off()) {
        Seq::empty()
    } else if i.same(spec_actor_request()) {
        Seq::empty()
    } else if i.same(spec_actor_response()) || i.same(spec_status()) {
        Seq::empty()
    } else if i.same(spec_actor_report()) {
        actor_report_errors(m)
    } else if i.message_type == 1001 {
        response_intent_errors(m)
    } else {
        Seq::empty()
    }
}

fn dispatch_intent_validator(msg: &Message, errs: &mut Vec<ValidationError>)
    ensures
        errs_view(final(errs)@) == errs_view(old(errs)@) + intent_errors(*msg),
{
    let intent = msg.envelope.intent;
    if intent == store_event() {
        validate_store_event(msg, errs);
    } else if intent == store_batch_events() {
        validate_store_batch_events(msg, errs);
    } else if intent == store_batch_tags() {
        validate_store_batch_tags(msg, errs);
    } else if intent == get_event() {
        validate_get_event(msg, errs);
    } else if intent == get_events_for_tags() {
        validate_get_events_for_tags(msg, errs);
    } else if intent == link_event() {
        validate_link_event(msg, errs);
    } else if intent == unlink_event() {
        validate_unlink_event(msg, errs);
    } else if intent == store_batch_links() {
        validate_store_batch_links(msg, errs);
    } else if intent == gateway_id() {
        validate_gateway_id(msg, errs);
    } else if intent == gateway_stream_on() || intent == gateway_stream_off() {
        // No required fields beyond the envelope.
        assert(errs_view(errs@) =~= errs_view(old(errs)@) + intent_errors(*msg));
    } else if intent == actor_request() {
        // The header writes `_type=status` itself.
        assert(errs_view(errs@) =~= errs_view(old(errs)@) + intent_errors(*msg));
    } else if intent == actor_response() || intent == status() {
        // Every field is optional.
        assert(errs_view(errs@) =~= errs_view(old(errs)@) + intent_errors(*msg));
    } else if intent == actor_report() {
        validate_actor_report(msg, errs);
    } else if intent.message_type == 1001 {
        validate_response_intent(msg, errs);
    } else {
        assert(errs_view(errs@) =~= errs_view(old(errs)@) + intent_errors(*msg));
    }
}

/// All checks of a message: the envelope, then those of its intent when it
/// has one.
pub open spec fn message_errors(m: Message) -> Seq<ErrorView> {
    envelope_errors(m) + if m.envelope.intent.spec_is_zero() {
        Seq::<ErrorView>::empty()
    } else {
        intent_errors(m)
    }
}

impl Message {
    /// Validate the message.  Gives no errors when validation is off, so it
    /// costs nothing on the hot path.
    pub fn validate(&self, enabled: bool) -> (r: Vec<ValidationError>)
        ensures
            errs_view(r@) == if enabled {
                message_errors(*self)
            } else {
                Seq::<ErrorView>::empty()
            },
    {
        let mut errs: Vec<ValidationError> = Vec::new();
        if !enabled {
            assert(errs_view(errs@) =~= Seq::<ErrorView>::empty());
            return errs;
        }
        validate_envelope(self, &mut errs);
        if !self.envelope.intent.is_zero() {
            dispatch_intent_validator(self, &mut errs);
        } else {
            assert(errs_view(errs@) =~= errs_view(errs@) + Seq::<ErrorView>::empty());
        }
        assert(errs_view(errs@) =~= message_errors(*self));
        errs
    }
}

// ── Wire-level checks ────────────────────────────────────────────────────────

/// Parse a 9-byte wire length field ('x' + 8 hex digits, or 9 decimal digits).
fn parse_wire_len(field: &[u8]) -> (r: Option<usize>)
    requires
        field@.len() == 9,
    ensures
        match r {
            Some(x) => len_field_value(field@) == Some(x as nat),
            None => len_field_value(field@) is None,
        },
{
    parse_length_value(field)
}

/// The address checks of a frame whose to and from lengths read and fit.
pub open spec fn raw_address_errors(raw: Seq<u8>) -> Seq<ErrorView> {
    match (len_field_value(size_field(raw, 1)), len_field_value(size_field(raw, 2))) {
        (Some(tl), Some(fl)) => if 63 + tl + fl <= raw.len() {
            let to = utf8_text(raw.subrange(63, 63 + tl as int));
            let from = cut_at_bar(utf8_text(raw.subrange(63 + tl as int, (63 + tl + fl) as int)));
            Seq::<ErrorView>::empty() + when(
                to.len() == 0 || !to.contains('@'),
                ev(
                    "error"@,
                    ""@,
                    "To"@,
                    "to"@,
                    "format"@,
                    "To address must be non-empty and match name@gateway format"@,
                    "Encode a valid To address"@,
                    ""@,
                ),
            ) + when(
                from.len() == 0 || !from.contains('@'),
                ev(
                    "error"@,
                    ""@,
                    "From"@,
                    "from"@,
                    "format"@,
                    "From address must be non-empty and match name@gateway format"@,
                    "Encode a valid From address"@,
                    ""@,
                ),
            )
        } else {
            Seq::empty()
        },
        _ => Seq::<ErrorView>::empty() + when(
            true,
            ev(
                "error"@,
                ""@,
                "toLength/fromLength"@,
                "wire"@,
                "format"@,
                "Failed to parse toLength or fromLength prefix fields"@,
                "Encode length fields as 'x' + 8 hex digits"@,
                ""@,
            ),
        ),
    }
}

/// How a decode failure reads: its code, number and message.
pub open spec fn decode_error_text(code: MsgErrCode, message: Seq<char>) -> Seq<char> {
    "DecodeError["@ + crate::message::errors::msg_err_code_name(code) + "("@ + dec_digits(
        msg_err_code_number(code) as nat,
    ) + ")] field=None: "@ + message
}

fn decode_error_string(e: &DecodeError) -> (r: String)
    requires
        e.field is None,
    ensures
        r@ == decode_error_text(e.code, e.message@),
{
    let mut v = chars_of("DecodeError[");
    append_str(&mut v, e.code.name());
    append_str(&mut v, "(");
    push_dec_digits(&mut v, e.code.number() as u64);
    append_str(&mut v, ")] field=None: ");
    append_str(&mut v, e.message.as_str());
    string_from_chars(v.as_slice())
}

/// The header checks of a frame that decodes with intent `i`.
pub open spec fn wire_header_errors(i: Intent, raw: Seq<u8>) -> Seq<ErrorView> {
    let hs = 63 + len_at(raw, 1) + len_at(raw, 2);
    let hl = len_at(raw, 3);
    if hs + hl > raw.len() {
        Seq::empty()
    } else {
        let fs = tab_pairs(utf8_text(raw.subrange(hs as int, (hs + hl) as int)));
        let db = value_of(fs, seq!["_db_cmd"@]);
        if i.message_type == 1000 {
            if db.len() == 0 {
                Seq::<ErrorView>::empty() + when(
                    true,
                    ev(
                        "error"@,
                        i.name@,
                        "_db_cmd"@,
                        "_db_cmd"@,
                        "header_missing"@,
                        "_db_cmd header field is required for NeuralMemory requests"@,
                        "Ensure the encoder writes _db_cmd"@,
                        ""@,
                    ),
                )
            } else {
                request_header_errors(db, fs, len_at(raw, 6))
            }
        } else if i.message_type == 1001 {
            Seq::<ErrorView>::empty() + when(
                !has_key(fs, seq!["_status"@]),
                ev(
                    "warn"@,
                    i.name@,
                    "_status"@,
                    "_status"@,
                    "header_missing"@,
                    "Response _status field typically present (brief-hit responses may omit)"@,
                    "Verify response includes _status"@,
                    ""@,
                ),
            ) + response_header_errors(i, db, fs)
        } else {
            other_header_errors(i.message_type, fs)
        }
    }
}

/// Stage 2: per-intent header field validation on decoded wire messages.
fn validate_wire_header_fields(msg: &Message, raw: &[u8], errs: &mut Vec<ValidationError>)
    requires
        raw@.len() >= 63,
    ensures
        errs_view(final(errs)@) == errs_view(old(errs)@) + wire_header_errors(
            msg.envelope.intent,
            raw@,
        ),
{
    let f1 = crate::text::slice_to_vec_bytes(raw, 9, 18);
    let f2 = crate::text::slice_to_vec_bytes(raw, 18, 27);
    let f3 = crate::text::slice_to_vec_bytes(raw, 27, 36);
    let f6 = crate::text::slice_to_vec_bytes(raw, 54, 63);
    let header_len = match parse_wire_len(f3.as_slice()) {
        Some(x) => x,
        None => 0,
    };
    let to_len = match parse_wire_len(f1.as_slice()) {
        Some(x) => x,
        None => 0,
    };
    let from_len = match parse_wire_len(f2.as_slice()) {
        Some(x) => x,
        None => 0,
    };
    let payload_len = match parse_wire_len(f6.as_slice()) {
        Some(x) => x,
        None => 0,
    };
    assert(f1@ == size_field(raw@, 1));
    assert(f2@ == size_field(raw@, 2));
    assert(f3@ == size_field(raw@, 3));
    assert(f6@ == size_field(raw@, 6));
    let total = raw.len();
    if to_len as u128 + from_len as u128 + header_len as u128 + 63 > total as u128 {
        assert(errs_view(errs@) =~= errs_view(old(errs)@) + Seq::<ErrorView>::empty());
        return;
    }
    let header_start = 63 + to_len + from_len;
    let header_bytes = crate::text::slice_to_vec_bytes(raw, header_start, header_start + header_len);
    let header_str = string_from_utf8_lossy(header_bytes.as_slice());
    let header_chars = chars_of(header_str.as_str());
    let pairs = parse_tab_pairs(&header_chars);
    let intent = msg.envelope.intent;
    let msg_type = intent.message_type;
    let db_cmd = chars_of(text1(&pairs, "_db_cmd").as_str());
    let mut out: Vec<ValidationError> = Vec::new();
    if msg_type == 1000 {
        if db_cmd.len() == 0 {
            push_if(
                &mut out,
                true,
                "error",
                intent.name,
                "_db_cmd",
                "_db_cmd",
                "header_missing",
                "_db_cmd header field is required for NeuralMemory requests",
                "Ensure the encoder writes _db_cmd",
                "",
            );
        } else {
            out = request_header_checks(&db_cmd, &pairs, payload_len);
        }
    } else if msg_type == 1001 {
        push_if(
            &mut out,
            !find1(&pairs, "_status").is_some(),
            "warn",
            intent.name,
            "_status",
            "_status",
            "header_missing",
            "Response _status field typically present (brief-hit responses may omit)",
            "Verify response includes _status",
            "",
        );
        let more = response_header_checks(&intent, &db_cmd, &pairs);
        append_errors(&mut out, more);
    } else {
        out = other_header_checks(msg_type, &pairs);
    }
    append_errors(errs, out);
}

/// All checks of a raw frame under the size limit `max`: its framing and
/// size, its addresses, and either why it does not decode or the header
/// checks of its intent.
pub open spec fn raw_errors(raw: Seq<u8>, max: int) -> Seq<ErrorView> {
    if raw.len() == 0 {
        Seq::<ErrorView>::empty() + when(
            true,
            ev(
                "error"@,
                ""@,
                "raw"@,
                "wire"@,
                "nil_struct"@,
                "Raw message is nil/empty"@,
                "Provide a non-empty byte slice"@,
                ""@,
            ),
        )
    } else if raw.len() < 63 {
        Seq::<ErrorView>::empty() + when(
            true,
            ev(
                "error"@,
                ""@,
                "raw"@,
                "wire"@,
                "format"@,
                "Message too short: "@ + dec_digits(raw.len())
                    + " bytes (minimum 63 for 7 x 9-byte length fields)"@,
                "Ensure message has complete length prefix block"@,
                ""@,
            ),
        )
    } else if raw.len() > max {
        Seq::<ErrorView>::empty() + when(
            true,
            ev(
                "error"@,
                ""@,
                "raw"@,
                "wire"@,
                "format"@,
                "Message "@ + dec_digits(raw.len()) + " bytes exceeds limit "@ + int_text(max)
                    + " bytes"@,
                "Reduce message size or increase MaxMessageSizeBytes"@,
                ""@,
            ),
        )
    } else {
        raw_address_errors(raw) + match decode_failure(raw, max) {
            Some(f) => Seq::<ErrorView>::empty() + when(
                true,
                ev(
                    "error"@,
                    ""@,
                    "raw"@,
                    "wire"@,
                    "format"@,
                    decode_error_text(f.0, f.1),
                    "Ensure message is correctly encoded per the wire frame spec"@,
                    ""@,
                ),
            ),
            None => wire_header_errors(decoded_intent(raw), raw),
        }
    }
}

/// Validate raw wire bytes under the default size limit.
///
/// Gives no errors when validation is off.
pub fn validate_raw_message(raw: &[u8], enabled: bool) -> (r: Vec<ValidationError>)
    ensures
        errs_view(r@) == if enabled {
            raw_errors(raw@, spec_max_message_size())
        } else {
            Seq::<ErrorView>::empty()
        },
{
    validate_raw_message_with_limit(raw, enabled, max_message_size())
}

/// Validate raw wire bytes under the size limit `max`.
///
/// Stage 1 checks framing, size, and To/From address format.
/// Stage 2 decodes the message and checks per-intent header fields.
///
/// Gives no errors when validation is off.
pub fn validate_raw_message_with_limit(raw: &[u8], enabled: bool, max: i64) -> (r: Vec<ValidationError>)
    ensures
        errs_view(r@) == if enabled {
            raw_errors(raw@, max as int)
        } else {
            Seq::<ErrorView>::empty()
        },
{
    let mut errs: Vec<ValidationError> = Vec::new();
    if !enabled {
        assert(errs_view(errs@) =~= Seq::<ErrorView>::empty());
        return errs;
    }
    let n = raw.len();
    if n == 0 {
        push_if(
            &mut errs,
            true,
            "error",
            "",
            "raw",
            "wire",
            "nil_struct",
            "Raw message is nil/empty",
            "Provide a non-empty byte slice",
            "",
        );
        return errs;
    }
    if n < 63 {
        let mut m = chars_of("Message too short: ");
        push_dec_digits(&mut m, n as u64);
        append_str(&mut m, " bytes (minimum 63 for 7 x 9-byte length fields)");
        let m = string_from_chars(m.as_slice());
        push_if(
            &mut errs,
            true,
            "error",
            "",
            "raw",
            "wire",
            "format",
            m.as_str(),
            "Ensure message has complete length prefix block",
            "",
        );
        return errs;
    }
    if max < 0 || n as u64 > max as u64 {
        let mut m = chars_of("Message ");
        push_dec_digits(&mut m, n as u64);
        append_str(&mut m, " bytes exceeds limit ");
        push_int(&mut m, max);
        append_str(&mut m, " bytes");
        let m = string_from_chars(m.as_slice());
        push_if(
            &mut errs,
            true,
            "error",
            "",
            "raw",
            "wire",
            "format",
            m.as_str(),
            "Reduce message size or increase MaxMessageSizeBytes",
            "",
        );
        return errs;
    }
    // Stage 1: the addresses, when the to and from lengths read.
    let f1 = crate::text::slice_to_vec_bytes(raw, 9, 18);
    let f2 = crate::text::slice_to_vec_bytes(raw, 18, 27);
    assert(f1@ == size_field(raw@, 1));
    assert(f2@ == size_field(raw@, 2));
    match (parse_wire_len(f1.as_slice()), parse_wire_len(f2.as_slice())) {
        (Some(tl), Some(fl)) => {
            if tl as u128 + fl as u128 + 63 <= n as u128 {
                let to_bytes = crate::text::slice_to_vec_bytes(raw, 63, 63 + tl);
                let to = string_from_utf8_lossy(to_bytes.as_slice());
                let from_bytes = crate::text::slice_to_vec_bytes(raw, 63 + tl, 63 + tl + fl);
                let from_raw = chars_of(string_from_utf8_lossy(from_bytes.as_slice()).as_str());
                let from = match crate::text::find_char(from_raw.as_slice(), '|') {
                    Some(i) => {
                        let cut = crate::text::slice_to_vec_chars(from_raw.as_slice(), 0, i);
                        assert(cut@ =~= from_raw@.take(i as int));
                        string_from_chars(cut.as_slice())
                    },
                    None => string_from_chars(from_raw.as_slice()),
                };
                push_if(
                    &mut errs,
                    to.as_str().is_empty() || !str_contains_char(to.as_str(), '@'),
                    "error",
                    "",
                    "To",
                    "to",
                    "format",
                    "To address must be non-empty and match name@gateway format",
                    "Encode a valid To address",
                    "",
                );
                push_if(
                    &mut errs,
                    from.as_str().is_empty() || !str_contains_char(from.as_str(), '@'),
                    "error",
                    "",
                    "From",
                    "from",
                    "format",
                    "From address must be non-empty and match name@gateway format",
                    "Encode a valid From address",
                    "",
                );
            } else {
                assert(errs_view(errs@) =~= Seq::<ErrorView>::empty());
            }
        },
        _ => {
            push_if(
                &mut errs,
                true,
                "error",
                "",
                "toLength/fromLength",
                "wire",
                "format",
                "Failed to parse toLength or fromLength prefix fields",
                "Encode length fields as 'x' + 8 hex digits",
                "",
            );
        },
    }
    // Stage 2: decode, and check the header fields of the intent.
    match decode_message_with_limit(raw, max) {
        Err(e) => {
            let text = decode_error_string(&e);
            push_if(
                &mut errs,
                true,
                "error",
                "",
                "raw",
                "wire",
                "format",
                text.as_str(),
                "Ensure message is correctly encoded per the wire frame spec",
                "",
            );
        },
        Ok(msg) => {
            validate_wire_header_fields(&msg, raw, &mut errs);
        },
    }
    errs
}

// ── Reports ──────────────────────────────────────────────────────────────────

/// The terminal rendering of one finding:
///
/// ```text
/// [ERROR] LinkEvent / NeuralMemory.Link.Category (category): required
///   What: Category is required for LinkEvent and is missing.
///   Fix:  Set NeuralMemory.Link.Category to a non-empty string (e.g. "related").
///   Code: msg.neural_memory.link.category = "related".into()
/// ```
pub open spec fn report_entry(e: ErrorView) -> Seq<char> {
    report_head(e) + "  What: "@ + e.message + "\n"@ + optional_line("  Fix:  "@, e.fix)
        + optional_line("  Code: "@, e.example_code)
}

/// The first line of a finding: severity, intent, field, wire field, rule.
pub open spec fn report_head(e: ErrorView) -> Seq<char> {
    (if e.severity == "error"@ {
        "[ERROR]"@
    } else {
        "[WARN]"@
    }) + " "@ + e.intent + " / "@ + e.field + (if e.wire_field.len() == 0 {
        Seq::<char>::empty()
    } else {
        " ("@ + e.wire_field + ")"@
    }) + ": "@ + e.rule + "\n"@
}

/// `<label><text>` on a line of its own, or nothing when `text` is empty.
pub open spec fn optional_line(label: Seq<char>, text: Seq<char>) -> Seq<char> {
    if text.len() == 0 {
        Seq::empty()
    } else {
        label + text + "\n"@
    }
}

/// The rendering of all findings, one after another.
pub open spec fn report_text(es: Seq<ErrorView>) -> Seq<char>
    decreases es.len(),
{
    if es.len() == 0 {
        Seq::empty()
    } else {
        report_text(es.drop_last()) + report_entry(es.last())
    }
}

fn push_report_head(out: &mut Vec<char>, e: &ValidationError)
    ensures
        final(out)@ == old(out)@ + report_head(e@),
{
    let tag = if str_eq(e.severity.as_str(), "error") {
        "[ERROR]"
    } else {
        "[WARN]"
    };
    let mut v = chars_of(tag);
    append_str(&mut v, " ");
    append_str(&mut v, e.intent.as_str());
    append_str(&mut v, " / ");
    append_str(&mut v, e.field.as_str());
    if !e.wire_field.as_str().is_empty() {
        append_str(&mut v, " (");
        append_str(&mut v, e.wire_field.as_str());
        append_str(&mut v, ")");
    }
    append_str(&mut v, ": ");
    append_str(&mut v, e.rule.as_str());
    append_str(&mut v, "\n");
    assert(v@ =~= report_head(e@));
    crate::text::append_chars(out, v.as_slice());
}

fn push_optional_line(out: &mut Vec<char>, label: &str, text: &str)
    ensures
        final(out)@ == old(out)@ + optional_line(label@, text@),
{
    if !text.is_empty() {
        let mut v = chars_of(label);
        append_str(&mut v, text);
        append_str(&mut v, "\n");
        crate::text::append_chars(out, v.as_slice());
    } else {
        assert(out@ =~= old(out)@ + optional_line(label@, text@));
    }
}

fn push_report_entry(out: &mut Vec<char>, e: &ValidationError)
    ensures
        final(out)@ == old(out)@ + report_entry(e@),
{
    push_report_head(out, e);
    append_str(out, "  What: ");
    append_str(out, e.message.as_str());
    append_str(out, "\n");
    push_optional_line(out, "  Fix:  ", e.fix.as_str());
    push_optional_line(out, "  Code: ", e.example_code.as_str());
    assert(out@ =~= old(out)@ + report_entry(e@));
}

/// Renders findings for a terminal, in the dual-audience format.
pub fn format_report(errs: &Vec<ValidationError>) -> (r: String)
    ensures
        r@ == report_text(errs_view(errs@)),
{
    let mut out: Vec<char> = Vec::new();
    let n = errs.len();
    let mut i: usize = 0;
    assert(errs_view(errs@).take(0) =~= Seq::<ErrorView>::empty());
    while i < n
        invariant
            i <= n == errs@.len(),
            out@ == report_text(errs_view(errs@).take(i as int)),
        decreases n - i,
    {
        push_report_entry(&mut out, &errs[i]);
        assert(errs_view(errs@).take(i + 1).drop_last() =~= errs_view(errs@).take(i as int));
        i = i + 1;
    }
    assert(errs_view(errs@).take(n as int) =~= errs_view(errs@));
    string_from_chars(out.as_slice())
}


/// Findings rendered for a terminal (see [`format_report`]).
#[derive(Debug)]
pub struct ValidationReport(pub Vec<ValidationError>);

impl ValidationReport {
    /// The report's text.
    pub fn render(&self) -> (r: String)
        ensures
            r@ == report_text(errs_view(self.0@)),
    {
        format_report(&self.0)
    }
}

/// The request to an AI assistant for corrected code for one finding.
pub open spec fn remediation_prompt_for(e: ErrorView) -> Seq<char> {
    "You are a Pod-OS Rust client expert. A message validation error occurred.\n\nIntent: "@
        + e.intent + "\nStruct Path: "@ + e.field + "\nWire Field: "@ + e.wire_field
        + "\nRule Violated: "@ + e.rule + "\nDescription: "@ + e.message + "\nSuggested Fix: "@
        + e.fix + "\nExample Code: "@ + e.example_code + "\nSource References: "@ + joined(
        e.references,
        ", "@,
    ) + "\n\nTask: Provide corrected Rust code for this message construction. Show all required fields for the "@
        + e.intent
        + " intent. If multiple valid approaches exist (e.g. event_a/event_b vs unique_id_a/unique_id_b), show both. Use only types from the message module."@
}

/// The requests for all findings, separated by `\n\n---\n\n`.
pub open spec fn remediation_prompt_text(es: Seq<ErrorView>) -> Seq<char> {
    joined(es.map_values(|e: ErrorView| remediation_prompt_for(e)), "\n\n---\n\n"@)
}

fn prompt_for(e: &ValidationError) -> (r: String)
    ensures
        r@ == remediation_prompt_for(e@),
{
    let mut v = chars_of("You are a Pod-OS Rust client expert. A message validation error occurred.\n\nIntent: ");
    append_str(&mut v, e.intent.as_str());
    append_str(&mut v, "\nStruct Path: ");
    append_str(&mut v, e.field.as_str());
    append_str(&mut v, "\nWire Field: ");
    append_str(&mut v, e.wire_field.as_str());
    append_str(&mut v, "\nRule Violated: ");
    append_str(&mut v, e.rule.as_str());
    append_str(&mut v, "\nDescription: ");
    append_str(&mut v, e.message.as_str());
    append_str(&mut v, "\nSuggested Fix: ");
    append_str(&mut v, e.fix.as_str());
    append_str(&mut v, "\nExample Code: ");
    append_str(&mut v, e.example_code.as_str());
    append_str(&mut v, "\nSource References: ");
    let refs = join_strings(&e.references, ", ");
    append_str(&mut v, refs.as_str());
    append_str(&mut v, "\n\nTask: Provide corrected Rust code for this message construction. Show all required fields for the ");
    append_str(&mut v, e.intent.as_str());
    append_str(&mut v, " intent. If multiple valid approaches exist (e.g. event_a/event_b vs unique_id_a/unique_id_b), show both. Use only types from the message module.");
    string_from_chars(v.as_slice())
}

/// The text sent to an AI assistant to explain findings and suggest
/// corrected code: one request per finding.
pub fn remediation_prompt(errs: &Vec<ValidationError>) -> (r: String)
    ensures
        r@ == remediation_prompt_text(errs_view(errs@)),
{
    let mut prompts: Vec<String> = Vec::new();
    let n = errs.len();
    let mut i: usize = 0;
    while i < n
        invariant
            i <= n == errs@.len(),
            prompts@.len() == i,
            prompts@.map_values(|s: String| s@) == errs_view(errs@).take(i as int).map_values(
                |e: ErrorView| remediation_prompt_for(e),
            ),
        decreases n - i,
    {
        let p = prompt_for(&errs[i]);
        let ghost before = prompts@;
        prompts.push(p);
        proof {
            let lhs = prompts@.map_values(|s: String| s@);
            let rhs = errs_view(errs@).take(i + 1).map_values(|e: ErrorView| remediation_prompt_for(e));
            assert(errs_view(errs@)[i as int] == errs@[i as int]@);
            assert forall|j: int| 0 <= j < i + 1 implies lhs[j] == rhs[j] by {
                if j < i {
                    assert(prompts@[j] == before[j]);
                    let old_l = before.map_values(|s: String| s@);
                    let old_r = errs_view(errs@).take(i as int).map_values(
                        |e: ErrorView| remediation_prompt_for(e),
                    );
                    assert(old_l[j] == old_r[j]);
                    assert(errs_view(errs@).take(i + 1)[j] == errs_view(errs@).take(i as int)[j]);
                } else {
                    assert(prompts@[j] == p);
                }
            }
            assert(lhs =~= rhs);
        }
        i = i + 1;
    }
    assert(errs_view(errs@).take(n as int) =~= errs_view(errs@));
    join_strings(&prompts, "\n\n---\n\n")
}


/// The detail of a chat-completion error: the `error` member's message (or
/// the member itself when it is text), else `unknown error`.
pub open spec fn completion_detail(error: Option<Option<Seq<char>>>) -> Seq<char> {
    match error {
        Some(Some(d)) => d,
        _ => "unknown error"@,
    }
}

/// What a chat-completion reply comes to, from the HTTP status text, whether
/// the status was a success, the reply's `error` member (absent; or present,
/// with its message text when it has one) and the first choice's content.
pub open spec fn completion_answer_spec(
    status: Seq<char>,
    success: bool,
    error: Option<Option<Seq<char>>>,
    content: Option<Seq<char>>,
) -> Result<Seq<char>, Seq<char>> {
    if !success {
        Err("vLLM API returned "@ + status + ": "@ + completion_detail(error))
    } else if error is Some {
        Err("vLLM API error: "@ + completion_detail(error))
    } else {
        Ok(
            match content {
                Some(c) => c,
                None => Seq::empty(),
            },
        )
    }
}

/// The texts of an optional, possibly empty `error` member.
pub open spec fn error_member_view(error: Option<Option<String>>) -> Option<Option<Seq<char>>> {
    match error {
        Some(Some(d)) => Some(Some(d@)),
        Some(None) => Some(None),
        None => None,
    }
}

/// The text of an optional content.
pub open spec fn content_view(content: Option<String>) -> Option<Seq<char>> {
    match content {
        Some(c) => Some(c@),
        None => None,
    }
}

/// The answer of a chat-completion endpoint asked to explain findings: an
/// error when the status is not a success or the reply has an `error`
/// member, else the first choice's content (empty when there is none).
pub fn completion_answer(
    status: &str,
    success: bool,
    error: Option<Option<String>>,
    content: Option<String>,
) -> (r: Result<String, String>)
    ensures
        match (r, completion_answer_spec(status@, success, error_member_view(error), content_view(content))) {
            (Ok(a), Ok(b)) => a@ == b,
            (Err(a), Err(b)) => a@ == b,
            _ => false,
        },
{
    let ghost ev = error_member_view(error);
    let present = error.is_some();
    let mut detail = chars_of("unknown error");
    match error {
        Some(Some(d)) => {
            detail = chars_of(d.as_str());
        },
        _ => {},
    }
    assert(detail@ == completion_detail(ev));
    if !success {
        let mut v = chars_of("vLLM API returned ");
        append_str(&mut v, status);
        append_str(&mut v, ": ");
        let d = string_from_chars(detail.as_slice());
        append_str(&mut v, d.as_str());
        return Err(string_from_chars(v.as_slice()));
    }
    if present {
        let mut v = chars_of("vLLM API error: ");
        let d = string_from_chars(detail.as_slice());
        append_str(&mut v, d.as_str());
        return Err(string_from_chars(v.as_slice()));
    }
    match content {
        Some(c) => Ok(c),
        None => Ok(String::new()),
    }
}


/// Whether some finding concerns the wire field `wire`.
pub open spec fn finds_at(errs: Seq<ErrorView>, wire: Seq<char>) -> bool {
    exists|k: int| 0 <= k < errs.len() && (#[trigger] errs[k]).wire_field == wire
}

broadcast proof fn lemma_finds_concat(a: Seq<ErrorView>, b: Seq<ErrorView>, wire: Seq<char>)
    ensures
        #[trigger] finds_at(a + b, wire) == (finds_at(a, wire) || finds_at(b, wire)),
{
    if finds_at(a + b, wire) {
        let k = choose|k: int| 0 <= k < (a + b).len() && (#[trigger] (a + b)[k]).wire_field == wire;
        if k < a.len() {
            assert(a[k] == (a + b)[k]);
        } else {
            assert(b[k - a.len()] == (a + b)[k]);
        }
    }
    if finds_at(a, wire) {
        let k = choose|k: int| 0 <= k < a.len() && (#[trigger] a[k]).wire_field == wire;
        assert((a + b)[k] == a[k]);
    }
    if finds_at(b, wire) {
        let k = choose|k: int| 0 <= k < b.len() && (#[trigger] b[k]).wire_field == wire;
        assert((a + b)[k + a.len()] == b[k]);
    }
}

broadcast proof fn lemma_finds_when(c: bool, e: ErrorView, wire: Seq<char>)
    ensures
        #[trigger] finds_at(when(c, e), wire) == (c && e.wire_field == wire),
{
    if c {
        assert(when(c, e)[0] == e);
    }
}

proof fn lemma_finds_empty(wire: Seq<char>)
    ensures
        !finds_at(Seq::<ErrorView>::empty(), wire),
{
}

/// The wire fields of the envelope and link checks differ from that of the
/// link endpoints: by length.
proof fn lemma_link_wire_fields_differ()
    ensures
        "event_id_a+event_id_b / unique_id_a+unique_id_b"@.len() == 47,
        "to"@.len() == 2,
        "from"@.len() == 4,
        "intent"@.len() == 6,
        "id:name"@.len() == 7,
        "category"@.len() == 8,
        "timestamp"@.len() == 9,
        "loc"@.len() == 3,
        "loc_delim"@.len() == 9,
        "owner_event_id/owner_unique_id"@.len() == 30,
        "LinkEvent"@.len() == 9,
{
    reveal_strlit("event_id_a+event_id_b / unique_id_a+unique_id_b");
    reveal_strlit("to");
    reveal_strlit("from");
    reveal_strlit("intent");
    reveal_strlit("id:name");
    reveal_strlit("category");
    reveal_strlit("timestamp");
    reveal_strlit("loc");
    reveal_strlit("loc_delim");
    reveal_strlit("owner_event_id/owner_unique_id");
    reveal_strlit("LinkEvent");
}

/// A link request is told that its endpoints are missing exactly when
/// neither the event-id pair nor the unique-id pair is fully set: a link
/// whose `unique_id_a` and `unique_id_b` are both set (or whose `event_a`
/// and `event_b` are) gets no endpoint finding from `Message::validate`.
pub proof fn lemma_link_endpoints_checked(m: Message)
    requires
        m.envelope.intent.same(spec_link_event()),
        m.spec_link() is Some,
    ensures
        ({
            let l = m.spec_link().unwrap();
            finds_at(message_errors(m), "event_id_a+event_id_b / unique_id_a+unique_id_b"@) == (!(
            l.event_a@.len() > 0 && l.event_b@.len() > 0) && !(l.unique_id_a@.len() > 0
                && l.unique_id_b@.len() > 0))
        }),
{
    lemma_link_wire_fields_differ();
    crate::message::intents::lemma_request_commands_distinct();
    lemma_finds_empty("event_id_a+event_id_b / unique_id_a+unique_id_b"@);
    broadcast use lemma_finds_concat, lemma_finds_when;
    assert(!m.envelope.intent.spec_is_zero());
    assert(intent_errors(m) == link_event_errors(m));
}

/// The wire fields the struct-level checks name, told apart by length or by
/// one of their characters.
proof fn lemma_check_wire_fields_differ()
    ensures
        "to"@.len() == 2,
        "from"@.len() == 4,
        "intent"@.len() == 6,
        "id:name"@.len() == 7,
        "timestamp"@.len() == 9 && "timestamp"@[0] == 't',
        "owner/owner_unique_id"@.len() == 21,
        "loc"@.len() == 3,
        "loc_delim"@.len() == 9 && "loc_delim"@[0] == 'l',
        "category"@.len() == 8,
        "owner_event_id/owner_unique_id"@.len() == 30,
        "event_id/unique_id"@.len() == 18,
        "event_id_a+event_id_b / unique_id_a+unique_id_b"@.len() == 47,
        "id:user"@.len() == 7,
        "id:passcode"@.len() == 11,
        "_status"@.len() == 7,
        "_msg"@.len() == 4,
        "key"@.len() == 3 && "key"@[0] == 'k',
        ""@.len() == 0,
{
    reveal_strlit("key");
    reveal_strlit("to");
    reveal_strlit("from");
    reveal_strlit("intent");
    reveal_strlit("id:name");
    reveal_strlit("timestamp");
    reveal_strlit("owner/owner_unique_id");
    reveal_strlit("loc");
    reveal_strlit("loc_delim");
    reveal_strlit("category");
    reveal_strlit("owner_event_id/owner_unique_id");
    reveal_strlit("event_id/unique_id");
    reveal_strlit("event_id_a+event_id_b / unique_id_a+unique_id_b");
    reveal_strlit("id:user");
    reveal_strlit("id:passcode");
    reveal_strlit("_status");
    reveal_strlit("_msg");
    reveal_strlit("");
}

/// The envelope is told of each of its faults exactly when it has it: the
/// `to` address when it is empty or lacks `@`, the `from` address likewise,
/// the intent when it is zero, and the client name when a gateway
/// identification has none.
pub proof fn lemma_envelope_checked(m: Message)
    ensures
        finds_at(envelope_errors(m), "to"@) == (m.envelope.to@.len() == 0
            || !m.envelope.to@.contains('@')),
        finds_at(envelope_errors(m), "from"@) == (m.envelope.from@.len() == 0
            || !m.envelope.from@.contains('@')),
        finds_at(envelope_errors(m), "intent"@) == m.envelope.intent.spec_is_zero(),
        finds_at(envelope_errors(m), "id:name"@) == (m.envelope.intent.same(spec_gateway_id())
            && m.envelope.client_name@.len() == 0),
{
    lemma_check_wire_fields_differ();
    lemma_finds_empty("to"@);
    lemma_finds_empty("from"@);
    lemma_finds_empty("intent"@);
    lemma_finds_empty("id:name"@);
    broadcast use lemma_finds_concat, lemma_finds_when;
}

/// A store-event request is told of each missing part exactly when it is
/// missing: the timestamp (a warning), an owner (when neither `owner` nor
/// `owner_unique_id` is set), the location and the location separator.
pub proof fn lemma_store_event_checked(m: Message)
    requires
        m.event is Some,
    ensures
        ({
            let e = m.event.unwrap();
            &&& finds_at(store_event_errors(m), "timestamp"@) == (e.timestamp@.len() == 0)
            &&& finds_at(store_event_errors(m), "owner/owner_unique_id"@) == (e.owner@.len() == 0
                && e.owner_unique_id@.len() == 0)
            &&& finds_at(store_event_errors(m), "loc"@) == (e.location@.len() == 0)
            &&& finds_at(store_event_errors(m), "loc_delim"@) == (e.location_separator@.len() == 0)
        }),
{
    lemma_check_wire_fields_differ();
    lemma_finds_empty("timestamp"@);
    lemma_finds_empty("owner/owner_unique_id"@);
    lemma_finds_empty("loc"@);
    lemma_finds_empty("loc_delim"@);
    broadcast use lemma_finds_concat, lemma_finds_when;
}

/// A get-event request is told that it names no event exactly when it has
/// neither an id nor a unique id.
pub proof fn lemma_get_event_checked(m: Message)
    requires
        m.event is Some,
    ensures
        finds_at(get_event_errors(m), "event_id/unique_id"@) == (m.event.unwrap().id@.len() == 0
            && m.event.unwrap().unique_id@.len() == 0),
{
    lemma_check_wire_fields_differ();
    lemma_finds_empty("event_id/unique_id"@);
    broadcast use lemma_finds_concat, lemma_finds_when;
}

/// A link request is told of each missing part of its link exactly when it
/// is missing: the category, the timestamp, the location, the location
/// separator, and an owner (when neither `owner_id` nor `owner_unique_id`
/// is set).
#[verifier::rlimit(50)]
#[verifier::spinoff_prover]
pub proof fn lemma_link_parts_checked(m: Message)
    requires
        m.spec_link() is Some,
    ensures
        ({
            let l = m.spec_link().unwrap();
            &&& finds_at(link_event_errors(m), "category"@) == (l.category@.len() == 0)
            &&& finds_at(link_event_errors(m), "timestamp"@) == (l.timestamp@.len() == 0)
            &&& finds_at(link_event_errors(m), "loc"@) == (l.location@.len() == 0)
            &&& finds_at(link_event_errors(m), "loc_delim"@) == (l.location_separator@.len() == 0)
            &&& finds_at(link_event_errors(m), "owner_event_id/owner_unique_id"@) == (
            l.owner_id@.len() == 0 && l.owner_unique_id@.len() == 0)
        }),
{
    lemma_check_wire_fields_differ();
    lemma_finds_empty("category"@);
    lemma_finds_empty("timestamp"@);
    lemma_finds_empty("loc"@);
    lemma_finds_empty("loc_delim"@);
    lemma_finds_empty("owner_event_id/owner_unique_id"@);
    broadcast use lemma_finds_concat, lemma_finds_when;
}

/// An unlink request is told that it names no link exactly when its link
/// has neither an id nor a unique id, and of a missing location separator
/// exactly when it gives a location without one.
pub proof fn lemma_unlink_checked(m: Message)
    requires
        m.spec_link() is Some,
    ensures
        ({
            let l = m.spec_link().unwrap();
            &&& finds_at(unlink_event_errors(m), "event_id/unique_id"@) == (l.id@.len() == 0
                && l.unique_id@.len() == 0)
            &&& finds_at(unlink_event_errors(m), "loc_delim"@) == (l.location@.len() > 0
                && l.location_separator@.len() == 0)
        }),
{
    lemma_check_wire_fields_differ();
    lemma_finds_empty("event_id/unique_id"@);
    lemma_finds_empty("loc_delim"@);
    broadcast use lemma_finds_concat, lemma_finds_when;
}

/// A gateway identification is told that its user name is missing exactly
/// when it gives a passcode without one, and that its passcode is missing
/// exactly when it gives a user name without one.
pub proof fn lemma_gateway_credentials_checked(m: Message)
    ensures
        finds_at(gateway_id_errors(m), "id:user"@) == (m.envelope.passcode@.len() > 0
            && m.envelope.user_name@.len() == 0),
        finds_at(gateway_id_errors(m), "id:passcode"@) == (m.envelope.user_name@.len() > 0
            && m.envelope.passcode@.len() == 0),
{
    lemma_check_wire_fields_differ();
    lemma_finds_empty("id:user"@);
    lemma_finds_empty("id:passcode"@);
    broadcast use lemma_finds_concat, lemma_finds_when;
}

/// An actor report is told of a missing status exactly when its response
/// has none, and of a missing message exactly when it has none.
pub proof fn lemma_actor_report_checked(m: Message)
    requires
        m.response is Some,
    ensures
        finds_at(actor_report_errors(m), "_status"@) == (m.response.unwrap().status@.len() == 0),
        finds_at(actor_report_errors(m), "_msg"@) == (m.response.unwrap().message@.len() == 0),
{
    lemma_check_wire_fields_differ();
    lemma_finds_empty("_status"@);
    lemma_finds_empty("_msg"@);
    broadcast use lemma_finds_concat, lemma_finds_when;
}

/// Event `i` of a batch event store is told of each missing part exactly
/// when it is missing: the timestamp, an owner (neither `owner` nor
/// `owner_unique_id`), the location and the location separator.
pub proof fn lemma_batch_event_item_checked(x: BatchEventSpec, i: int)
    ensures
        ({
            let e = x.event;
            let es = batch_event_item_errors(x, i);
            &&& finds_at(es, "timestamp"@) == (e.timestamp@.len() == 0)
            &&& finds_at(es, "owner/owner_unique_id"@) == (e.owner@.len() == 0
                && e.owner_unique_id@.len() == 0)
            &&& finds_at(es, "loc"@) == (e.location@.len() == 0)
            &&& finds_at(es, "loc_delim"@) == (e.location_separator@.len() == 0)
        }),
{
    lemma_check_wire_fields_differ();
    lemma_finds_empty("timestamp"@);
    lemma_finds_empty("owner/owner_unique_id"@);
    lemma_finds_empty("loc"@);
    lemma_finds_empty("loc_delim"@);
    broadcast use lemma_finds_concat, lemma_finds_when;
}

/// Spec `i` of a batch link store is told of each missing part exactly when
/// it is missing: an event owner, the link's endpoints (neither pair fully
/// set), its category and its owner; and of a missing timestamp, location
/// or location separator exactly when the event or the link lacks it.
#[verifier::rlimit(50)]
#[verifier::spinoff_prover]
pub proof fn lemma_batch_link_item_checked(x: BatchLinkEventSpec, i: int)
    ensures
        ({
            let e = x.event;
            let l = x.link;
            let es = batch_link_item_errors(x, i);
            &&& finds_at(es, "owner/owner_unique_id"@) == (e.owner@.len() == 0
                && e.owner_unique_id@.len() == 0)
            &&& finds_at(es, "event_id_a+event_id_b / unique_id_a+unique_id_b"@) == (!(
            l.event_a@.len() > 0 && l.event_b@.len() > 0) && !(l.unique_id_a@.len() > 0
                && l.unique_id_b@.len() > 0))
            &&& finds_at(es, "category"@) == (l.category@.len() == 0)
            &&& finds_at(es, "owner_event_id/owner_unique_id"@) == (l.owner_id@.len() == 0
                && l.owner_unique_id@.len() == 0)
            &&& finds_at(es, "timestamp"@) == (e.timestamp@.len() == 0 || l.timestamp@.len() == 0)
            &&& finds_at(es, "loc"@) == (e.location@.len() == 0 || l.location@.len() == 0)
            &&& finds_at(es, "loc_delim"@) == (e.location_separator@.len() == 0
                || l.location_separator@.len() == 0)
        }),
{
    lemma_check_wire_fields_differ();
    lemma_finds_empty("owner/owner_unique_id"@);
    lemma_finds_empty("event_id_a+event_id_b / unique_id_a+unique_id_b"@);
    lemma_finds_empty("category"@);
    lemma_finds_empty("owner_event_id/owner_unique_id"@);
    lemma_finds_empty("timestamp"@);
    lemma_finds_empty("loc"@);
    lemma_finds_empty("loc_delim"@);
    broadcast use lemma_finds_concat, lemma_finds_when;
}

/// A batch tag store is told that it names no target event exactly when it
/// has no event with an id or a unique id, and that it has no owner exactly
/// when it has no event with an owner or owner unique id; tag `i` is told
/// its key is empty exactly when it is.
pub proof fn lemma_batch_tags_checked(m: Message, x: Tag, i: int)
    ensures
        finds_at(store_batch_tags_errors(m), "event_id/unique_id"@) == !(m.event matches Some(e)
            && (e.id@.len() > 0 || e.unique_id@.len() > 0)),
        finds_at(store_batch_tags_errors(m), "owner/owner_unique_id"@) == !(m.event matches Some(e)
            && (e.owner@.len() > 0 || e.owner_unique_id@.len() > 0)),
        finds_at(batch_tag_item_errors(x, i), "key"@) == (x.key@.len() == 0),
{
    lemma_check_wire_fields_differ();
    lemma_finds_empty("event_id/unique_id"@);
    lemma_finds_empty("owner/owner_unique_id"@);
    lemma_finds_empty("key"@);
    broadcast use lemma_finds_concat, lemma_finds_when;
    match m.neural_memory {
        Some(nm) => {
            lemma_tag_items_lack(nm.tags@, nm.tags@.len());
        },
        None => {},
    }
}

/// The checks of the tags of a batch name no wire field but `key`.
proof fn lemma_tag_items_lack(xs: Seq<Tag>, n: nat)
    requires
        n <= xs.len(),
    ensures
        !finds_at(batch_tag_items_errors(xs, n), "event_id/unique_id"@),
        !finds_at(batch_tag_items_errors(xs, n), "owner/owner_unique_id"@),
    decreases n,
{
    lemma_check_wire_fields_differ();
    lemma_finds_empty("event_id/unique_id"@);
    lemma_finds_empty("owner/owner_unique_id"@);
    broadcast use lemma_finds_concat, lemma_finds_when;
    if n > 0 {
        lemma_tag_items_lack(xs, (n - 1) as nat);
    }
}

} // verus!
