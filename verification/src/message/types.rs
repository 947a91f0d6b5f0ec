//! Message data types.
//!
//! Text fields are `String`s.  Values the gateway exchanges as decimal text of
//! a floating-point number (link strengths, float tag values) and JSON tag
//! values are held as that text: it is what goes on the wire.

use vstd::prelude::*;

use crate::message::intents::Intent;

verus! {

// ─────────────────────────────────────────────
// Primitive helpers
// ─────────────────────────────────────────────

/// Nullable integer — `None` means "not set / omit from wire".
pub type NullInt = Option<i64>;

/// Raw payload data — string, bytes, or multiple strings.
#[derive(Debug, Clone, Default)]
pub enum PayloadData {
    #[default]
    Empty,
    Text(String),
    Binary(Vec<u8>),
    Lines(Vec<String>),
}

impl PayloadData {
    pub fn is_empty(&self) -> (r: bool)
        ensures
            r == (*self is Empty),
    {
        match self {
            PayloadData::Empty => true,
            _ => false,
        }
    }
}

/// Payload encoding type (only RAW = 0 is currently supported).
#[derive(Debug, Clone, Copy, Default, PartialEq, Eq, Structural)]
pub enum DataType {
    #[default]
    Raw,
}

impl DataType {
    /// The wire number of the data type.
    pub fn as_wire_int(self) -> (r: i32)
        ensures
            r == 0,
    {
        match self {
            DataType::Raw => 0,
        }
    }

    /// Every wire number reads as `Raw`.
    pub fn from_wire_int(v: i32) -> (r: Self)
        ensures
            r == DataType::Raw,
    {
        DataType::Raw
    }
}

// ─────────────────────────────────────────────
// Date / time
// ─────────────────────────────────────────────

#[derive(Debug, Clone)]
pub struct DateTimeObject {
    pub year: i32,
    pub month: i32,
    pub day: i32,
    pub hour: i32,
    pub min: i32,
    pub sec: i32,
    pub usec: i32,
}

impl DateTimeObject {
    /// Every field empty, zero or absent.
    pub open spec fn is_blank(self) -> bool {
        &&& self.year == 0
        &&& self.month == 0
        &&& self.day == 0
        &&& self.hour == 0
        &&& self.min == 0
        &&& self.sec == 0
        &&& self.usec == 0
    }
}

impl Default for DateTimeObject {
    fn default() -> (r: Self)
        ensures
            r.is_blank(),
    {
        DateTimeObject {
            year: 0,
            month: 0,
            day: 0,
            hour: 0,
            min: 0,
            sec: 0,
            usec: 0,
        }
    }
}

// ─────────────────────────────────────────────
// Tag types
// ─────────────────────────────────────────────

/// Structured tag value.  `Float` holds the decimal text of the number and
/// `Json` the compact JSON text of the value.
#[derive(Debug, Clone)]
pub enum TagValue {
    Text(String),
    Int(i64),
    Float(String),
    Bool(bool),
    Json(String),
}

impl Default for TagValue {
    fn default() -> (r: Self)
        ensures
            r matches TagValue::Text(s) && s@.len() == 0,
    {
        TagValue::Text(String::new())
    }
}

impl TagValue {
    pub fn as_str(&self) -> (r: Option<&str>)
        ensures
            match self {
                TagValue::Text(s) => r matches Some(x) && x@ == s@,
                _ => r is None,
            },
    {
        match self {
            TagValue::Text(s) => Some(s.as_str()),
            _ => None,
        }
    }

    pub fn as_int(&self) -> (r: Option<i64>)
        ensures
            match self {
                TagValue::Int(n) => r == Some(*n),
                _ => r is None,
            },
    {
        match self {
            TagValue::Int(n) => Some(*n),
            _ => None,
        }
    }

    /// The decimal text of a float value.
    pub fn as_float(&self) -> (r: Option<&str>)
        ensures
            match self {
                TagValue::Float(s) => r matches Some(x) && x@ == s@,
                _ => r is None,
            },
    {
        match self {
            TagValue::Float(s) => Some(s.as_str()),
            _ => None,
        }
    }

    pub fn as_bool(&self) -> (r: Option<bool>)
        ensures
            match self {
                TagValue::Bool(b) => r == Some(*b),
                _ => r is None,
            },
    {
        match self {
            TagValue::Bool(b) => Some(*b),
            _ => None,
        }
    }
}

/// Tag as used in `NeuralMemoryFields` and batch operations.
#[derive(Debug, Clone, Default)]
pub struct Tag {
    pub frequency: i32,
    pub key: String,
    pub value: TagValue,
    pub timestamp: String,
    pub id: String,
}

/// Ordered list of tags.
pub type TagList = Vec<Tag>;

/// Tag as returned in decoded responses.
#[derive(Debug, Clone)]
pub struct TagOutput {
    pub frequency: i32,
    pub category: String,
    pub key: String,
    pub value: String,
    pub owner: String,
    pub timestamp: String,
    pub target_tag_id: String,
}

impl TagOutput {
    /// Every field empty, zero or absent.
    pub open spec fn is_blank(self) -> bool {
        &&& self.frequency == 0
        &&& self.category@.len() == 0
        &&& self.key@.len() == 0
        &&& self.value@.len() == 0
        &&& self.owner@.len() == 0
        &&& self.timestamp@.len() == 0
        &&& self.target_tag_id@.len() == 0
    }
}

impl Default for TagOutput {
    fn default() -> (r: Self)
        ensures
            r.is_blank(),
    {
        TagOutput {
            frequency: 0,
            category: String::new(),
            key: String::new(),
            value: String::new(),
            owner: String::new(),
            timestamp: String::new(),
            target_tag_id: String::new(),
        }
    }
}

// ─────────────────────────────────────────────
// Link / event reference
// ─────────────────────────────────────────────

/// A link between two events.  `strength_a` / `strength_b` hold the decimal
/// text of the link strengths; empty, `"0"` and `"-0"` mean zero.
#[derive(Debug, Clone)]
pub struct LinkFields {
    pub unique_id: String,
    pub id: String,
    pub local_id: String,
    pub owner: String,
    pub timestamp: String,
    pub date_time: DateTimeObject,
    pub location: String,
    pub location_separator: String,
    pub event_a: String,
    pub event_b: String,
    pub unique_id_a: String,
    pub unique_id_b: String,
    pub strength_a: String,
    pub strength_b: String,
    pub category: String,
    pub link_type: String,
    pub owner_unique_id: String,
    pub owner_id: String,
    pub tags: Vec<TagOutput>,
    pub target_tags: Vec<TagOutput>,
    pub status: String,
    pub message: String,
}

impl LinkFields {
    /// Every field empty, zero or absent.
    pub open spec fn is_blank(self) -> bool {
        &&& self.unique_id@.len() == 0
        &&& self.id@.len() == 0
        &&& self.local_id@.len() == 0
        &&& self.owner@.len() == 0
        &&& self.timestamp@.len() == 0
        &&& self.date_time.is_blank()
        &&& self.location@.len() == 0
        &&& self.location_separator@.len() == 0
        &&& self.event_a@.len() == 0
        &&& self.event_b@.len() == 0
        &&& self.unique_id_a@.len() == 0
        &&& self.unique_id_b@.len() == 0
        &&& self.strength_a@.len() == 0
        &&& self.strength_b@.len() == 0
        &&& self.category@.len() == 0
        &&& self.link_type@.len() == 0
        &&& self.owner_unique_id@.len() == 0
        &&& self.owner_id@.len() == 0
        &&& self.tags@.len() == 0
        &&& self.target_tags@.len() == 0
        &&& self.status@.len() == 0
        &&& self.message@.len() == 0
    }
}

impl Default for LinkFields {
    fn default() -> (r: Self)
        ensures
            r.is_blank(),
    {
        LinkFields {
            unique_id: String::new(),
            id: String::new(),
            local_id: String::new(),
            owner: String::new(),
            timestamp: String::new(),
            date_time: DateTimeObject::default(),
            location: String::new(),
            location_separator: String::new(),
            event_a: String::new(),
            event_b: String::new(),
            unique_id_a: String::new(),
            unique_id_b: String::new(),
            strength_a: String::new(),
            strength_b: String::new(),
            category: String::new(),
            link_type: String::new(),
            owner_unique_id: String::new(),
            owner_id: String::new(),
            tags: Vec::new(),
            target_tags: Vec::new(),
            status: String::new(),
            message: String::new(),
        }
    }
}

// ─────────────────────────────────────────────
// Event fields
// ─────────────────────────────────────────────

#[derive(Debug, Clone)]
pub struct EventFields {
    pub unique_id: String,
    pub id: String,
    pub local_id: String,
    pub owner: String,
    pub owner_unique_id: String,
    pub timestamp: String,
    pub date_time: DateTimeObject,
    pub location: String,
    pub location_separator: String,
    pub event_type: String,
    pub tags: Vec<TagOutput>,
    pub links: Vec<LinkFields>,
    pub payload_data: PayloadFields,
    pub status: String,
    pub hits: i32,
}

impl EventFields {
    /// Every field empty, zero or absent.
    pub open spec fn is_blank(self) -> bool {
        &&& self.unique_id@.len() == 0
        &&& self.id@.len() == 0
        &&& self.local_id@.len() == 0
        &&& self.owner@.len() == 0
        &&& self.owner_unique_id@.len() == 0
        &&& self.timestamp@.len() == 0
        &&& self.date_time.is_blank()
        &&& self.location@.len() == 0
        &&& self.location_separator@.len() == 0
        &&& self.event_type@.len() == 0
        &&& self.tags@.len() == 0
        &&& self.links@.len() == 0
        &&& self.payload_data.is_blank()
        &&& self.status@.len() == 0
        &&& self.hits == 0
    }
}

impl Default for EventFields {
    fn default() -> (r: Self)
        ensures
            r.is_blank(),
    {
        EventFields {
            unique_id: String::new(),
            id: String::new(),
            local_id: String::new(),
            owner: String::new(),
            owner_unique_id: String::new(),
            timestamp: String::new(),
            date_time: DateTimeObject::default(),
            location: String::new(),
            location_separator: String::new(),
            event_type: String::new(),
            tags: Vec::new(),
            links: Vec::new(),
            payload_data: PayloadFields::default(),
            status: String::new(),
            hits: 0,
        }
    }
}

// ─────────────────────────────────────────────
// Payload
// ─────────────────────────────────────────────

#[derive(Debug, Clone)]
pub struct PayloadFields {
    pub data: PayloadData,
    pub data_type: DataType,
    pub mime_type: String,
    pub data_size: i32,
}

impl PayloadFields {
    /// Every field empty, zero or absent.
    pub open spec fn is_blank(self) -> bool {
        &&& self.data is Empty
        &&& self.data_type == DataType::Raw
        &&& self.mime_type@.len() == 0
        &&& self.data_size == 0
    }
}

impl Default for PayloadFields {
    fn default() -> (r: Self)
        ensures
            r.is_blank(),
    {
        PayloadFields {
            data: PayloadData::Empty,
            data_type: DataType::Raw,
            mime_type: String::new(),
            data_size: 0,
        }
    }
}

// ─────────────────────────────────────────────
// NeuralMemory query options
// ─────────────────────────────────────────────

#[derive(Debug, Clone, Default)]
pub struct GetEventOptions {
    pub send_data: bool,
    pub local_id_only: bool,
    pub get_tags: bool,
    pub get_links: bool,
    pub get_link_tags: bool,
    pub get_target_tags: bool,
    pub tag_format: NullInt,
    pub request_format: i32,
    pub first_link: i32,
    pub link_count: i32,
    pub event_facet_filter: String,
    pub link_facet_filter: String,
    pub target_facet_filter: String,
    pub category_filter: String,
    pub tag_filter: String,
}

#[derive(Debug, Clone, Default)]
pub struct GetEventsForTagsOptions {
    pub event_pattern: String,
    pub event_pattern_high: String,
    pub include_brief_hits: bool,
    pub get_all_data: bool,
    pub first_link: i32,
    pub link_count: i32,
    pub events_per_message: i32,
    pub start_result: i32,
    pub end_result: i32,
    pub min_event_hits: i32,
    pub count_only: bool,
    pub get_match_links: bool,
    pub count_match_links: bool,
    pub get_link_tags: bool,
    pub get_target_tags: bool,
    pub link_tag_filter: String,
    pub linked_events_filter: String,
    pub link_category: String,
    pub owner: String,
    pub owner_unique_id: String,
    pub get_event_object_count: bool,
    pub buffer_results: bool,
    pub include_tag_stats: bool,
    pub invert_hit_tag_filter: bool,
    pub hit_tag_filter: String,
    pub buffer_format: String,
}

#[derive(Debug, Clone, Default)]
pub struct SearchOptions {
    pub pattern: String,
}

// ─────────────────────────────────────────────
// Response fields
// ─────────────────────────────────────────────

#[derive(Debug, Clone)]
pub struct ResponseFields {
    pub status: String,
    pub message: String,
    pub tag_count: i32,
    pub link_count: i32,
    pub link_id: String,
    pub date_time: DateTimeObject,
    pub total_events: i32,
    pub returned_events: i32,
    pub start_result: i32,
    pub end_result: i32,
    pub storage_error_count: i32,
    pub storage_success_count: i32,
    pub event_records: Vec<EventFields>,
    pub store_link_batch_event_record: StoreLinkBatchEventRecord,
    pub store_batch_event_record: StoreBatchEventRecord,
    pub match_term_count: i32,
    pub is_buffered: bool,
    pub brief_hits: Vec<BriefHitRecord>,
}

impl ResponseFields {
    /// Every field empty, zero or absent.
    pub open spec fn is_blank(self) -> bool {
        &&& self.status@.len() == 0
        &&& self.message@.len() == 0
        &&& self.tag_count == 0
        &&& self.link_count == 0
        &&& self.link_id@.len() == 0
        &&& self.date_time.is_blank()
        &&& self.total_events == 0
        &&& self.returned_events == 0
        &&& self.start_result == 0
        &&& self.end_result == 0
        &&& self.storage_error_count == 0
        &&& self.storage_success_count == 0
        &&& self.event_records@.len() == 0
        &&& self.store_link_batch_event_record.is_blank()
        &&& self.store_batch_event_record.is_blank()
        &&& self.match_term_count == 0
        &&& !self.is_buffered
        &&& self.brief_hits@.len() == 0
    }

    /// Every field but the status and its message empty, zero or absent.
    pub open spec fn carries_only_outcome(self) -> bool {
        &&& self.tag_count == 0
        &&& self.link_count == 0
        &&& self.link_id@.len() == 0
        &&& self.date_time.is_blank()
        &&& self.total_events == 0
        &&& self.returned_events == 0
        &&& self.start_result == 0
        &&& self.end_result == 0
        &&& self.storage_error_count == 0
        &&& self.storage_success_count == 0
        &&& self.event_records@.len() == 0
        &&& self.store_link_batch_event_record.is_blank()
        &&& self.store_batch_event_record.is_blank()
        &&& self.match_term_count == 0
        &&& !self.is_buffered
        &&& self.brief_hits@.len() == 0
    }
}

impl Default for ResponseFields {
    fn default() -> (r: Self)
        ensures
            r.is_blank(),
    {
        ResponseFields {
            status: String::new(),
            message: String::new(),
            tag_count: 0,
            link_count: 0,
            link_id: String::new(),
            date_time: DateTimeObject::default(),
            total_events: 0,
            returned_events: 0,
            start_result: 0,
            end_result: 0,
            storage_error_count: 0,
            storage_success_count: 0,
            event_records: Vec::new(),
            store_link_batch_event_record: StoreLinkBatchEventRecord::default(),
            store_batch_event_record: StoreBatchEventRecord::default(),
            match_term_count: 0,
            is_buffered: false,
            brief_hits: Vec::new(),
        }
    }
}

// ─────────────────────────────────────────────
// Batch types
// ─────────────────────────────────────────────

#[derive(Debug, Clone, Default)]
pub struct BatchEventSpec {
    pub event: EventFields,
    pub tags: TagList,
}

#[derive(Debug, Clone, Default)]
pub struct BatchLinkEventSpec {
    pub event: EventFields,
    pub link: LinkFields,
}

#[derive(Debug, Clone)]
pub struct BriefHitRecord {
    pub event_id: String,
    pub total_hits: i32,
}

impl BriefHitRecord {
    /// Every field empty, zero or absent.
    pub open spec fn is_blank(self) -> bool {
        &&& self.event_id@.len() == 0
        &&& self.total_hits == 0
    }
}

impl Default for BriefHitRecord {
    fn default() -> (r: Self)
        ensures
            r.is_blank(),
    {
        BriefHitRecord {
            event_id: String::new(),
            total_hits: 0,
        }
    }
}

#[derive(Debug, Clone)]
pub struct StoreBatchEventRecord {
    pub status: String,
    pub message: String,
    pub event_count: i32,
    pub event_results: Vec<EventFields>,
}

impl StoreBatchEventRecord {
    /// Every field empty, zero or absent.
    pub open spec fn is_blank(self) -> bool {
        &&& self.status@.len() == 0
        &&& self.message@.len() == 0
        &&& self.event_count == 0
        &&& self.event_results@.len() == 0
    }
}

impl Default for StoreBatchEventRecord {
    fn default() -> (r: Self)
        ensures
            r.is_blank(),
    {
        StoreBatchEventRecord {
            status: String::new(),
            message: String::new(),
            event_count: 0,
            event_results: Vec::new(),
        }
    }
}

#[derive(Debug, Clone)]
pub struct StoreLinkBatchEventRecord {
    pub status: String,
    pub message: String,
    pub total_link_requests_found: i32,
    pub links_ok: i32,
    pub links_with_errors: i32,
    pub link_results: Vec<LinkFields>,
}

impl StoreLinkBatchEventRecord {
    /// Every field empty, zero or absent.
    pub open spec fn is_blank(self) -> bool {
        &&& self.status@.len() == 0
        &&& self.message@.len() == 0
        &&& self.total_link_requests_found == 0
        &&& self.links_ok == 0
        &&& self.links_with_errors == 0
        &&& self.link_results@.len() == 0
    }
}

impl Default for StoreLinkBatchEventRecord {
    fn default() -> (r: Self)
        ensures
            r.is_blank(),
    {
        StoreLinkBatchEventRecord {
            status: String::new(),
            message: String::new(),
            total_link_requests_found: 0,
            links_ok: 0,
            links_with_errors: 0,
            link_results: Vec::new(),
        }
    }
}

// ─────────────────────────────────────────────
// NeuralMemory fields
// ─────────────────────────────────────────────

#[derive(Debug, Clone, Default)]
pub struct NeuralMemoryFields {
    pub get_event: Option<GetEventOptions>,
    pub get_events_for_tags: Option<GetEventsForTagsOptions>,
    pub search: Option<SearchOptions>,
    pub link: Option<LinkFields>,
    pub batch_links: Vec<BatchLinkEventSpec>,
    pub unlink: Option<LinkFields>,
    pub tags: TagList,
    pub batch_events: Vec<BatchEventSpec>,
}

// ─────────────────────────────────────────────
// Envelope + Message
// ─────────────────────────────────────────────

/// Routing envelope — present in every message.
#[derive(Debug, Clone)]
pub struct Envelope {
    /// `"actor@gateway.domain"` — destination address.
    pub to: String,
    /// `"clientName@gateway.domain"` — source address.
    pub from: String,
    pub intent: Intent,
    pub client_name: String,
    pub message_id: String,
    pub passcode: String,
    pub user_name: String,
}

impl Envelope {
    /// Every field empty, zero or absent.
    pub open spec fn is_blank(self) -> bool {
        &&& self.to@.len() == 0
        &&& self.from@.len() == 0
        &&& self.intent == crate::message::intents::zero_intent()
        &&& self.client_name@.len() == 0
        &&& self.message_id@.len() == 0
        &&& self.passcode@.len() == 0
        &&& self.user_name@.len() == 0
    }
}

impl Default for Envelope {
    fn default() -> (r: Self)
        ensures
            r.is_blank(),
    {
        Envelope {
            to: String::new(),
            from: String::new(),
            intent: Intent::default(),
            client_name: String::new(),
            message_id: String::new(),
            passcode: String::new(),
            user_name: String::new(),
        }
    }
}

/// Top-level message, combining envelope with optional payload sections.
#[derive(Debug, Clone)]
pub struct Message {
    pub envelope: Envelope,
    pub event: Option<EventFields>,
    pub payload: Option<PayloadFields>,
    pub neural_memory: Option<NeuralMemoryFields>,
    pub response: Option<ResponseFields>,
    pub public_key: Option<Vec<u8>>,
}

impl Message {
    /// Every field empty, zero or absent.
    pub open spec fn is_blank(self) -> bool {
        &&& self.envelope.is_blank()
        &&& self.event is None
        &&& self.payload is None
        &&& self.neural_memory is None
        &&& self.response is None
        &&& self.public_key is None
    }
}

impl Default for Message {
    fn default() -> (r: Self)
        ensures
            r.is_blank(),
    {
        Message {
            envelope: Envelope::default(),
            event: None,
            payload: None,
            neural_memory: None,
            response: None,
            public_key: None,
        }
    }
}

/// The text of an optional string field (empty when absent).
pub open spec fn opt_text(present: bool, s: Seq<char>) -> Seq<char> {
    if present {
        s
    } else {
        Seq::empty()
    }
}

impl Message {
    /// The event's fields, when present.
    pub open spec fn spec_link(&self) -> Option<LinkFields> {
        match self.neural_memory {
            Some(n) => n.link,
            None => None,
        }
    }

    pub open spec fn spec_get_event_opts(&self) -> Option<GetEventOptions> {
        match self.neural_memory {
            Some(n) => n.get_event,
            None => None,
        }
    }

    pub open spec fn spec_get_events_for_tags_opts(&self) -> Option<GetEventsForTagsOptions> {
        match self.neural_memory {
            Some(n) => n.get_events_for_tags,
            None => None,
        }
    }

    /// `processing_status`: the response status, empty when there is no response.
    pub open spec fn spec_processing_status(&self) -> Seq<char> {
        match self.response {
            Some(r) => r.status@,
            None => Seq::empty(),
        }
    }

    pub open spec fn spec_processing_message(&self) -> Seq<char> {
        match self.response {
            Some(r) => r.message@,
            None => Seq::empty(),
        }
    }

    // ── Envelope delegates ──────────────────────────────────────

    pub fn to(&self) -> (r: &str)
        ensures
            r@ == self.envelope.to@,
    {
        self.envelope.to.as_str()
    }

    pub fn from(&self) -> (r: &str)
        ensures
            r@ == self.envelope.from@,
    {
        self.envelope.from.as_str()
    }

    pub fn intent(&self) -> (r: &Intent)
        ensures
            *r == self.envelope.intent,
    {
        &self.envelope.intent
    }

    pub fn client_name(&self) -> (r: &str)
        ensures
            r@ == self.envelope.client_name@,
    {
        self.envelope.client_name.as_str()
    }

    pub fn message_id(&self) -> (r: &str)
        ensures
            r@ == self.envelope.message_id@,
    {
        self.envelope.message_id.as_str()
    }

    // ── Convenience accessors ────────────────────────────────────

    pub fn event_id(&self) -> (r: &str)
        ensures
            r@ == (match self.event {
                Some(e) => e.id@,
                None => Seq::empty(),
            }),
    {
        match &self.event {
            Some(e) => e.id.as_str(),
            None => {
                proof {
                    reveal_strlit("");
                }
                ""
            },
        }
    }

    pub fn event_unique_id(&self) -> (r: &str)
        ensures
            r@ == (match self.event {
                Some(e) => e.unique_id@,
                None => Seq::empty(),
            }),
    {
        match &self.event {
            Some(e) => e.unique_id.as_str(),
            None => {
                proof {
                    reveal_strlit("");
                }
                ""
            },
        }
    }

    pub fn payload_data(&self) -> (r: Option<&PayloadData>)
        ensures
            match self.payload {
                Some(p) => r == Some(&p.data),
                None => r is None,
            },
    {
        match &self.payload {
            Some(p) => Some(&p.data),
            None => None,
        }
    }

    pub fn payload_mime_type(&self) -> (r: &str)
        ensures
            r@ == (match self.payload {
                Some(p) => p.mime_type@,
                None => Seq::empty(),
            }),
    {
        match &self.payload {
            Some(p) => p.mime_type.as_str(),
            None => {
                proof {
                    reveal_strlit("");
                }
                ""
            },
        }
    }

    pub fn processing_status(&self) -> (r: &str)
        ensures
            r@ == self.spec_processing_status(),
    {
        match &self.response {
            Some(resp) => resp.status.as_str(),
            None => {
                proof {
                    reveal_strlit("");
                }
                ""
            },
        }
    }

    pub fn processing_message(&self) -> (r: &str)
        ensures
            r@ == self.spec_processing_message(),
    {
        match &self.response {
            Some(resp) => resp.message.as_str(),
            None => {
                proof {
                    reveal_strlit("");
                }
                ""
            },
        }
    }

    pub fn tags(&self) -> (r: Vec<&TagOutput>)
        ensures
            match self.event {
                Some(e) => r@.len() == e.tags@.len() && forall|i: int|
                    0 <= i < r@.len() ==> *r@[i] == e.tags@[i],
                None => r@.len() == 0,
            },
    {
        let mut out: Vec<&TagOutput> = Vec::new();
        match &self.event {
            Some(e) => {
                let n = e.tags.len();
                for i in 0..n
                    invariant
                        n == e.tags@.len(),
                        out@.len() == i,
                        forall|j: int| 0 <= j < i ==> *out@[j] == e.tags@[j],
                {
                    out.push(&e.tags[i]);
                }
            },
            None => {},
        }
        out
    }

    pub fn link(&self) -> (r: Option<&LinkFields>)
        ensures
            match self.spec_link() {
                Some(l) => r == Some(&l),
                None => r is None,
            },
    {
        match &self.neural_memory {
            Some(n) => match &n.link {
                Some(l) => Some(l),
                None => None,
            },
            None => None,
        }
    }

    pub fn get_event_opts(&self) -> (r: Option<&GetEventOptions>)
        ensures
            match self.spec_get_event_opts() {
                Some(o) => r == Some(&o),
                None => r is None,
            },
    {
        match &self.neural_memory {
            Some(n) => match &n.get_event {
                Some(o) => Some(o),
                None => None,
            },
            None => None,
        }
    }

    pub fn get_events_for_tags_opts(&self) -> (r: Option<&GetEventsForTagsOptions>)
        ensures
            match self.spec_get_events_for_tags_opts() {
                Some(o) => r == Some(&o),
                None => r is None,
            },
    {
        match &self.neural_memory {
            Some(n) => match &n.get_events_for_tags {
                Some(o) => Some(o),
                None => None,
            },
            None => None,
        }
    }
}

// ─────────────────────────────────────────────
// Raw socket message (pre-encoded bytes)
// ─────────────────────────────────────────────

#[derive(Debug, Clone, Default)]
pub struct SocketMessage {
    pub data: Vec<u8>,
}

impl SocketMessage {
    pub fn new(data: Vec<u8>) -> (r: Self)
        ensures
            r.data@ == data@,
    {
        Self { data }
    }

    pub fn as_bytes(&self) -> (r: &[u8])
        ensures
            r@ == self.data@,
    {
        self.data.as_slice()
    }

    pub fn into_bytes(self) -> (r: Vec<u8>)
        ensures
            r@ == self.data@,
    {
        self.data
    }

    pub fn len(&self) -> (r: usize)
        ensures
            r == self.data@.len(),
    {
        self.data.len()
    }

    pub fn is_empty(&self) -> (r: bool)
        ensures
            r == (self.data@.len() == 0),
    {
        self.data.len() == 0
    }
}

// ─────────────────────────────────────────────
// Gateway configuration structs
// ─────────────────────────────────────────────

#[derive(Debug, Clone, Default)]
pub struct PodOsConfiguration {
    pub gateways: Vec<GatewayDefinition>,
}

#[derive(Debug, Clone, Default)]
pub struct GatewayDefinition {
    pub name: String,
    pub host: String,
    pub port: String,
    pub network: String,
    pub actors: Vec<String>,
    pub shell_actors: Vec<ShellActor>,
    pub neural_memory_actors: Vec<NeuralMemoryActor>,
    pub peer_actors: Vec<PeerActor>,
    pub script_actors: Vec<ScriptActor>,
    pub mailbox_actors: Vec<MailboxActor>,
    pub socket_actors: Vec<SocketActor>,
    pub router_actors: Vec<RouterActor>,
}

#[derive(Debug, Clone, Default)]
pub struct ShellActor {
    pub name: String,
    pub command: String,
    pub args: Vec<String>,
}

#[derive(Debug, Clone, Default)]
pub struct NeuralMemoryActor {
    pub name: String,
    pub storage_path: String,
    pub max_memory_bytes: i64,
}

#[derive(Debug, Clone, Default)]
pub struct PeerActor {
    pub name: String,
    pub host: String,
    pub port: String,
    pub network: String,
    pub actor: String,
    pub passcode: String,
}

#[derive(Debug, Clone, Default)]
pub struct ScriptActor {
    pub name: String,
    pub script: String,
}

#[derive(Debug, Clone, Default)]
pub struct MailboxActor {
    pub name: String,
    pub storage_path: String,
}

#[derive(Debug, Clone, Default)]
pub struct SocketActor {
    pub name: String,
    pub host: String,
    pub port: String,
    pub network: String,
}

#[derive(Debug, Clone, Default)]
pub struct RouterActor {
    pub name: String,
    pub routes: Vec<RouteDefinition>,
}

#[derive(Debug, Clone, Default)]
pub struct RouteDefinition {
    pub name: String,
    pub route_type: String,
    pub test: String,
    pub test_value: String,
    pub action: String,
    pub action_value: String,
}

// ── Routing constants ────────────────────────────────────────────────────────

pub const ROUTING_TEST_TYPE_NONE: &'static str = "NONE";
pub const ROUTING_TEST_TYPE_EQ: &'static str = "EQ";
pub const ROUTING_TEST_TYPE_NE: &'static str = "NE";
pub const ROUTING_TEST_TYPE_LT: &'static str = "LT";
pub const ROUTING_TEST_TYPE_LE: &'static str = "LE";
pub const ROUTING_TEST_TYPE_GT: &'static str = "GT";
pub const ROUTING_TEST_TYPE_GE: &'static str = "GE";
pub const ROUTING_TEST_TYPE_RANGE: &'static str = "RANGE";
pub const ROUTING_TEST_TYPE_EXCL: &'static str = "EXCL";
pub const ROUTING_TEST_TYPE_REGEXP: &'static str = "REGEXP";
pub const ROUTING_TEST_TYPE_NUM_EQ: &'static str = "#EQ";
pub const ROUTING_TEST_TYPE_NUM_NE: &'static str = "#NE";
pub const ROUTING_TEST_TYPE_NUM_LT: &'static str = "#LT";
pub const ROUTING_TEST_TYPE_NUM_LE: &'static str = "#LE";
pub const ROUTING_TEST_TYPE_NUM_GT: &'static str = "#GT";
pub const ROUTING_TEST_TYPE_NUM_GE: &'static str = "#GE";
pub const ROUTING_TEST_TYPE_NUM_RANGE: &'static str = "#RANGE";
pub const ROUTING_TEST_TYPE_NUM_EXCL: &'static str = "#EXCL";

pub const ROUTING_ACTION_TYPE_NONE: &'static str = "NONE";
pub const ROUTING_ACTION_TYPE_ROUTE: &'static str = "ROUTE";
pub const ROUTING_ACTION_TYPE_DISCARD: &'static str = "DISCARD";
pub const ROUTING_ACTION_TYPE_CHANGE: &'static str = "CHANGE";
pub const ROUTING_ACTION_TYPE_DUPLICATE: &'static str = "DUPLICATE";

} // verus!
