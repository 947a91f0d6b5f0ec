//! Pod-OS messages: types, intents, headers, the wire codec and validation.

pub mod batch_status;
pub mod constants;
pub mod decoder;
pub mod encoder;
pub mod errors;
pub mod header;
pub mod intents;
pub mod lookups;
pub mod payloads;
pub mod records;
pub mod replies;
pub mod requests;
pub mod roundtrip;
pub mod search;
pub mod types;
pub mod utils;
pub mod validate;
pub mod wire;

pub use decoder::{decode_message, replace_from_in_raw_message};
pub use encoder::{
    encode_message, format_batch_events_payload, format_batch_link_events_payload,
    format_batch_tags_payload, serialize_tag_value,
};
pub use errors::{DecodeError, EncodeError, MsgErrCode};
pub use intents::Intent;
pub use types::{
    BatchEventSpec, BatchLinkEventSpec, BriefHitRecord, DataType, DateTimeObject, Envelope,
    EventFields, GetEventOptions, GetEventsForTagsOptions, LinkFields, Message, NeuralMemoryFields,
    PayloadData, PayloadFields, ResponseFields, SearchOptions, SocketMessage,
    StoreBatchEventRecord, StoreLinkBatchEventRecord, Tag, TagList, TagOutput, TagValue,
};
pub use utils::{get_timestamp, timestamp_from_duration};
pub use validate::{validation_enabled, ValidationError, ValidationErrors, ValidationReport};
