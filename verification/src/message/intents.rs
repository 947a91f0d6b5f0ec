//! The intents a message can carry: each fixes the wire `messageType` and,
//! for NeuralMemory operations, the `_db_cmd` header value.

use vstd::prelude::*;

use crate::text::{chars_eq_str, str_eq};

verus! {

/// A Pod-OS intent descriptor, encoding all wire-level discriminants.
#[derive(Debug, Clone, Copy, Hash)]
pub struct Intent {
    pub name: &'static str,
    pub routing_message_type: &'static str,
    pub neural_memory_command: &'static str,
    pub message_type: i32,
}

impl Intent {
    /// Two intents are the same when all four discriminants agree.
    pub open spec fn same(self, other: Intent) -> bool {
        &&& self.name@ == other.name@
        &&& self.routing_message_type@ == other.routing_message_type@
        &&& self.neural_memory_command@ == other.neural_memory_command@
        &&& self.message_type == other.message_type
    }

    /// The zero intent has an empty name.
    pub open spec fn spec_is_zero(self) -> bool {
        self.name@.len() == 0
    }

    pub fn is_zero(&self) -> (r: bool)
        ensures
            r == self.spec_is_zero(),
    {
        self.name.is_empty()
    }
}

impl PartialEq for Intent {
    fn eq(&self, other: &Self) -> (r: bool) {
        str_eq(self.name, other.name) && str_eq(self.routing_message_type, other.routing_message_type)
            && str_eq(self.neural_memory_command, other.neural_memory_command)
            && self.message_type == other.message_type
    }
}

impl vstd::std_specs::cmp::PartialEqSpecImpl for Intent {
    open spec fn obeys_eq_spec() -> bool {
        true
    }

    open spec fn eq_spec(&self, other: &Self) -> bool {
        self.same(*other)
    }
}

impl Eq for Intent {

}

/// The zero intent: empty name and commands, message type 0.
pub open spec fn zero_intent() -> Intent {
    Intent { name: "", routing_message_type: "", neural_memory_command: "", message_type: 0 }
}

impl Default for Intent {
    fn default() -> (r: Self)
        ensures
            r == zero_intent(),
    {
        Intent { name: "", routing_message_type: "", neural_memory_command: "", message_type: 0 }
    }
}

// ── All known intents ────────────────────────────────────────────────────────

/// The `StoreEvent` intent (message type 1000).
pub open spec fn spec_store_event() -> Intent {
    Intent {
        name: "StoreEvent",
        routing_message_type: "MEM_REQ",
        neural_memory_command: "store",
        message_type: 1000,
    }
}

pub fn store_event() -> (r: Intent)
    ensures
        r == spec_store_event(),
{
    Intent {
        name: "StoreEvent",
        routing_message_type: "MEM_REQ",
        neural_memory_command: "store",
        message_type: 1000,
    }
}

/// The `StoreData` intent (message type 1000).
pub open spec fn spec_store_data() -> Intent {
    Intent {
        name: "StoreData",
        routing_message_type: "MEM_REQ",
        neural_memory_command: "store_data",
        message_type: 1000,
    }
}

pub fn store_data() -> (r: Intent)
    ensures
        r == spec_store_data(),
{
    Intent {
        name: "StoreData",
        routing_message_type: "MEM_REQ",
        neural_memory_command: "store_data",
        message_type: 1000,
    }
}

/// The `StoreBatchEvents` intent (message type 1000).
pub open spec fn spec_store_batch_events() -> Intent {
    Intent {
        name: "StoreBatchEvents",
        routing_message_type: "MEM_REQ",
        neural_memory_command: "store_batch",
        message_type: 1000,
    }
}

pub fn store_batch_events() -> (r: Intent)
    ensures
        r == spec_store_batch_events(),
{
    Intent {
        name: "StoreBatchEvents",
        routing_message_type: "MEM_REQ",
        neural_memory_command: "store_batch",
        message_type: 1000,
    }
}

/// The `StoreBatchTags` intent (message type 1000).
pub open spec fn spec_store_batch_tags() -> Intent {
    Intent {
        name: "StoreBatchTags",
        routing_message_type: "MEM_REQ",
        neural_memory_command: "tag_store_batch",
        message_type: 1000,
    }
}

pub fn store_batch_tags() -> (r: Intent)
    ensures
        r == spec_store_batch_tags(),
{
    Intent {
        name: "StoreBatchTags",
        routing_message_type: "MEM_REQ",
        neural_memory_command: "tag_store_batch",
        message_type: 1000,
    }
}

/// The `GetEvent` intent (message type 1000).
pub open spec fn spec_get_event() -> Intent {
    Intent {
        name: "GetEvent",
        routing_message_type: "MEM_REQ",
        neural_memory_command: "get",
        message_type: 1000,
    }
}

pub fn get_event() -> (r: Intent)
    ensures
        r == spec_get_event(),
{
    Intent {
        name: "GetEvent",
        routing_message_type: "MEM_REQ",
        neural_memory_command: "get",
        message_type: 1000,
    }
}

/// The `GetEventsForTags` intent (message type 1000).
pub open spec fn spec_get_events_for_tags() -> Intent {
    Intent {
        name: "GetEventsForTags",
        routing_message_type: "MEM_REQ",
        neural_memory_command: "events_for_tag",
        message_type: 1000,
    }
}

pub fn get_events_for_tags() -> (r: Intent)
    ensures
        r == spec_get_events_for_tags(),
{
    Intent {
        name: "GetEventsForTags",
        routing_message_type: "MEM_REQ",
        neural_memory_command: "events_for_tag",
        message_type: 1000,
    }
}

/// The `LinkEvent` intent (message type 1000).
pub open spec fn spec_link_event() -> Intent {
    Intent {
        name: "LinkEvent",
        routing_message_type: "MEM_REQ",
        neural_memory_command: "link",
        message_type: 1000,
    }
}

pub fn link_event() -> (r: Intent)
    ensures
        r == spec_link_event(),
{
    Intent {
        name: "LinkEvent",
        routing_message_type: "MEM_REQ",
        neural_memory_command: "link",
        message_type: 1000,
    }
}

/// The `UnlinkEvent` intent (message type 1000).
pub open spec fn spec_unlink_event() -> Intent {
    Intent {
        name: "UnlinkEvent",
        routing_message_type: "MEM_REQ",
        neural_memory_command: "unlink",
        message_type: 1000,
    }
}

pub fn unlink_event() -> (r: Intent)
    ensures
        r == spec_unlink_event(),
{
    Intent {
        name: "UnlinkEvent",
        routing_message_type: "MEM_REQ",
        neural_memory_command: "unlink",
        message_type: 1000,
    }
}

/// The `StoreBatchLinks` intent (message type 1000).
pub open spec fn spec_store_batch_links() -> Intent {
    Intent {
        name: "StoreBatchLinks",
        routing_message_type: "MEM_REQ",
        neural_memory_command: "link_batch",
        message_type: 1000,
    }
}

pub fn store_batch_links() -> (r: Intent)
    ensures
        r == spec_store_batch_links(),
{
    Intent {
        name: "StoreBatchLinks",
        routing_message_type: "MEM_REQ",
        neural_memory_command: "link_batch",
        message_type: 1000,
    }
}

/// The `StoreEventResponse` intent (message type 1001).
pub open spec fn spec_store_event_response() -> Intent {
    Intent {
        name: "StoreEventResponse",
        routing_message_type: "MEM_REPLY",
        neural_memory_command: "store",
        message_type: 1001,
    }
}

pub fn store_event_response() -> (r: Intent)
    ensures
        r == spec_store_event_response(),
{
    Intent {
        name: "StoreEventResponse",
        routing_message_type: "MEM_REPLY",
        neural_memory_command: "store",
        message_type: 1001,
    }
}

/// The `StoreDataResponse` intent (message type 1001).
pub open spec fn spec_store_data_response() -> Intent {
    Intent {
        name: "StoreDataResponse",
        routing_message_type: "MEM_REPLY",
        neural_memory_command: "store_data",
        message_type: 1001,
    }
}

pub fn store_data_response() -> (r: Intent)
    ensures
        r == spec_store_data_response(),
{
    Intent {
        name: "StoreDataResponse",
        routing_message_type: "MEM_REPLY",
        neural_memory_command: "store_data",
        message_type: 1001,
    }
}

/// The `StoreBatchEventsResponse` intent (message type 1001).
pub open spec fn spec_store_batch_events_response() -> Intent {
    Intent {
        name: "StoreBatchEventsResponse",
        routing_message_type: "MEM_REPLY",
        neural_memory_command: "store_batch",
        message_type: 1001,
    }
}

pub fn store_batch_events_response() -> (r: Intent)
    ensures
        r == spec_store_batch_events_response(),
{
    Intent {
        name: "StoreBatchEventsResponse",
        routing_message_type: "MEM_REPLY",
        neural_memory_command: "store_batch",
        message_type: 1001,
    }
}

/// The `StoreBatchTagsResponse` intent (message type 1001).
pub open spec fn spec_store_batch_tags_response() -> Intent {
    Intent {
        name: "StoreBatchTagsResponse",
        routing_message_type: "MEM_REPLY",
        neural_memory_command: "tag_store_batch",
        message_type: 1001,
    }
}

pub fn store_batch_tags_response() -> (r: Intent)
    ensures
        r == spec_store_batch_tags_response(),
{
    Intent {
        name: "StoreBatchTagsResponse",
        routing_message_type: "MEM_REPLY",
        neural_memory_command: "tag_store_batch",
        message_type: 1001,
    }
}

/// The `GetEventResponse` intent (message type 1001).
pub open spec fn spec_get_event_response() -> Intent {
    Intent {
        name: "GetEventResponse",
        routing_message_type: "MEM_REPLY",
        neural_memory_command: "get",
        message_type: 1001,
    }
}

pub fn get_event_response() -> (r: Intent)
    ensures
        r == spec_get_event_response(),
{
    Intent {
        name: "GetEventResponse",
        routing_message_type: "MEM_REPLY",
        neural_memory_command: "get",
        message_type: 1001,
    }
}

/// The `GetEventsForTagsResponse` intent (message type 1001).
pub open spec fn spec_get_events_for_tags_response() -> Intent {
    Intent {
        name: "GetEventsForTagsResponse",
        routing_message_type: "MEM_REPLY",
        neural_memory_command: "events_for_tag",
        message_type: 1001,
    }
}

pub fn get_events_for_tags_response() -> (r: Intent)
    ensures
        r == spec_get_events_for_tags_response(),
{
    Intent {
        name: "GetEventsForTagsResponse",
        routing_message_type: "MEM_REPLY",
        neural_memory_command: "events_for_tag",
        message_type: 1001,
    }
}

/// The `LinkEventResponse` intent (message type 1001).
pub open spec fn spec_link_event_response() -> Intent {
    Intent {
        name: "LinkEventResponse",
        routing_message_type: "MEM_REPLY",
        neural_memory_command: "link",
        message_type: 1001,
    }
}

pub fn link_event_response() -> (r: Intent)
    ensures
        r == spec_link_event_response(),
{
    Intent {
        name: "LinkEventResponse",
        routing_message_type: "MEM_REPLY",
        neural_memory_command: "link",
        message_type: 1001,
    }
}

/// The `UnlinkEventResponse` intent (message type 1001).
pub open spec fn spec_unlink_event_response() -> Intent {
    Intent {
        name: "UnlinkEventResponse",
        routing_message_type: "MEM_REPLY",
        neural_memory_command: "unlink",
        message_type: 1001,
    }
}

pub fn unlink_event_response() -> (r: Intent)
    ensures
        r == spec_unlink_event_response(),
{
    Intent {
        name: "UnlinkEventResponse",
        routing_message_type: "MEM_REPLY",
        neural_memory_command: "unlink",
        message_type: 1001,
    }
}

/// The `StoreBatchLinksResponse` intent (message type 1001).
pub open spec fn spec_store_batch_links_response() -> Intent {
    Intent {
        name: "StoreBatchLinksResponse",
        routing_message_type: "MEM_REPLY",
        neural_memory_command: "link_batch",
        message_type: 1001,
    }
}

pub fn store_batch_links_response() -> (r: Intent)
    ensures
        r == spec_store_batch_links_response(),
{
    Intent {
        name: "StoreBatchLinksResponse",
        routing_message_type: "MEM_REPLY",
        neural_memory_command: "link_batch",
        message_type: 1001,
    }
}

/// The `ActorEcho` intent (message type 2).
pub open spec fn spec_actor_echo() -> Intent {
    Intent {
        name: "ActorEcho",
        routing_message_type: "ECHO",
        neural_memory_command: "",
        message_type: 2,
    }
}

pub fn actor_echo() -> (r: Intent)
    ensures
        r == spec_actor_echo(),
{
    Intent {
        name: "ActorEcho",
        routing_message_type: "ECHO",
        neural_memory_command: "",
        message_type: 2,
    }
}

/// The `ActorStart` intent (message type 1).
pub open spec fn spec_actor_start() -> Intent {
    Intent {
        name: "ActorStart",
        routing_message_type: "START",
        neural_memory_command: "",
        message_type: 1,
    }
}

pub fn actor_start() -> (r: Intent)
    ensures
        r == spec_actor_start(),
{
    Intent {
        name: "ActorStart",
        routing_message_type: "START",
        neural_memory_command: "",
        message_type: 1,
    }
}

/// The `Status` intent (message type 3).
pub open spec fn spec_status() -> Intent {
    Intent {
        name: "Status",
        routing_message_type: "STATUS",
        neural_memory_command: "",
        message_type: 3,
    }
}

pub fn status() -> (r: Intent)
    ensures
        r == spec_status(),
{
    Intent {
        name: "Status",
        routing_message_type: "STATUS",
        neural_memory_command: "",
        message_type: 3,
    }
}

/// The `GatewayStatus` intent (message type 3).
pub open spec fn spec_gateway_status() -> Intent {
    Intent {
        name: "GatewayStatus",
        routing_message_type: "STATUS",
        neural_memory_command: "",
        message_type: 3,
    }
}

pub fn gateway_status() -> (r: Intent)
    ensures
        r == spec_gateway_status(),
{
    Intent {
        name: "GatewayStatus",
        routing_message_type: "STATUS",
        neural_memory_command: "",
        message_type: 3,
    }
}

/// The `ActorRequest` intent (message type 4).
pub open spec fn spec_actor_request() -> Intent {
    Intent {
        name: "ActorRequest",
        routing_message_type: "REQUEST",
        neural_memory_command: "",
        message_type: 4,
    }
}

pub fn actor_request() -> (r: Intent)
    ensures
        r == spec_actor_request(),
{
    Intent {
        name: "ActorRequest",
        routing_message_type: "REQUEST",
        neural_memory_command: "",
        message_type: 4,
    }
}

/// The `ActorResponse` intent (message type 30).
pub open spec fn spec_actor_response() -> Intent {
    Intent {
        name: "ActorResponse",
        routing_message_type: "REPLY",
        neural_memory_command: "",
        message_type: 30,
    }
}

pub fn actor_response() -> (r: Intent)
    ensures
        r == spec_actor_response(),
{
    Intent {
        name: "ActorResponse",
        routing_message_type: "REPLY",
        neural_memory_command: "",
        message_type: 30,
    }
}

/// The `GatewayId` intent (message type 5).
pub open spec fn spec_gateway_id() -> Intent {
    Intent {
        name: "GatewayId",
        routing_message_type: "ID",
        neural_memory_command: "",
        message_type: 5,
    }
}

pub fn gateway_id() -> (r: Intent)
    ensures
        r == spec_gateway_id(),
{
    Intent {
        name: "GatewayId",
        routing_message_type: "ID",
        neural_memory_command: "",
        message_type: 5,
    }
}

/// The `GatewayDisconnect` intent (message type 6).
pub open spec fn spec_gateway_disconnect() -> Intent {
    Intent {
        name: "GatewayDisconnect",
        routing_message_type: "DISCONNECT",
        neural_memory_command: "",
        message_type: 6,
    }
}

pub fn gateway_disconnect() -> (r: Intent)
    ensures
        r == spec_gateway_disconnect(),
{
    Intent {
        name: "GatewayDisconnect",
        routing_message_type: "DISCONNECT",
        neural_memory_command: "",
        message_type: 6,
    }
}

/// The `GatewaySendNext` intent (message type 7).
pub open spec fn spec_gateway_send_next() -> Intent {
    Intent {
        name: "GatewaySendNext",
        routing_message_type: "NEXT",
        neural_memory_command: "",
        message_type: 7,
    }
}

pub fn gateway_send_next() -> (r: Intent)
    ensures
        r == spec_gateway_send_next(),
{
    Intent {
        name: "GatewaySendNext",
        routing_message_type: "NEXT",
        neural_memory_command: "",
        message_type: 7,
    }
}

/// The `GatewayNoSend` intent (message type 8).
pub open spec fn spec_gateway_no_send() -> Intent {
    Intent {
        name: "GatewayNoSend",
        routing_message_type: "NO_SEND",
        neural_memory_command: "",
        message_type: 8,
    }
}

pub fn gateway_no_send() -> (r: Intent)
    ensures
        r == spec_gateway_no_send(),
{
    Intent {
        name: "GatewayNoSend",
        routing_message_type: "NO_SEND",
        neural_memory_command: "",
        message_type: 8,
    }
}

/// The `GatewayStreamOff` intent (message type 9).
pub open spec fn spec_gateway_stream_off() -> Intent {
    Intent {
        name: "GatewayStreamOff",
        routing_message_type: "STREAM_OFF",
        neural_memory_command: "",
        message_type: 9,
    }
}

pub fn gateway_stream_off() -> (r: Intent)
    ensures
        r == spec_gateway_stream_off(),
{
    Intent {
        name: "GatewayStreamOff",
        routing_message_type: "STREAM_OFF",
        neural_memory_command: "",
        message_type: 9,
    }
}

/// The `GatewayStreamOn` intent (message type 10).
pub open spec fn spec_gateway_stream_on() -> Intent {
    Intent {
        name: "GatewayStreamOn",
        routing_message_type: "STREAM_ON",
        neural_memory_command: "",
        message_type: 10,
    }
}

pub fn gateway_stream_on() -> (r: Intent)
    ensures
        r == spec_gateway_stream_on(),
{
    Intent {
        name: "GatewayStreamOn",
        routing_message_type: "STREAM_ON",
        neural_memory_command: "",
        message_type: 10,
    }
}

/// The `ActorRecord` intent (message type 11).
pub open spec fn spec_actor_record() -> Intent {
    Intent {
        name: "ActorRecord",
        routing_message_type: "RECORD",
        neural_memory_command: "",
        message_type: 11,
    }
}

pub fn actor_record() -> (r: Intent)
    ensures
        r == spec_actor_record(),
{
    Intent {
        name: "ActorRecord",
        routing_message_type: "RECORD",
        neural_memory_command: "",
        message_type: 11,
    }
}

/// The `GatewayBatchStart` intent (message type 12).
pub open spec fn spec_gateway_batch_start() -> Intent {
    Intent {
        name: "GatewayBatchStart",
        routing_message_type: "BATCH_START",
        neural_memory_command: "",
        message_type: 12,
    }
}

pub fn gateway_batch_start() -> (r: Intent)
    ensures
        r == spec_gateway_batch_start(),
{
    Intent {
        name: "GatewayBatchStart",
        routing_message_type: "BATCH_START",
        neural_memory_command: "",
        message_type: 12,
    }
}

/// The `GatewayBatchEnd` intent (message type 13).
pub open spec fn spec_gateway_batch_end() -> Intent {
    Intent {
        name: "GatewayBatchEnd",
        routing_message_type: "BATCH_END",
        neural_memory_command: "",
        message_type: 13,
    }
}

pub fn gateway_batch_end() -> (r: Intent)
    ensures
        r == spec_gateway_batch_end(),
{
    Intent {
        name: "GatewayBatchEnd",
        routing_message_type: "BATCH_END",
        neural_memory_command: "",
        message_type: 13,
    }
}

/// The `QueueNextRequest` intent (message type 14).
pub open spec fn spec_queue_next_request() -> Intent {
    Intent {
        name: "QueueNextRequest",
        routing_message_type: "QUEUE_NEXT",
        neural_memory_command: "",
        message_type: 14,
    }
}

pub fn queue_next_request() -> (r: Intent)
    ensures
        r == spec_queue_next_request(),
{
    Intent {
        name: "QueueNextRequest",
        routing_message_type: "QUEUE_NEXT",
        neural_memory_command: "",
        message_type: 14,
    }
}

/// The `QueueAllRequest` intent (message type 15).
pub open spec fn spec_queue_all_request() -> Intent {
    Intent {
        name: "QueueAllRequest",
        routing_message_type: "QUEUE_ALL",
        neural_memory_command: "",
        message_type: 15,
    }
}

pub fn queue_all_request() -> (r: Intent)
    ensures
        r == spec_queue_all_request(),
{
    Intent {
        name: "QueueAllRequest",
        routing_message_type: "QUEUE_ALL",
        neural_memory_command: "",
        message_type: 15,
    }
}

/// The `QueueCountRequest` intent (message type 16).
pub open spec fn spec_queue_count_request() -> Intent {
    Intent {
        name: "QueueCountRequest",
        routing_message_type: "QUEUE_COUNT",
        neural_memory_command: "",
        message_type: 16,
    }
}

pub fn queue_count_request() -> (r: Intent)
    ensures
        r == spec_queue_count_request(),
{
    Intent {
        name: "QueueCountRequest",
        routing_message_type: "QUEUE_COUNT",
        neural_memory_command: "",
        message_type: 16,
    }
}

/// The `QueueEmpty` intent (message type 17).
pub open spec fn spec_queue_empty() -> Intent {
    Intent {
        name: "QueueEmpty",
        routing_message_type: "QUEUE_EMPTY",
        neural_memory_command: "",
        message_type: 17,
    }
}

pub fn queue_empty() -> (r: Intent)
    ensures
        r == spec_queue_empty(),
{
    Intent {
        name: "QueueEmpty",
        routing_message_type: "QUEUE_EMPTY",
        neural_memory_command: "",
        message_type: 17,
    }
}

/// The `Keepalive` intent (message type 18).
pub open spec fn spec_keepalive() -> Intent {
    Intent {
        name: "Keepalive",
        routing_message_type: "KEEPALIVE",
        neural_memory_command: "",
        message_type: 18,
    }
}

pub fn keepalive() -> (r: Intent)
    ensures
        r == spec_keepalive(),
{
    Intent {
        name: "Keepalive",
        routing_message_type: "KEEPALIVE",
        neural_memory_command: "",
        message_type: 18,
    }
}

/// The `ActorReport` intent (message type 19).
pub open spec fn spec_actor_report() -> Intent {
    Intent {
        name: "ActorReport",
        routing_message_type: "REPORT",
        neural_memory_command: "",
        message_type: 19,
    }
}

pub fn actor_report() -> (r: Intent)
    ensures
        r == spec_actor_report(),
{
    Intent {
        name: "ActorReport",
        routing_message_type: "REPORT",
        neural_memory_command: "",
        message_type: 19,
    }
}

/// The `ReportRequest` intent (message type 20).
pub open spec fn spec_report_request() -> Intent {
    Intent {
        name: "ReportRequest",
        routing_message_type: "REPORT_REQUEST",
        neural_memory_command: "",
        message_type: 20,
    }
}

pub fn report_request() -> (r: Intent)
    ensures
        r == spec_report_request(),
{
    Intent {
        name: "ReportRequest",
        routing_message_type: "REPORT_REQUEST",
        neural_memory_command: "",
        message_type: 20,
    }
}

/// The `InformationReport` intent (message type 21).
pub open spec fn spec_information_report() -> Intent {
    Intent {
        name: "InformationReport",
        routing_message_type: "INFO_REPORT",
        neural_memory_command: "",
        message_type: 21,
    }
}

pub fn information_report() -> (r: Intent)
    ensures
        r == spec_information_report(),
{
    Intent {
        name: "InformationReport",
        routing_message_type: "INFO_REPORT",
        neural_memory_command: "",
        message_type: 21,
    }
}

/// The `AuthAddUser` intent (message type 100).
pub open spec fn spec_auth_add_user() -> Intent {
    Intent {
        name: "AuthAddUser",
        routing_message_type: "AUTH_ADD_USER",
        neural_memory_command: "",
        message_type: 100,
    }
}

pub fn auth_add_user() -> (r: Intent)
    ensures
        r == spec_auth_add_user(),
{
    Intent {
        name: "AuthAddUser",
        routing_message_type: "AUTH_ADD_USER",
        neural_memory_command: "",
        message_type: 100,
    }
}

/// The `AuthUpdateUser` intent (message type 101).
pub open spec fn spec_auth_update_user() -> Intent {
    Intent {
        name: "AuthUpdateUser",
        routing_message_type: "AUTH_UPDATE_USER",
        neural_memory_command: "",
        message_type: 101,
    }
}

pub fn auth_update_user() -> (r: Intent)
    ensures
        r == spec_auth_update_user(),
{
    Intent {
        name: "AuthUpdateUser",
        routing_message_type: "AUTH_UPDATE_USER",
        neural_memory_command: "",
        message_type: 101,
    }
}

/// The `AuthUserList` intent (message type 102).
pub open spec fn spec_auth_user_list() -> Intent {
    Intent {
        name: "AuthUserList",
        routing_message_type: "AUTH_USER_LIST",
        neural_memory_command: "",
        message_type: 102,
    }
}

pub fn auth_user_list() -> (r: Intent)
    ensures
        r == spec_auth_user_list(),
{
    Intent {
        name: "AuthUserList",
        routing_message_type: "AUTH_USER_LIST",
        neural_memory_command: "",
        message_type: 102,
    }
}

/// The `AuthDisableUser` intent (message type 103).
pub open spec fn spec_auth_disable_user() -> Intent {
    Intent {
        name: "AuthDisableUser",
        routing_message_type: "AUTH_DISABLE_USER",
        neural_memory_command: "",
        message_type: 103,
    }
}

pub fn auth_disable_user() -> (r: Intent)
    ensures
        r == spec_auth_disable_user(),
{
    Intent {
        name: "AuthDisableUser",
        routing_message_type: "AUTH_DISABLE_USER",
        neural_memory_command: "",
        message_type: 103,
    }
}

/// The `ActorHalt` intent (message type 99).
pub open spec fn spec_actor_halt() -> Intent {
    Intent {
        name: "ActorHalt",
        routing_message_type: "HALT",
        neural_memory_command: "",
        message_type: 99,
    }
}

pub fn actor_halt() -> (r: Intent)
    ensures
        r == spec_actor_halt(),
{
    Intent {
        name: "ActorHalt",
        routing_message_type: "HALT",
        neural_memory_command: "",
        message_type: 99,
    }
}

/// The `StatusRequest` intent (message type 110).
pub open spec fn spec_status_request() -> Intent {
    Intent {
        name: "StatusRequest",
        routing_message_type: "STATUS_REQ",
        neural_memory_command: "",
        message_type: 110,
    }
}

pub fn status_request() -> (r: Intent)
    ensures
        r == spec_status_request(),
{
    Intent {
        name: "StatusRequest",
        routing_message_type: "STATUS_REQ",
        neural_memory_command: "",
        message_type: 110,
    }
}

/// The `ActorUser` intent (message type 65536).
pub open spec fn spec_actor_user() -> Intent {
    Intent {
        name: "ActorUser",
        routing_message_type: "USER",
        neural_memory_command: "",
        message_type: 65536,
    }
}

pub fn actor_user() -> (r: Intent)
    ensures
        r == spec_actor_user(),
{
    Intent {
        name: "ActorUser",
        routing_message_type: "USER",
        neural_memory_command: "",
        message_type: 65536,
    }
}

/// The `RouteAnyMessage` intent (message type 0).
pub open spec fn spec_route_any_message() -> Intent {
    Intent {
        name: "RouteAnyMessage",
        routing_message_type: "ANY",
        neural_memory_command: "",
        message_type: 0,
    }
}

pub fn route_any_message() -> (r: Intent)
    ensures
        r == spec_route_any_message(),
{
    Intent {
        name: "RouteAnyMessage",
        routing_message_type: "ANY",
        neural_memory_command: "",
        message_type: 0,
    }
}

/// The `RouteUserOnlyMessage` intent (message type 0).
pub open spec fn spec_route_user_only_message() -> Intent {
    Intent {
        name: "RouteUserOnlyMessage",
        routing_message_type: "USERONLY",
        neural_memory_command: "",
        message_type: 0,
    }
}

pub fn route_user_only_message() -> (r: Intent)
    ensures
        r == spec_route_user_only_message(),
{
    Intent {
        name: "RouteUserOnlyMessage",
        routing_message_type: "USERONLY",
        neural_memory_command: "",
        message_type: 0,
    }
}

/// Every known intent, in lookup order.
pub open spec fn intent_table() -> Seq<Intent> {
    seq![
        spec_store_event(),
        spec_store_data(),
        spec_store_batch_events(),
        spec_store_batch_tags(),
        spec_get_event(),
        spec_get_events_for_tags(),
        spec_link_event(),
        spec_unlink_event(),
        spec_store_batch_links(),
        spec_store_event_response(),
        spec_store_data_response(),
        spec_store_batch_events_response(),
        spec_store_batch_tags_response(),
        spec_get_event_response(),
        spec_get_events_for_tags_response(),
        spec_link_event_response(),
        spec_unlink_event_response(),
        spec_store_batch_links_response(),
        spec_actor_echo(),
        spec_actor_start(),
        spec_status(),
        spec_actor_request(),
        spec_actor_response(),
        spec_gateway_id(),
        spec_gateway_disconnect(),
        spec_gateway_send_next(),
        spec_gateway_no_send(),
        spec_gateway_stream_off(),
        spec_gateway_stream_on(),
        spec_actor_record(),
        spec_gateway_batch_start(),
        spec_gateway_batch_end(),
        spec_queue_next_request(),
        spec_queue_all_request(),
        spec_queue_count_request(),
        spec_queue_empty(),
        spec_keepalive(),
        spec_actor_report(),
        spec_report_request(),
        spec_information_report(),
        spec_auth_add_user(),
        spec_auth_update_user(),
        spec_auth_user_list(),
        spec_auth_disable_user(),
        spec_actor_halt(),
        spec_status_request(),
        spec_actor_user(),
        spec_route_any_message(),
        spec_route_user_only_message(),
    ]
}

/// The table of known intents, in lookup order.
pub fn all_intents() -> (r: Vec<Intent>)
    ensures
        r@ == intent_table(),
{
    let mut v: Vec<Intent> = Vec::new();
    v.push(store_event());
    v.push(store_data());
    v.push(store_batch_events());
    v.push(store_batch_tags());
    v.push(get_event());
    v.push(get_events_for_tags());
    v.push(link_event());
    v.push(unlink_event());
    v.push(store_batch_links());
    v.push(store_event_response());
    v.push(store_data_response());
    v.push(store_batch_events_response());
    v.push(store_batch_tags_response());
    v.push(get_event_response());
    v.push(get_events_for_tags_response());
    v.push(link_event_response());
    v.push(unlink_event_response());
    v.push(store_batch_links_response());
    v.push(actor_echo());
    v.push(actor_start());
    v.push(status());
    v.push(actor_request());
    v.push(actor_response());
    v.push(gateway_id());
    v.push(gateway_disconnect());
    v.push(gateway_send_next());
    v.push(gateway_no_send());
    v.push(gateway_stream_off());
    v.push(gateway_stream_on());
    v.push(actor_record());
    v.push(gateway_batch_start());
    v.push(gateway_batch_end());
    v.push(queue_next_request());
    v.push(queue_all_request());
    v.push(queue_count_request());
    v.push(queue_empty());
    v.push(keepalive());
    v.push(actor_report());
    v.push(report_request());
    v.push(information_report());
    v.push(auth_add_user());
    v.push(auth_update_user());
    v.push(auth_user_list());
    v.push(auth_disable_user());
    v.push(actor_halt());
    v.push(status_request());
    v.push(actor_user());
    v.push(route_any_message());
    v.push(route_user_only_message());
    assert(v@ =~= intent_table());
    v
}


// ── Lookup ───────────────────────────────────────────────────────────────────

/// The first intent of `s` that satisfies `p`.
pub open spec fn first_where(s: Seq<Intent>, p: spec_fn(Intent) -> bool) -> Option<Intent>
    decreases s.len(),
{
    if s.len() == 0 {
        None
    } else if p(s[0]) {
        Some(s[0])
    } else {
        first_where(s.drop_first(), p)
    }
}

/// The last intent of `s` that satisfies `p`.
pub open spec fn last_where(s: Seq<Intent>, p: spec_fn(Intent) -> bool) -> Option<Intent>
    decreases s.len(),
{
    if s.len() == 0 {
        None
    } else if p(s.last()) {
        Some(s.last())
    } else {
        last_where(s.drop_last(), p)
    }
}

proof fn lemma_first_where_skip(s: Seq<Intent>, p: spec_fn(Intent) -> bool, i: int)
    requires
        0 <= i <= s.len(),
        forall|j: int| 0 <= j < i ==> !p(#[trigger] s[j]),
    ensures
        first_where(s, p) == first_where(s.skip(i), p),
    decreases i,
{
    if i > 0 {
        assert(s.drop_first().skip(i - 1) == s.skip(i));
        assert forall|j: int| 0 <= j < i - 1 implies !p(#[trigger] s.drop_first()[j]) by {
            assert(s.drop_first()[j] == s[j + 1]);
        }
        lemma_first_where_skip(s.drop_first(), p, i - 1);
    } else {
        assert(s.skip(0) == s);
    }
}

proof fn lemma_last_where_take(s: Seq<Intent>, p: spec_fn(Intent) -> bool, i: int)
    requires
        0 <= i <= s.len(),
        forall|j: int| i <= j < s.len() ==> !p(#[trigger] s[j]),
    ensures
        last_where(s, p) == last_where(s.take(i), p),
    decreases s.len() - i,
{
    if i < s.len() {
        assert(!p(s[s.len() - 1]));
        assert(s.drop_last().take(i) == s.take(i));
        assert forall|j: int| i <= j < s.drop_last().len() implies !p(#[trigger] s.drop_last()[j]) by {
            assert(s.drop_last()[j] == s[j]);
        }
        lemma_last_where_take(s.drop_last(), p, i);
    } else {
        assert(s.take(i) == s);
    }
}

/// Requests of a NeuralMemory command `cmd` with message type `t`.
pub open spec fn command_match(t: i32, cmd: Seq<char>) -> spec_fn(Intent) -> bool {
    |x: Intent| x.message_type == t && x.neural_memory_command@ == cmd && cmd.len() > 0
}

/// Non-NeuralMemory intents with message type `t`.
pub open spec fn type_match(t: i32) -> spec_fn(Intent) -> bool {
    |x: Intent| x.message_type == t && x.neural_memory_command@.len() == 0
}

/// Intents whose routing command is `cmd`.
pub open spec fn routing_match(cmd: Seq<char>) -> spec_fn(Intent) -> bool {
    |x: Intent| x.routing_message_type@ == cmd
}

/// `intent_from_message_type_and_command`: a NeuralMemory intent for a
/// non-empty command when one is known, else the first plain intent of the
/// message type.
pub open spec fn spec_intent_from_type_and_command(t: i32, cmd: Seq<char>) -> Option<Intent> {
    if cmd.len() > 0 && last_where(intent_table(), command_match(t, cmd)) is Some {
        last_where(intent_table(), command_match(t, cmd))
    } else {
        first_where(intent_table(), type_match(t))
    }
}

fn find_first(v: &Vec<Intent>, t: i32, by_type: bool, cmd: &str) -> (r: Option<Intent>)
    ensures
        r == first_where(v@, if by_type { type_match(t) } else { routing_match(cmd@) }),
{
    let ghost p = if by_type { type_match(t) } else { routing_match(cmd@) };
    let n = v.len();
    for i in 0..n
        invariant
            n == v@.len(),
            p == (if by_type { type_match(t) } else { routing_match(cmd@) }),
            forall|j: int| 0 <= j < i ==> !p(#[trigger] v@[j]),
    {
        let x = v[i];
        let hit = if by_type {
            x.message_type == t && x.neural_memory_command.is_empty()
        } else {
            str_eq(x.routing_message_type, cmd)
        };
        if hit {
            proof {
                lemma_first_where_skip(v@, p, i as int);
                assert(v@.skip(i as int)[0] == x);
            }
            return Some(x);
        }
    }
    proof {
        lemma_first_where_skip(v@, p, n as int);
    }
    None
}

fn find_last_command(v: &Vec<Intent>, t: i32, cmd: &str) -> (r: Option<Intent>)
    requires
        cmd@.len() > 0,
    ensures
        r == last_where(v@, command_match(t, cmd@)),
{
    let ghost p = command_match(t, cmd@);
    let mut i = v.len();
    while i > 0
        invariant
            i <= v@.len(),
            cmd@.len() > 0,
            p == command_match(t, cmd@),
            forall|j: int| i <= j < v@.len() ==> !p(#[trigger] v@[j]),
        decreases i,
    {
        let x = v[i - 1];
        let hit = x.message_type == t && str_eq(x.neural_memory_command, cmd);
        if hit {
            proof {
                lemma_last_where_take(v@, p, i as int);
                assert(v@.take(i as int).last() == x);
            }
            return Some(x);
        }
        i = i - 1;
    }
    proof {
        lemma_last_where_take(v@, p, 0);
    }
    None
}

/// Resolve an intent from `(message_type, neural_memory_command)`.
/// Falls back to lookup by message_type alone when no command matches.
pub fn intent_from_message_type_and_command(message_type: i32, command: &str) -> (r: Option<
    Intent,
>)
    ensures
        r == spec_intent_from_type_and_command(message_type, command@),
{
    let table = all_intents();
    if !command.is_empty() {
        let hit = find_last_command(&table, message_type, command);
        if hit.is_some() {
            return hit;
        }
    }
    find_first(&table, message_type, true, "")
}

/// Resolve from a routing command string (e.g. `"MEM_REQ"`).
pub fn intent_from_command(command: &str) -> (r: Option<Intent>)
    ensures
        r == first_where(intent_table(), routing_match(command@)),
{
    let table = all_intents();
    find_first(&table, 0, false, command)
}

/// Resolve a *response* intent from a neural_memory_command.
pub fn intent_from_response_command(command: &str) -> (r: Option<Intent>)
    ensures
        r == spec_intent_from_type_and_command(1001, command@),
{
    intent_from_message_type_and_command(1001, command)
}

/// Resolve from message_type only.
pub fn intent_from_message_type(message_type: i32) -> (r: Option<Intent>)
    ensures
        r == first_where(intent_table(), type_match(message_type)),
{
    let table = all_intents();
    find_first(&table, message_type, true, "")
}


/// The last intent of `s` satisfying `p` is the one at `k` when none after
/// it does.
proof fn lemma_last_where_at(s: Seq<Intent>, p: spec_fn(Intent) -> bool, k: int)
    requires
        0 <= k < s.len(),
        p(s[k]),
        forall|j: int| k < j < s.len() ==> !p(#[trigger] s[j]),
    ensures
        last_where(s, p) == Some(s[k]),
{
    lemma_last_where_take(s, p, k + 1);
    assert(s.take(k + 1).last() == s[k]);
}

/// The commands of the Neural Memory requests differ from one another.
pub(crate) proof fn lemma_request_commands_distinct()
    ensures
        "store"@.len() == 5,
        "store_data"@.len() == 10,
        "store_batch"@.len() == 11,
        "tag_store_batch"@.len() == 15,
        "get"@.len() == 3,
        "events_for_tag"@.len() == 14,
        "link"@.len() == 4,
        "unlink"@.len() == 6,
        "link_batch"@.len() == 10,
        "store_data"@[0] == 's',
        "link_batch"@[0] == 'l',
{
    reveal_strlit("store");
    reveal_strlit("store_data");
    reveal_strlit("store_batch");
    reveal_strlit("tag_store_batch");
    reveal_strlit("get");
    reveal_strlit("events_for_tag");
    reveal_strlit("link");
    reveal_strlit("unlink");
    reveal_strlit("link_batch");
}

/// The first intent of `s` satisfying `p` is the one at `k` when none before
/// it does.
proof fn lemma_first_where_at(s: Seq<Intent>, p: spec_fn(Intent) -> bool, k: int)
    requires
        0 <= k < s.len(),
        p(s[k]),
        forall|j: int| 0 <= j < k ==> !p(#[trigger] s[j]),
    ensures
        first_where(s, p) == Some(s[k]),
{
    lemma_first_where_skip(s, p, k);
    assert(s.skip(k)[0] == s[k]);
}

/// A Neural Memory request's own message type and command look up that
/// request.
proof fn lemma_command_found(t: i32, cmd: Seq<char>, k: int)
    requires
        0 <= k < intent_table().len(),
        intent_table()[k].message_type == t,
        intent_table()[k].neural_memory_command@ == cmd,
        cmd.len() > 0,
        forall|j: int|
            k < j < intent_table().len() ==> !(#[trigger] command_match(t, cmd)(intent_table()[j])),
    ensures
        spec_intent_from_type_and_command(t, cmd) == Some(intent_table()[k]),
{
    lemma_last_where_at(intent_table(), command_match(t, cmd), k);
}

/// Looking up a request with a header layout of its own by its message type
/// and command gives back that request: the Neural Memory requests by type
/// 1000 and their `_db_cmd`, the gateway requests by their type alone.
pub proof fn lemma_request_intents_found()
    ensures
        spec_intent_from_type_and_command(1000, "store"@) == Some(spec_store_event()),
        spec_intent_from_type_and_command(1000, "store_batch"@) == Some(spec_store_batch_events()),
        spec_intent_from_type_and_command(1000, "tag_store_batch"@) == Some(spec_store_batch_tags()),
        spec_intent_from_type_and_command(1000, "get"@) == Some(spec_get_event()),
        spec_intent_from_type_and_command(1000, "events_for_tag"@) == Some(spec_get_events_for_tags()),
        spec_intent_from_type_and_command(1000, "link"@) == Some(spec_link_event()),
        spec_intent_from_type_and_command(1000, "unlink"@) == Some(spec_unlink_event()),
        spec_intent_from_type_and_command(1000, "link_batch"@) == Some(spec_store_batch_links()),
        spec_intent_from_type_and_command(5, ""@) == Some(spec_gateway_id()),
        spec_intent_from_type_and_command(10, ""@) == Some(spec_gateway_stream_on()),
        spec_intent_from_type_and_command(2, ""@) == Some(spec_actor_echo()),
{
    lemma_request_commands_distinct();
    reveal_strlit("");
    let t = intent_table();
    assert(t[0] == spec_store_event());
    assert forall|j: int| 0 < j < t.len() implies !(#[trigger] command_match(1000, "store"@)(t[j])) by {}
    lemma_command_found(1000, "store"@, 0);
    assert(t[2] == spec_store_batch_events());
    assert forall|j: int| 2 < j < t.len() implies !(#[trigger] command_match(1000, "store_batch"@)(t[j])) by {}
    lemma_command_found(1000, "store_batch"@, 2);
    assert(t[3] == spec_store_batch_tags());
    assert forall|j: int| 3 < j < t.len() implies !(#[trigger] command_match(1000, "tag_store_batch"@)(t[j])) by {}
    lemma_command_found(1000, "tag_store_batch"@, 3);
    assert(t[4] == spec_get_event());
    assert forall|j: int| 4 < j < t.len() implies !(#[trigger] command_match(1000, "get"@)(t[j])) by {}
    lemma_command_found(1000, "get"@, 4);
    assert(t[5] == spec_get_events_for_tags());
    assert forall|j: int| 5 < j < t.len() implies !(#[trigger] command_match(1000, "events_for_tag"@)(t[j])) by {}
    lemma_command_found(1000, "events_for_tag"@, 5);
    assert(t[6] == spec_link_event());
    assert forall|j: int| 6 < j < t.len() implies !(#[trigger] command_match(1000, "link"@)(t[j])) by {}
    lemma_command_found(1000, "link"@, 6);
    assert(t[7] == spec_unlink_event());
    assert forall|j: int| 7 < j < t.len() implies !(#[trigger] command_match(1000, "unlink"@)(t[j])) by {}
    lemma_command_found(1000, "unlink"@, 7);
    assert(t[8] == spec_store_batch_links());
    assert forall|j: int| 8 < j < t.len() implies !(#[trigger] command_match(1000, "link_batch"@)(t[j])) by {}
    lemma_command_found(1000, "link_batch"@, 8);
    assert(t[23] == spec_gateway_id());
    assert forall|j: int| 0 <= j < 23 implies !(#[trigger] type_match(5)(t[j])) by {}
    lemma_first_where_at(t, type_match(5), 23);
    assert(t[28] == spec_gateway_stream_on());
    assert forall|j: int| 0 <= j < 28 implies !(#[trigger] type_match(10)(t[j])) by {}
    lemma_first_where_at(t, type_match(10), 28);
    assert(t[18] == spec_actor_echo());
    assert forall|j: int| 0 <= j < 18 implies !(#[trigger] type_match(2)(t[j])) by {}
    lemma_first_where_at(t, type_match(2), 18);
}


/// The replies of Neural Memory: message type 1001 with a command.
pub open spec fn is_memory_response(i: Intent) -> bool {
    ||| i.same(spec_store_event_response())
    ||| i.same(spec_store_data_response())
    ||| i.same(spec_store_batch_events_response())
    ||| i.same(spec_store_batch_tags_response())
    ||| i.same(spec_get_event_response())
    ||| i.same(spec_get_events_for_tags_response())
    ||| i.same(spec_link_event_response())
    ||| i.same(spec_unlink_event_response())
    ||| i.same(spec_store_batch_links_response())
}

/// Looking up a Neural Memory reply by type 1001 and its command gives back
/// that reply.
pub proof fn lemma_response_intents_found()
    ensures
        spec_intent_from_type_and_command(1001, "store"@) == Some(spec_store_event_response()),
        spec_intent_from_type_and_command(1001, "store_data"@) == Some(spec_store_data_response()),
        spec_intent_from_type_and_command(1001, "store_batch"@) == Some(spec_store_batch_events_response()),
        spec_intent_from_type_and_command(1001, "tag_store_batch"@) == Some(spec_store_batch_tags_response()),
        spec_intent_from_type_and_command(1001, "get"@) == Some(spec_get_event_response()),
        spec_intent_from_type_and_command(1001, "events_for_tag"@) == Some(spec_get_events_for_tags_response()),
        spec_intent_from_type_and_command(1001, "link"@) == Some(spec_link_event_response()),
        spec_intent_from_type_and_command(1001, "unlink"@) == Some(spec_unlink_event_response()),
        spec_intent_from_type_and_command(1001, "link_batch"@) == Some(spec_store_batch_links_response()),
{
    lemma_request_commands_distinct();
    let t = intent_table();
    assert(t[9] == spec_store_event_response());
    assert forall|j: int| 9 < j < t.len() implies !(#[trigger] command_match(1001, "store"@)(t[j])) by {}
    lemma_command_found(1001, "store"@, 9);
    assert(t[10] == spec_store_data_response());
    assert forall|j: int| 10 < j < t.len() implies !(#[trigger] command_match(1001, "store_data"@)(t[j])) by {}
    lemma_command_found(1001, "store_data"@, 10);
    assert(t[11] == spec_store_batch_events_response());
    assert forall|j: int| 11 < j < t.len() implies !(#[trigger] command_match(1001, "store_batch"@)(t[j])) by {}
    lemma_command_found(1001, "store_batch"@, 11);
    assert(t[12] == spec_store_batch_tags_response());
    assert forall|j: int| 12 < j < t.len() implies !(#[trigger] command_match(1001, "tag_store_batch"@)(t[j])) by {}
    lemma_command_found(1001, "tag_store_batch"@, 12);
    assert(t[13] == spec_get_event_response());
    assert forall|j: int| 13 < j < t.len() implies !(#[trigger] command_match(1001, "get"@)(t[j])) by {}
    lemma_command_found(1001, "get"@, 13);
    assert(t[14] == spec_get_events_for_tags_response());
    assert forall|j: int| 14 < j < t.len() implies !(#[trigger] command_match(1001, "events_for_tag"@)(t[j])) by {}
    lemma_command_found(1001, "events_for_tag"@, 14);
    assert(t[15] == spec_link_event_response());
    assert forall|j: int| 15 < j < t.len() implies !(#[trigger] command_match(1001, "link"@)(t[j])) by {}
    lemma_command_found(1001, "link"@, 15);
    assert(t[16] == spec_unlink_event_response());
    assert forall|j: int| 16 < j < t.len() implies !(#[trigger] command_match(1001, "unlink"@)(t[j])) by {}
    lemma_command_found(1001, "unlink"@, 16);
    assert(t[17] == spec_store_batch_links_response());
    assert forall|j: int| 17 < j < t.len() implies !(#[trigger] command_match(1001, "link_batch"@)(t[j])) by {}
    lemma_command_found(1001, "link_batch"@, 17);
}


/// The other replies and notices the table knows by their message type
/// alone: those without a header layout of their own whose type no earlier
/// intent of the table has.
pub open spec fn is_plain_reply(i: Intent) -> bool {
    ||| i.same(spec_actor_start())
    ||| i.same(spec_status())
    ||| i.same(spec_actor_request())
    ||| i.same(spec_actor_response())
    ||| i.same(spec_gateway_disconnect())
    ||| i.same(spec_gateway_send_next())
    ||| i.same(spec_gateway_no_send())
    ||| i.same(spec_gateway_stream_off())
    ||| i.same(spec_actor_record())
    ||| i.same(spec_gateway_batch_start())
    ||| i.same(spec_gateway_batch_end())
    ||| i.same(spec_queue_next_request())
    ||| i.same(spec_queue_all_request())
    ||| i.same(spec_queue_count_request())
    ||| i.same(spec_queue_empty())
    ||| i.same(spec_keepalive())
    ||| i.same(spec_actor_report())
    ||| i.same(spec_report_request())
    ||| i.same(spec_information_report())
    ||| i.same(spec_auth_add_user())
    ||| i.same(spec_auth_update_user())
    ||| i.same(spec_auth_user_list())
    ||| i.same(spec_auth_disable_user())
    ||| i.same(spec_actor_halt())
    ||| i.same(spec_status_request())
    ||| i.same(spec_actor_user())
    ||| i.same(spec_route_any_message())
}

/// Looking up one of those by its message type and an empty command gives
/// it back.
pub proof fn lemma_plain_intents_found()
    ensures
        spec_intent_from_type_and_command(1, ""@) == Some(spec_actor_start()),
        spec_intent_from_type_and_command(3, ""@) == Some(spec_status()),
        spec_intent_from_type_and_command(4, ""@) == Some(spec_actor_request()),
        spec_intent_from_type_and_command(30, ""@) == Some(spec_actor_response()),
        spec_intent_from_type_and_command(6, ""@) == Some(spec_gateway_disconnect()),
        spec_intent_from_type_and_command(7, ""@) == Some(spec_gateway_send_next()),
        spec_intent_from_type_and_command(8, ""@) == Some(spec_gateway_no_send()),
        spec_intent_from_type_and_command(9, ""@) == Some(spec_gateway_stream_off()),
        spec_intent_from_type_and_command(11, ""@) == Some(spec_actor_record()),
        spec_intent_from_type_and_command(12, ""@) == Some(spec_gateway_batch_start()),
        spec_intent_from_type_and_command(13, ""@) == Some(spec_gateway_batch_end()),
        spec_intent_from_type_and_command(14, ""@) == Some(spec_queue_next_request()),
        spec_intent_from_type_and_command(15, ""@) == Some(spec_queue_all_request()),
        spec_intent_from_type_and_command(16, ""@) == Some(spec_queue_count_request()),
        spec_intent_from_type_and_command(17, ""@) == Some(spec_queue_empty()),
        spec_intent_from_type_and_command(18, ""@) == Some(spec_keepalive()),
        spec_intent_from_type_and_command(19, ""@) == Some(spec_actor_report()),
        spec_intent_from_type_and_command(20, ""@) == Some(spec_report_request()),
        spec_intent_from_type_and_command(21, ""@) == Some(spec_information_report()),
        spec_intent_from_type_and_command(100, ""@) == Some(spec_auth_add_user()),
        spec_intent_from_type_and_command(101, ""@) == Some(spec_auth_update_user()),
        spec_intent_from_type_and_command(102, ""@) == Some(spec_auth_user_list()),
        spec_intent_from_type_and_command(103, ""@) == Some(spec_auth_disable_user()),
        spec_intent_from_type_and_command(99, ""@) == Some(spec_actor_halt()),
        spec_intent_from_type_and_command(110, ""@) == Some(spec_status_request()),
        spec_intent_from_type_and_command(65536, ""@) == Some(spec_actor_user()),
        spec_intent_from_type_and_command(0, ""@) == Some(spec_route_any_message()),
{
    reveal_strlit("");
    let t = intent_table();
    assert(t[19] == spec_actor_start());
    assert forall|j: int| 0 <= j < 19 implies !(#[trigger] type_match(1)(t[j])) by {}
    lemma_first_where_at(t, type_match(1), 19);
    assert(t[20] == spec_status());
    assert forall|j: int| 0 <= j < 20 implies !(#[trigger] type_match(3)(t[j])) by {}
    lemma_first_where_at(t, type_match(3), 20);
    assert(t[21] == spec_actor_request());
    assert forall|j: int| 0 <= j < 21 implies !(#[trigger] type_match(4)(t[j])) by {}
    lemma_first_where_at(t, type_match(4), 21);
    assert(t[22] == spec_actor_response());
    assert forall|j: int| 0 <= j < 22 implies !(#[trigger] type_match(30)(t[j])) by {}
    lemma_first_where_at(t, type_match(30), 22);
    assert(t[24] == spec_gateway_disconnect());
    assert forall|j: int| 0 <= j < 24 implies !(#[trigger] type_match(6)(t[j])) by {}
    lemma_first_where_at(t, type_match(6), 24);
    assert(t[25] == spec_gateway_send_next());
    assert forall|j: int| 0 <= j < 25 implies !(#[trigger] type_match(7)(t[j])) by {}
    lemma_first_where_at(t, type_match(7), 25);
    assert(t[26] == spec_gateway_no_send());
    assert forall|j: int| 0 <= j < 26 implies !(#[trigger] type_match(8)(t[j])) by {}
    lemma_first_where_at(t, type_match(8), 26);
    assert(t[27] == spec_gateway_stream_off());
    assert forall|j: int| 0 <= j < 27 implies !(#[trigger] type_match(9)(t[j])) by {}
    lemma_first_where_at(t, type_match(9), 27);
    assert(t[29] == spec_actor_record());
    assert forall|j: int| 0 <= j < 29 implies !(#[trigger] type_match(11)(t[j])) by {}
    lemma_first_where_at(t, type_match(11), 29);
    assert(t[30] == spec_gateway_batch_start());
    assert forall|j: int| 0 <= j < 30 implies !(#[trigger] type_match(12)(t[j])) by {}
    lemma_first_where_at(t, type_match(12), 30);
    assert(t[31] == spec_gateway_batch_end());
    assert forall|j: int| 0 <= j < 31 implies !(#[trigger] type_match(13)(t[j])) by {}
    lemma_first_where_at(t, type_match(13), 31);
    assert(t[32] == spec_queue_next_request());
    assert forall|j: int| 0 <= j < 32 implies !(#[trigger] type_match(14)(t[j])) by {}
    lemma_first_where_at(t, type_match(14), 32);
    assert(t[33] == spec_queue_all_request());
    assert forall|j: int| 0 <= j < 33 implies !(#[trigger] type_match(15)(t[j])) by {}
    lemma_first_where_at(t, type_match(15), 33);
    assert(t[34] == spec_queue_count_request());
    assert forall|j: int| 0 <= j < 34 implies !(#[trigger] type_match(16)(t[j])) by {}
    lemma_first_where_at(t, type_match(16), 34);
    assert(t[35] == spec_queue_empty());
    assert forall|j: int| 0 <= j < 35 implies !(#[trigger] type_match(17)(t[j])) by {}
    lemma_first_where_at(t, type_match(17), 35);
    assert(t[36] == spec_keepalive());
    assert forall|j: int| 0 <= j < 36 implies !(#[trigger] type_match(18)(t[j])) by {}
    lemma_first_where_at(t, type_match(18), 36);
    assert(t[37] == spec_actor_report());
    assert forall|j: int| 0 <= j < 37 implies !(#[trigger] type_match(19)(t[j])) by {}
    lemma_first_where_at(t, type_match(19), 37);
    assert(t[38] == spec_report_request());
    assert forall|j: int| 0 <= j < 38 implies !(#[trigger] type_match(20)(t[j])) by {}
    lemma_first_where_at(t, type_match(20), 38);
    assert(t[39] == spec_information_report());
    assert forall|j: int| 0 <= j < 39 implies !(#[trigger] type_match(21)(t[j])) by {}
    lemma_first_where_at(t, type_match(21), 39);
    assert(t[40] == spec_auth_add_user());
    assert forall|j: int| 0 <= j < 40 implies !(#[trigger] type_match(100)(t[j])) by {}
    lemma_first_where_at(t, type_match(100), 40);
    assert(t[41] == spec_auth_update_user());
    assert forall|j: int| 0 <= j < 41 implies !(#[trigger] type_match(101)(t[j])) by {}
    lemma_first_where_at(t, type_match(101), 41);
    assert(t[42] == spec_auth_user_list());
    assert forall|j: int| 0 <= j < 42 implies !(#[trigger] type_match(102)(t[j])) by {}
    lemma_first_where_at(t, type_match(102), 42);
    assert(t[43] == spec_auth_disable_user());
    assert forall|j: int| 0 <= j < 43 implies !(#[trigger] type_match(103)(t[j])) by {}
    lemma_first_where_at(t, type_match(103), 43);
    assert(t[44] == spec_actor_halt());
    assert forall|j: int| 0 <= j < 44 implies !(#[trigger] type_match(99)(t[j])) by {}
    lemma_first_where_at(t, type_match(99), 44);
    assert(t[45] == spec_status_request());
    assert forall|j: int| 0 <= j < 45 implies !(#[trigger] type_match(110)(t[j])) by {}
    lemma_first_where_at(t, type_match(110), 45);
    assert(t[46] == spec_actor_user());
    assert forall|j: int| 0 <= j < 46 implies !(#[trigger] type_match(65536)(t[j])) by {}
    lemma_first_where_at(t, type_match(65536), 46);
    assert(t[47] == spec_route_any_message());
    assert forall|j: int| 0 <= j < 47 implies !(#[trigger] type_match(0)(t[j])) by {}
    lemma_first_where_at(t, type_match(0), 47);
}

} // verus!
