//! Health checks of socket actors: an inbound StatusRequest probe
//! (message type 110) is answered with a Status reply (message type 3) that
//! echoes the probe's message id.

use vstd::prelude::*;

use crate::message::intents::{spec_status, spec_status_request, status};
use crate::message::types::{Envelope, Message, ResponseFields};
use crate::text::{append_str, chars_of, str_eq, string_from_chars};

verus! {

/// Whether an inbound message is a StatusRequest probe (by intent name).
pub fn is_status_request(inbound: &Message) -> (r: bool)
    ensures
        r == (inbound.envelope.intent.name@ == spec_status_request().name@),
{
    str_eq(inbound.envelope.intent.name, "StatusRequest")
}

/// The Status reply to a probe: from `client_name@gateway_actor_name` back
/// to the probe's sender, under the probe's message id, reporting `OK` /
/// `actor is healthy`.
pub open spec fn is_health_reply(
    reply: Message,
    client_name: Seq<char>,
    gateway_actor_name: Seq<char>,
    inbound: Message,
) -> bool {
    &&& reply.envelope.to@ == inbound.envelope.from@
    &&& reply.envelope.from@ == client_name + "@"@ + gateway_actor_name
    &&& reply.envelope.intent == spec_status()
    &&& reply.envelope.client_name@ == client_name
    &&& reply.envelope.message_id@ == inbound.envelope.message_id@
    &&& reply.envelope.passcode@.len() == 0
    &&& reply.envelope.user_name@.len() == 0
    &&& reply.response matches Some(resp) && resp.status@ == "OK"@ && resp.message@
        == "actor is healthy"@ && resp.carries_only_outcome()
    &&& reply.event is None
    &&& reply.payload is None
    &&& reply.neural_memory is None
    &&& reply.public_key is None
}

/// The Status reply to an inbound StatusRequest probe.
pub fn build_status_health_reply_for(
    client_name: &str,
    gateway_actor_name: &str,
    inbound: &Message,
) -> (r: Message)
    ensures
        is_health_reply(r, client_name@, gateway_actor_name@, *inbound),
{
    let mut from = chars_of(client_name);
    append_str(&mut from, "@");
    append_str(&mut from, gateway_actor_name);
    let mut response = ResponseFields::default();
    response.status = "OK".to_owned();
    response.message = "actor is healthy".to_owned();
    Message {
        envelope: Envelope {
            to: inbound.envelope.from.clone(),
            from: string_from_chars(from.as_slice()),
            intent: status(),
            client_name: client_name.to_owned(),
            message_id: inbound.envelope.message_id.clone(),
            passcode: String::new(),
            user_name: String::new(),
        },
        event: None,
        payload: None,
        neural_memory: None,
        response: Some(response),
        public_key: None,
    }
}

} // verus!
