//! The record that travels between nodes.

use vstd::prelude::*;

verus! {

/// One remote message with its routing data.
#[derive(Debug)]
pub struct Envelope {
    /// The stable tag of the message's type, chosen by the sender.
    pub message_type: String,
    /// The serialized message.
    pub payload: Vec<u8>,
    /// The sender's number for matching a response to its request.
    pub correlation_id: u64,
    /// The node the envelope comes from.
    pub sender_node: String,
    /// The actor the envelope is for, by name, on the target node.
    pub target_actor: String,
    /// Whether this is a reply.
    pub is_response: bool,
}

/// An envelope as plain values.
pub ghost struct EnvelopeView {
    pub message_type: Seq<char>,
    pub payload: Seq<u8>,
    pub correlation_id: u64,
    pub sender_node: Seq<char>,
    pub target_actor: Seq<char>,
    pub is_response: bool,
}

impl View for Envelope {
    type V = EnvelopeView;

    open spec fn view(&self) -> EnvelopeView {
        EnvelopeView {
            message_type: self.message_type@,
            payload: self.payload@,
            correlation_id: self.correlation_id,
            sender_node: self.sender_node@,
            target_actor: self.target_actor@,
            is_response: self.is_response,
        }
    }
}

/// The reply to `request` that node `node_id` sends: it carries the request's
/// correlation id and goes back to where the request came from.
pub open spec fn response_to(
    request: EnvelopeView,
    result_type: Seq<char>,
    payload: Seq<u8>,
    node_id: Seq<char>,
) -> EnvelopeView {
    EnvelopeView {
        message_type: result_type,
        payload,
        correlation_id: request.correlation_id,
        sender_node: node_id,
        target_actor: request.sender_node,
        is_response: true,
    }
}

impl Clone for Envelope {
    fn clone(&self) -> (copy: Self)
        ensures
            copy@ == self@,
    {
        Envelope {
            message_type: self.message_type.clone(),
            payload: self.payload.clone(),
            correlation_id: self.correlation_id,
            sender_node: self.sender_node.clone(),
            target_actor: self.target_actor.clone(),
            is_response: self.is_response,
        }
    }
}

impl Envelope {
    /// A request from `sender_node` to `target_actor`.
    pub fn request(
        message_type: &str,
        payload: Vec<u8>,
        correlation_id: u64,
        sender_node: &str,
        target_actor: &str,
    ) -> (envelope: Envelope)
        ensures
            envelope@ == (EnvelopeView {
                message_type: message_type@,
                payload: payload@,
                correlation_id,
                sender_node: sender_node@,
                target_actor: target_actor@,
                is_response: false,
            }),
    {
        Envelope {
            message_type: message_type.to_owned(),
            payload,
            correlation_id,
            sender_node: sender_node.to_owned(),
            target_actor: target_actor.to_owned(),
            is_response: false,
        }
    }

    /// The reply to this request, sent by node `node_id`, with the handler's
    /// serialized result as payload.
    pub fn response(&self, result_type: &str, payload: Vec<u8>, node_id: &str) -> (reply: Envelope)
        ensures
            reply@ == response_to(self@, result_type@, payload@, node_id@),
    {
        Envelope {
            message_type: result_type.to_owned(),
            payload,
            correlation_id: self.correlation_id,
            sender_node: node_id.to_owned(),
            target_actor: self.sender_node.clone(),
            is_response: true,
        }
    }
}

/// A reply answers its request: it keeps the correlation id, is marked as a
/// response, and is addressed to the node that sent the request.
pub proof fn lemma_response_matches_request(
    request: EnvelopeView,
    result_type: Seq<char>,
    payload: Seq<u8>,
    node_id: Seq<char>,
)
    ensures
        response_to(request, result_type, payload, node_id).correlation_id
            == request.correlation_id,
        response_to(request, result_type, payload, node_id).is_response,
        response_to(request, result_type, payload, node_id).target_actor == request.sender_node,
{
}

} // verus!
