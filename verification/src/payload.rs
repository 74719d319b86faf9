//! What goes into the body of the call.

use vstd::prelude::*;
use crate::request::{ChatMessage, ChatRequest, MessageModel, RequestModel};

verus! {

/// The fields of the JSON body, `{model, temperature, max_tokens, messages}`,
/// as they are taken from the request. Writing them out as JSON is left to
/// the caller.
#[derive(Clone, Debug, PartialEq, Eq)]
pub struct Payload {
    pub model: String,
    pub temperature_bits: u32,
    pub max_tokens: u32,
    pub messages: Vec<ChatMessage>,
}

/// What a [`Payload`] holds.
pub ghost struct PayloadModel {
    pub model: Seq<char>,
    pub temperature_bits: u32,
    pub max_tokens: u32,
    pub messages: Seq<MessageModel>,
}

impl View for Payload {
    type V = PayloadModel;

    open spec fn view(&self) -> PayloadModel {
        PayloadModel {
            model: self.model@,
            temperature_bits: self.temperature_bits,
            max_tokens: self.max_tokens,
            messages: self.messages.deep_view(),
        }
    }
}

/// The body for `request`: its model, temperature and token limit, and its
/// messages in their order, each with its role and text as they came.
pub open spec fn payload_of(request: RequestModel) -> PayloadModel {
    PayloadModel {
        model: request.model,
        temperature_bits: request.temperature_bits,
        max_tokens: request.max_tokens,
        messages: request.messages,
    }
}

/// A copy of `messages`.
fn copy_messages(messages: &Vec<ChatMessage>) -> (copy: Vec<ChatMessage>)
    ensures
        copy.deep_view() == messages.deep_view(),
{
    let mut copy: Vec<ChatMessage> = Vec::new();
    let mut i: usize = 0;
    while i < messages.len()
        invariant
            i <= messages.len(),
            copy.len() == i,
            forall|k: int| 0 <= k < i ==> (#[trigger] copy[k])@ == messages[k]@,
        decreases messages.len() - i,
    {
        let message = ChatMessage {
            role: messages[i].role.clone(),
            content: messages[i].content.clone(),
        };
        copy.push(message);
        i += 1;
    }
    assert(copy.deep_view() =~= messages.deep_view());
    copy
}

/// The body for `request`.
pub fn build_payload(request: &ChatRequest) -> (payload: Payload)
    ensures
        payload@ == payload_of(request@),
{
    Payload {
        model: request.model.clone(),
        temperature_bits: request.temperature_bits,
        max_tokens: request.max_tokens,
        messages: copy_messages(&request.messages),
    }
}

impl Payload {
    /// A copy of this body.
    pub fn duplicate(&self) -> (copy: Payload)
        ensures
            copy@ == self@,
    {
        Payload {
            model: self.model.clone(),
            temperature_bits: self.temperature_bits,
            max_tokens: self.max_tokens,
            messages: copy_messages(&self.messages),
        }
    }
}

} // verus!
