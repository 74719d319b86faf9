//! The chat request as a caller hands it over.

use vstd::prelude::*;

verus! {

/// The convention that the target API follows for its endpoint and for the
/// header that carries the credential.
#[derive(Clone, Copy, Debug, PartialEq, Eq)]
pub enum Provider {
    Openai,
    Azure,
    Custom,
}

impl Default for Provider {
    fn default() -> (provider: Self)
        ensures
            provider == Provider::Openai,
    {
        Provider::Openai
    }
}

/// One turn of the conversation. Both fields pass through unread.
#[derive(Clone, Debug, PartialEq, Eq)]
pub struct ChatMessage {
    pub role: String,
    pub content: String,
}

/// What a [`ChatMessage`] holds.
pub ghost struct MessageModel {
    pub role: Seq<char>,
    pub content: Seq<char>,
}

impl View for ChatMessage {
    type V = MessageModel;

    open spec fn view(&self) -> MessageModel {
        MessageModel { role: self.role@, content: self.content@ }
    }
}

impl DeepView for ChatMessage {
    type V = MessageModel;

    open spec fn deep_view(&self) -> MessageModel {
        self@
    }
}

/// A conversation and where to send it.
///
/// `temperature_bits` is the sampling temperature as the bit pattern of an
/// IEEE 754 single-precision number. Like `model`, `max_tokens` and the text
/// of the messages it belongs to the request body and is never read here.
#[derive(Clone, Debug, PartialEq, Eq)]
pub struct ChatRequest {
    pub provider: Provider,
    pub model: String,
    pub temperature_bits: u32,
    pub messages: Vec<ChatMessage>,
    pub api_key: String,
    pub base_url: String,
    pub max_tokens: u32,
}

/// What a [`ChatRequest`] holds.
pub ghost struct RequestModel {
    pub provider: Provider,
    pub model: Seq<char>,
    pub temperature_bits: u32,
    pub messages: Seq<MessageModel>,
    pub api_key: Seq<char>,
    pub base_url: Seq<char>,
    pub max_tokens: u32,
}

impl View for ChatRequest {
    type V = RequestModel;

    open spec fn view(&self) -> RequestModel {
        RequestModel {
            provider: self.provider,
            model: self.model@,
            temperature_bits: self.temperature_bits,
            messages: self.messages.deep_view(),
            api_key: self.api_key@,
            base_url: self.base_url@,
            max_tokens: self.max_tokens,
        }
    }
}

} // verus!
