//! The answer of a provider, and what is made of it for the caller.

use vstd::prelude::*;
use crate::error::{ChatError, ErrorModel};
use crate::request::{ChatMessage, MessageModel};

verus! {

/// Token counts as a provider reports them. Each may be missing.
#[derive(Clone, Copy, Debug, PartialEq, Eq)]
pub struct AiUsage {
    pub prompt_tokens: Option<u32>,
    pub completion_tokens: Option<u32>,
    pub total_tokens: Option<u32>,
}

/// The answer in the one shape that callers see.
#[derive(Clone, Debug, PartialEq, Eq)]
pub struct AiResponse {
    pub content: String,
    pub finish_reason: Option<String>,
    pub model: Option<String>,
    pub usage: Option<AiUsage>,
}

/// What an [`AiResponse`] holds.
pub ghost struct AnswerModel {
    pub content: Seq<char>,
    pub finish_reason: Option<Seq<char>>,
    pub model: Option<Seq<char>>,
    pub usage: Option<AiUsage>,
}

impl View for AiResponse {
    type V = AnswerModel;

    open spec fn view(&self) -> AnswerModel {
        AnswerModel {
            content: self.content@,
            finish_reason: self.finish_reason.deep_view(),
            model: self.model.deep_view(),
            usage: self.usage,
        }
    }
}

/// One candidate completion of a provider's answer.
#[derive(Clone, Debug, PartialEq, Eq)]
pub struct OpenAiChoice {
    pub finish_reason: Option<String>,
    pub message: ChatMessage,
}

/// What an [`OpenAiChoice`] holds.
pub ghost struct ChoiceModel {
    pub finish_reason: Option<Seq<char>>,
    pub message: MessageModel,
}

impl View for OpenAiChoice {
    type V = ChoiceModel;

    open spec fn view(&self) -> ChoiceModel {
        ChoiceModel { finish_reason: self.finish_reason.deep_view(), message: self.message@ }
    }
}

impl DeepView for OpenAiChoice {
    type V = ChoiceModel;

    open spec fn deep_view(&self) -> ChoiceModel {
        self@
    }
}

/// The parsed body of a provider's successful answer.
#[derive(Clone, Debug, PartialEq, Eq)]
pub struct OpenAiResponse {
    pub id: Option<String>,
    pub model: Option<String>,
    pub usage: Option<AiUsage>,
    pub choices: Vec<OpenAiChoice>,
}

/// What an [`OpenAiResponse`] holds.
pub ghost struct ParsedModel {
    pub id: Option<Seq<char>>,
    pub model: Option<Seq<char>>,
    pub usage: Option<AiUsage>,
    pub choices: Seq<ChoiceModel>,
}

impl View for OpenAiResponse {
    type V = ParsedModel;

    open spec fn view(&self) -> ParsedModel {
        ParsedModel {
            id: self.id.deep_view(),
            model: self.model.deep_view(),
            usage: self.usage,
            choices: self.choices.deep_view(),
        }
    }
}

/// What a parsed answer comes to: the text and finish reason of its first
/// choice beside its own model name and usage, or `NoContent` where it lists
/// no choice. Choices after the first, and the answer's id, play no part.
pub open spec fn normalized(parsed: ParsedModel) -> Result<AnswerModel, ErrorModel> {
    if parsed.choices.len() == 0 {
        Err(ErrorModel::NoContent)
    } else {
        Ok(
            AnswerModel {
                content: parsed.choices[0].message.content,
                finish_reason: parsed.choices[0].finish_reason,
                model: parsed.model,
                usage: parsed.usage,
            },
        )
    }
}

/// The model of an outcome.
pub open spec fn outcome_of(outcome: Result<AiResponse, ChatError>) -> Result<
    AnswerModel,
    ErrorModel,
> {
    match outcome {
        Ok(answer) => Ok(answer@),
        Err(error) => Err(error@),
    }
}

/// Turns a parsed answer into what the caller sees: the first choice, or
/// `NoContent` where there is none.
pub fn normalize(parsed: OpenAiResponse) -> (outcome: Result<AiResponse, ChatError>)
    ensures
        outcome_of(outcome) == normalized(parsed@),
        outcome is Err <==> parsed@.choices.len() == 0,
        outcome matches Err(error) ==> error@ == ErrorModel::NoContent,
        outcome matches Ok(answer) ==> answer@.content == parsed@.choices[0].message.content
            && answer@.finish_reason == parsed@.choices[0].finish_reason && answer@.model
            == parsed@.model && answer@.usage == parsed@.usage,
{
    let OpenAiResponse { id: _, model, usage, choices } = parsed;
    let mut choices = choices;
    if choices.len() == 0 {
        return Err(ChatError::NoContent);
    }
    let first = choices.swap_remove(0);
    Ok(
        AiResponse {
            content: first.message.content,
            finish_reason: first.finish_reason,
            model,
            usage,
        },
    )
}

} // verus!
