use chat_relay::error::ChatError;
use chat_relay::request::ChatMessage;
use chat_relay::response::{normalize, AiResponse, AiUsage, OpenAiChoice, OpenAiResponse};
use serde_json::Value;

fn text_of(value: &Value) -> Option<String> {
    value.as_str().map(|text| text.to_string())
}

fn count_of(value: &Value) -> Option<u32> {
    value.as_u64().map(|count| count as u32)
}

fn parsed(json: &str) -> OpenAiResponse {
    let value: Value = serde_json::from_str(json).unwrap();
    let usage = value.get("usage").filter(|usage| usage.is_object()).map(|usage| AiUsage {
        prompt_tokens: count_of(&usage["prompt_tokens"]),
        completion_tokens: count_of(&usage["completion_tokens"]),
        total_tokens: count_of(&usage["total_tokens"]),
    });
    let choices = value["choices"]
        .as_array()
        .unwrap()
        .iter()
        .map(|choice| OpenAiChoice {
            finish_reason: text_of(&choice["finish_reason"]),
            message: ChatMessage {
                role: text_of(&choice["message"]["role"]).unwrap(),
                content: text_of(&choice["message"]["content"]).unwrap(),
            },
        })
        .collect();
    OpenAiResponse { id: text_of(&value["id"]), model: text_of(&value["model"]), usage, choices }
}

fn choice(finish_reason: Option<&str>, content: &str) -> OpenAiChoice {
    OpenAiChoice {
        finish_reason: finish_reason.map(|reason| reason.to_string()),
        message: ChatMessage { role: "assistant".to_string(), content: content.to_string() },
    }
}

#[test]
fn one_choice_round_trip() {
    let json = r#"{
        "id": "chatcmpl-1",
        "model": "gpt-x",
        "usage": {"prompt_tokens": 3, "completion_tokens": 1, "total_tokens": 4},
        "choices": [
            {"finish_reason": "stop", "message": {"role": "assistant", "content": "hello"}}
        ]
    }"#;
    let answer = normalize(parsed(json)).unwrap();
    assert_eq!(answer.content, "hello");
    assert_eq!(answer.finish_reason.as_deref(), Some("stop"));
    assert_eq!(answer.model.as_deref(), Some("gpt-x"));
    assert_eq!(
        answer.usage,
        Some(AiUsage {
            prompt_tokens: Some(3),
            completion_tokens: Some(1),
            total_tokens: Some(4)
        })
    );
}

#[test]
fn zero_choices_is_no_content() {
    let json = r#"{"id": "chatcmpl-2", "model": "gpt-x", "choices": []}"#;
    assert_eq!(normalize(parsed(json)), Err(ChatError::NoContent));
}

#[test]
fn zero_choices_is_no_content_whatever_else_is_there() {
    let response = OpenAiResponse {
        id: Some("id".to_string()),
        model: Some("content-like text".to_string()),
        usage: Some(AiUsage { prompt_tokens: Some(1), completion_tokens: None, total_tokens: None }),
        choices: Vec::new(),
    };
    assert_eq!(normalize(response), Err(ChatError::NoContent));
}

#[test]
fn first_choice_wins() {
    let response = OpenAiResponse {
        id: None,
        model: None,
        usage: None,
        choices: vec![
            choice(Some("length"), "first"),
            choice(Some("stop"), "second"),
            choice(None, "third"),
        ],
    };
    assert_eq!(
        normalize(response),
        Ok(AiResponse {
            content: "first".to_string(),
            finish_reason: Some("length".to_string()),
            model: None,
            usage: None,
        })
    );
}

#[test]
fn missing_optional_fields_stay_missing() {
    let json = r#"{"choices": [{"message": {"role": "assistant", "content": ""}}]}"#;
    assert_eq!(
        normalize(parsed(json)),
        Ok(AiResponse { content: String::new(), finish_reason: None, model: None, usage: None })
    );
}

#[test]
fn usage_counts_are_independent() {
    let json = r#"{
        "model": "m",
        "usage": {"completion_tokens": 7},
        "choices": [{"finish_reason": null, "message": {"role": "assistant", "content": "x"}}]
    }"#;
    let answer = normalize(parsed(json)).unwrap();
    assert_eq!(
        answer.usage,
        Some(AiUsage { prompt_tokens: None, completion_tokens: Some(7), total_tokens: None })
    );
    assert_eq!(answer.finish_reason, None);
}

#[test]
fn content_passes_through_unchanged() {
    let text = "  line one\n\tline two \u{4f60}\u{597d} /// ";
    let response = OpenAiResponse {
        id: None,
        model: Some(" m ".to_string()),
        usage: None,
        choices: vec![choice(Some(" stop "), text)],
    };
    let answer = normalize(response).unwrap();
    assert_eq!(answer.content, text);
    assert_eq!(answer.finish_reason.as_deref(), Some(" stop "));
    assert_eq!(answer.model.as_deref(), Some(" m "));
}
