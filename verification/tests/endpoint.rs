use chat_relay::endpoint::{base_address, build_alternate_endpoint, build_endpoint};
use chat_relay::request::{ChatMessage, ChatRequest, Provider};

fn request_to(provider: Provider, base_url: &str) -> ChatRequest {
    ChatRequest {
        provider,
        model: "gpt-x".to_string(),
        temperature_bits: 0.7f32.to_bits(),
        messages: vec![ChatMessage { role: "user".to_string(), content: "hi".to_string() }],
        api_key: "sk-abc".to_string(),
        base_url: base_url.to_string(),
        max_tokens: 100,
    }
}

fn in_white_space_list(c: char) -> bool {
    let n = c as u32;
    (0x09..=0x0D).contains(&n)
        || n == 0x20
        || n == 0x85
        || n == 0xA0
        || n == 0x1680
        || (0x2000..=0x200A).contains(&n)
        || n == 0x2028
        || n == 0x2029
        || n == 0x202F
        || n == 0x205F
        || n == 0x3000
}

#[test]
fn provider_defaults_to_openai() {
    assert_eq!(Provider::default(), Provider::Openai);
}

#[test]
fn openai_endpoint_appends_the_path_once() {
    let request = request_to(Provider::Openai, "https://api.example.com/v1/");
    assert_eq!(build_endpoint(&request), "https://api.example.com/v1/chat/completions");
}

#[test]
fn openai_endpoint_without_trailing_slash() {
    let request = request_to(Provider::Openai, "https://api.example.com/v1");
    assert_eq!(build_endpoint(&request), "https://api.example.com/v1/chat/completions");
}

#[test]
fn openai_endpoint_drops_every_trailing_slash() {
    let request = request_to(Provider::Openai, "https://api.example.com/v1////");
    let endpoint = build_endpoint(&request);
    assert_eq!(endpoint, "https://api.example.com/v1/chat/completions");
    assert!(!endpoint["https://".len()..].contains("//"));
}

#[test]
fn openai_endpoint_trims_outer_white_space() {
    let request = request_to(Provider::Openai, " \t https://api.example.com/v1/ \r\n");
    assert_eq!(build_endpoint(&request), "https://api.example.com/v1/chat/completions");
}

#[test]
fn openai_endpoint_of_an_empty_base() {
    assert_eq!(build_endpoint(&request_to(Provider::Openai, "")), "/chat/completions");
    assert_eq!(build_endpoint(&request_to(Provider::Openai, " /// ")), "/chat/completions");
}

#[test]
fn openai_endpoint_keeps_a_path_that_is_already_there() {
    let request = request_to(Provider::Openai, "https://h/chat/completions/");
    assert_eq!(build_endpoint(&request), "https://h/chat/completions/chat/completions");
}

#[test]
fn azure_endpoint_is_the_base_address() {
    let base = " https://r.openai.azure.com/openai/deployments/d/chat/completions?api-version=1/ ";
    let request = request_to(Provider::Azure, base);
    assert_eq!(
        build_endpoint(&request),
        "https://r.openai.azure.com/openai/deployments/d/chat/completions?api-version=1"
    );
}

#[test]
fn custom_endpoint_is_the_base_address() {
    let request = request_to(Provider::Custom, "http://localhost:8080/v1/complete//");
    assert_eq!(build_endpoint(&request), "http://localhost:8080/v1/complete");
}

#[test]
fn alternate_endpoint_appends_the_path_for_every_provider() {
    for provider in [Provider::Openai, Provider::Azure, Provider::Custom] {
        let request = request_to(provider, " http://localhost:8080/v1// ");
        assert_eq!(
            build_alternate_endpoint(&request),
            "http://localhost:8080/v1/chat/completions"
        );
    }
}

#[test]
fn slashes_behind_inner_white_space_leave_the_white_space() {
    assert_eq!(base_address("x /"), "x ");
    assert_eq!(base_address("x/ "), "x");
    assert_eq!(base_address("x/ /"), "x/ ");
}

#[test]
fn base_address_keeps_inner_slashes_and_white_space() {
    assert_eq!(base_address("  a/b c//d/  "), "a/b c//d");
}

#[test]
fn base_address_trims_unicode_white_space() {
    assert_eq!(base_address("\u{3000}\u{85}\u{a0}x\u{2028}\u{205f}\u{1680}"), "x");
    assert_eq!(base_address("\u{200b}x\u{180e}"), "\u{200b}x\u{180e}");
}

#[test]
fn base_address_trims_exactly_the_listed_white_space() {
    for n in 0..=0x10FFFFu32 {
        if let Some(c) = char::from_u32(n) {
            let wrapped = format!("{c}x{c}");
            let trimmed = base_address(&wrapped) == "x";
            assert_eq!(trimmed, in_white_space_list(c), "U+{n:04X}");
        }
    }
}

#[test]
fn base_address_drops_only_slashes_at_the_end() {
    for n in 0..=0x10FFFFu32 {
        if let Some(c) = char::from_u32(n) {
            if in_white_space_list(c) {
                continue;
            }
            let text = format!("x{c}{c}");
            let expected = if c == '/' { "x".to_string() } else { text.clone() };
            assert_eq!(base_address(&text), expected, "U+{n:04X}");
        }
    }
}

#[test]
fn any_number_of_trailing_slashes_gives_the_same_endpoints() {
    for provider in [Provider::Openai, Provider::Azure, Provider::Custom] {
        let plain = request_to(provider, "\thttps://api.example.com/v1");
        for n in 0..6 {
            let slashed =
                request_to(provider, &format!("\thttps://api.example.com/v1{}", "/".repeat(n)));
            assert_eq!(build_endpoint(&slashed), build_endpoint(&plain));
            assert_eq!(build_alternate_endpoint(&slashed), build_alternate_endpoint(&plain));
        }
    }
}

#[test]
fn completions_path_starts_with_the_only_slash_at_the_joint() {
    for base in ["https://h/v1", "https://h/v1/", "https://h/v1//", " https://h/v1/// "] {
        let endpoint = build_endpoint(&request_to(Provider::Openai, base));
        let joint = endpoint.len() - chat_relay::endpoint::COMPLETIONS_PATH.len();
        assert_eq!(&endpoint[joint..], "/chat/completions");
        assert!(!endpoint[..joint].ends_with('/'));
        assert_eq!(&endpoint[..joint], "https://h/v1");
    }
}
