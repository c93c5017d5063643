use std::collections::HashMap;

use revibe::backend::factory::{BackendFactory, BackendType};
use revibe::backend::{
    api_error, filter_extra_headers, generic_headers, mistral_headers, parse_failure, prompt_tokens_of, select_headers, status_is_success,
    CompletionOptions, LlmError, ProviderConfig,
};
use revibe::types::{LlmChunk, LlmMessage, LlmUsage};

fn provider(env: &str) -> ProviderConfig {
    ProviderConfig {
        name: "mistral".to_string(),
        api_base: "https://api.mistral.ai/v1".to_string(),
        api_key_env_var: env.to_string(),
        backend: BackendType::Mistral,
    }
}

fn pairs(v: &[(&str, &str)]) -> Vec<(String, String)> {
    v.iter().map(|(a, b)| (a.to_string(), b.to_string())).collect()
}

#[test]
fn backend_names_parse_ignoring_case() {
    assert_eq!(BackendType::parse("mistral"), Ok(BackendType::Mistral));
    assert_eq!(BackendType::parse("MISTRAL"), Ok(BackendType::Mistral));
    assert_eq!(BackendType::parse("Generic"), Ok(BackendType::Generic));
    assert_eq!(BackendType::parse("OpenAI"), Ok(BackendType::Generic));
    assert_eq!(BackendType::parse("anthropic"), Err("Unknown backend type: anthropic".to_string()));
    assert_eq!("openai".parse::<BackendType>(), Ok(BackendType::Generic));
    assert_eq!(BackendType::default(), BackendType::Generic);
    for t in [BackendType::Mistral, BackendType::Generic] {
        assert_eq!(BackendType::parse(t.as_str()), Ok(t));
    }
    assert_eq!(BackendType::Mistral.as_str(), "mistral");
    assert_eq!(BackendType::from_lowercase_name("generic"), Some(BackendType::Generic));
    assert_eq!(BackendType::from_lowercase_name("Generic"), None);
    let _factory = BackendFactory;
}

#[test]
fn endpoint_and_status() {
    let p = provider("MISTRAL_API_KEY");
    assert_eq!(p.endpoint(), "https://api.mistral.ai/v1/chat/completions");
    assert_eq!(p.api_key_variable(), Some("MISTRAL_API_KEY"));
    assert_eq!(provider("").api_key_variable(), None);
    assert!(status_is_success(200));
    assert!(status_is_success(299));
    assert!(!status_is_success(300));
    assert!(!status_is_success(199));
    assert!(!status_is_success(404));
}

#[test]
fn errors_carry_their_details() {
    match api_error("mistral", 401, "unauthorized".to_string()) {
        LlmError::ApiError { provider, status, message } => {
            assert_eq!(provider, "mistral");
            assert_eq!(status, 401);
            assert_eq!(message, "unauthorized");
        }
        other => panic!("unexpected {:?}", other),
    }
    match parse_failure("expected value", "oops") {
        LlmError::ParseError(m) => assert_eq!(m, "Failed to parse response: expected value\nBody: oops"),
        other => panic!("unexpected {:?}", other),
    }
}

#[test]
fn token_count_needs_usage() {
    let with = LlmChunk {
        message: LlmMessage::assistant(""),
        finish_reason: None,
        usage: Some(LlmUsage { prompt_tokens: 42, completion_tokens: 1 }),
    };
    assert_eq!(prompt_tokens_of(&with).unwrap(), 42);
    let without = LlmChunk { message: LlmMessage::assistant(""), finish_reason: None, usage: None };
    assert!(matches!(prompt_tokens_of(&without), Err(LlmError::MissingUsage)));
}

#[test]
fn generic_headers_in_order() {
    let extra = pairs(&[("X-Trace", "abc"), ("bad name", "v"), ("", "v"), ("X-Bad-Value", "a\nb"), ("x-ok", "é")]);
    let h = generic_headers(Some("sk-1"), Some(&extra));
    assert_eq!(
        h,
        pairs(&[
            ("content-type", "application/json"),
            ("authorization", "Bearer sk-1"),
            ("X-Trace", "abc"),
            ("x-ok", "é"),
        ])
    );
    let h = generic_headers(Some("bad\u{7f}key"), None);
    assert_eq!(h, pairs(&[("content-type", "application/json")]));
    let h = generic_headers(None, None);
    assert_eq!(h, pairs(&[("content-type", "application/json")]));
}

#[test]
fn mistral_headers_need_a_key() {
    let p = provider("MISTRAL_API_KEY");
    match mistral_headers(&p, None, None) {
        Err(LlmError::MissingApiKey { provider, env_var }) => {
            assert_eq!(provider, "mistral");
            assert_eq!(env_var, "MISTRAL_API_KEY");
        }
        other => panic!("unexpected {:?}", other),
    }
    assert!(matches!(mistral_headers(&p, Some("line\nbreak"), None), Ok(None)));
    let extra = pairs(&[("X-A", "1")]);
    let h = mistral_headers(&p, Some("k"), Some(&extra)).unwrap().unwrap();
    assert_eq!(
        h,
        pairs(&[("content-type", "application/json"), ("authorization", "Bearer k"), ("X-A", "1")])
    );
}

#[test]
fn completion_options_default_is_empty() {
    let o = CompletionOptions::default();
    assert!(o.max_tokens.is_none() && o.tool_choice.is_none() && o.extra_headers.is_none());
    let mut m = HashMap::new();
    m.insert("a".to_string(), "b".to_string());
    let o = CompletionOptions { max_tokens: Some(1), tool_choice: None, extra_headers: Some(m) };
    assert_eq!(o.max_tokens, Some(1));
}

#[test]
fn headers_selected_by_name_flags() {
    let extra = pairs(&[("a", "1"), ("b", "2\n"), ("c", "3"), ("d", "4")]);
    let kept = select_headers(&extra, &vec![true, true, false, true]);
    assert_eq!(kept, pairs(&[("a", "1"), ("d", "4")]));
    assert_eq!(filter_extra_headers(&extra), pairs(&[("a", "1"), ("c", "3"), ("d", "4")]));
    let odd = pairs(&[("bad name", "v"), ("ok", "v")]);
    assert_eq!(filter_extra_headers(&odd), pairs(&[("ok", "v")]));
}

#[test]
fn header_names_follow_the_token_rule() {
    let long_ok = "a".repeat(65535);
    let too_long = "a".repeat(65536);
    let extra = pairs(&[
        ("X-Trace_1.v2", "1"),
        ("", "2"),
        ("é", "3"),
        ("a:b", "4"),
        ("!#$%&'*+-.^_`|~", "5"),
        (long_ok.as_str(), "6"),
        (too_long.as_str(), "7"),
    ]);
    let kept = filter_extra_headers(&extra);
    let names: Vec<&str> = kept.iter().map(|(n, _)| n.as_str()).collect();
    assert_eq!(names, vec!["X-Trace_1.v2", "!#$%&'*+-.^_`|~", long_ok.as_str()]);
}
