use deepomni::deepseek::framing::SseBuffer;
use deepomni::deepseek::models::{
    deepseek_models, requires_reasoning_content, should_replay_reasoning,
};
use deepomni::deepseek::provider::{status_error, transport_error, DeepSeekProvider};
use deepomni::deepseek::request::{build_messages, build_request, role_to_str};
use deepomni::deepseek::stream::{
    parse_sse_line, until_end, SseChoice, SseChunk, SseDelta, SseFunctionDelta,
    SseToolCallDelta, ToolCallState,
};
use deepomni::model::{
    MessageRole, ModelDelta, ModelMessage, ModelProviderError, ModelRequest, ModelToolCall,
    ReasoningReplay,
};
use deepomni::protocol::id::MessageId;
use deepomni::protocol::tool::{ToolSpec, ToolSpecDetails};
use serde_json::Value;

fn chunk(delta: SseDelta, finish_reason: Option<&str>) -> SseChunk {
    SseChunk {
        choices: vec![SseChoice { delta, finish_reason: finish_reason.map(|s| s.to_string()) }],
    }
}

fn nothing() -> SseDelta {
    SseDelta { content: None, reasoning_content: None, tool_calls: None }
}

fn call_delta(index: u32, id: Option<&str>, name: Option<&str>, arguments: &str) -> SseDelta {
    SseDelta {
        tool_calls: Some(vec![SseToolCallDelta {
            index,
            id: id.map(|s| s.to_string()),
            function: Some(SseFunctionDelta {
                name: name.map(|s| s.to_string()),
                arguments: Some(arguments.into()),
            }),
        }]),
        ..nothing()
    }
}

#[test]
fn test_requires_reasoning() {
    assert!(requires_reasoning_content("deepseek-v4-pro"));
    assert!(requires_reasoning_content("deepseek-reasoner"));
    assert!(!requires_reasoning_content("deepseek-v4-flash"));
    assert!(requires_reasoning_content("DeepSeek-V4-PRO"));
    assert_eq!(
        should_replay_reasoning("deepseek-v4-pro"),
        requires_reasoning_content("deepseek-v4-pro")
    );
}

#[test]
fn test_parse_sse_text_delta() {
    let data = r#"{"choices":[{"index":0,"delta":{"content":"hello"},"finish_reason":null}]}"#;
    let parsed = chunk(SseDelta { content: Some("hello".into()), ..nothing() }, None);
    let mut states = Vec::new();
    let deltas = parse_sse_line(data, Some(&parsed), &mut states);
    assert_eq!(deltas.len(), 1);
    match &deltas[0] {
        ModelDelta::Text(text) => assert_eq!(text, "hello"),
        _ => panic!("expected text delta"),
    }
}

#[test]
fn test_parse_sse_reasoning_delta() {
    let data = r#"{"choices":[{"index":0,"delta":{"reasoning_content":"thinking..."},"finish_reason":null}]}"#;
    let parsed =
        chunk(SseDelta { reasoning_content: Some("thinking...".into()), ..nothing() }, None);
    let mut states = Vec::new();
    let deltas = parse_sse_line(data, Some(&parsed), &mut states);
    match &deltas[0] {
        ModelDelta::Reasoning { delta, replay_required } => {
            assert_eq!(delta, "thinking...");
            assert!(*replay_required);
        }
        _ => panic!("expected reasoning delta"),
    }
}

#[test]
fn test_parse_sse_tool_call_stop() {
    let data = r#"{"choices":[{"index":0,"delta":{"tool_calls":[{"index":0,"id":"call_1","function":{"name":"read_file","arguments":"{\"path\":\"/tmp/a\"}"}}]},"finish_reason":"tool_calls"}]}"#;
    let parsed = chunk(
        call_delta(0, Some("call_1"), Some("read_file"), "{\"path\":\"/tmp/a\"}"),
        Some("tool_calls"),
    );
    let mut states = vec![ToolCallState::default()];
    let deltas = parse_sse_line(data, Some(&parsed), &mut states);
    let has_complete = deltas.iter().any(|d| matches!(d, ModelDelta::ToolCallComplete { .. }));
    assert!(has_complete);
}

#[test]
fn the_pieces_of_a_call_are_joined() {
    let mut states = Vec::new();
    parse_sse_line(
        "{}",
        Some(&chunk(call_delta(0, Some("c"), Some("read"), "{\"a\""), None)),
        &mut states,
    );
    parse_sse_line("{}", Some(&chunk(call_delta(0, None, None, ":1}"), None)), &mut states);
    let deltas = parse_sse_line("{}", Some(&chunk(nothing(), Some("tool_calls"))), &mut states);
    match &deltas[0] {
        ModelDelta::ToolCallComplete { call_id, tool_name, arguments } => {
            assert_eq!(call_id, "c");
            assert_eq!(tool_name, "read");
            assert_eq!(*arguments, serde_json::from_str::<Value>("{\"a\":1}").unwrap());
        }
        other => panic!("unexpected delta: {other:?}"),
    }
}

#[test]
fn only_a_stop_ends_the_response() {
    let mut states = Vec::new();
    let stopped = chunk(nothing(), Some("stop"));
    let deltas = parse_sse_line("{}", Some(&stopped), &mut states);
    assert!(matches!(deltas[..], [ModelDelta::End]));
    assert!(parse_sse_line("{}", Some(&chunk(nothing(), None)), &mut states).is_empty());
    assert!(parse_sse_line("[DONE]", Some(&stopped), &mut states).is_empty());
    assert!(parse_sse_line("not json", None, &mut states).is_empty());
}

fn user(content: &str) -> ModelMessage {
    ModelMessage {
        role: MessageRole::User,
        content: Some(content.into()),
        tool_calls: vec![],
        tool_call_id: None,
        reasoning_content: None,
    }
}

fn request(model: &str, messages: Vec<ModelMessage>) -> ModelRequest {
    ModelRequest {
        model: model.into(),
        messages,
        tools: vec![],
        max_output_tokens: None,
        system_prompt: None,
        replay_reasoning: None,
    }
}

#[test]
fn test_build_request_messages() {
    let provider = DeepSeekProvider::new("sk-test".into());
    let request = ModelRequest {
        system_prompt: Some("You are helpful.".into()),
        ..request("deepseek-v4-pro", vec![user("hello")])
    };
    let req = build_request(provider.default_model(), &request).unwrap();
    assert_eq!(req.model, "deepseek-v4-pro");
    assert!(req.stream);
    assert_eq!(req.messages.len(), 2);
    assert_eq!(req.messages[0].role, "system");
}

#[test]
fn calls_and_tools_go_into_the_request() {
    let mut asked = request("deepseek-v4-flash", vec![
        ModelMessage {
            role: MessageRole::Assistant,
            content: None,
            tool_calls: vec![ModelToolCall {
                call_id: "c".into(),
                tool_name: "read".into(),
                arguments: serde_json::from_str("{\"p\": 1}").unwrap(),
            }],
            tool_call_id: None,
            reasoning_content: None,
        },
    ]);
    asked.tools.push(ToolSpec::Function(ToolSpecDetails {
        name: "read".into(),
        description: "reads".into(),
        parameters: Value::Null,
    }));
    asked.max_output_tokens = Some(7);
    let req = build_request("d", &asked).unwrap();
    assert_eq!(req.max_tokens, Some(7));
    let calls = req.messages[0].tool_calls.as_ref().unwrap();
    assert_eq!(calls[0].id, "c");
    assert_eq!(calls[0].arguments, "{\"p\":1}");
    assert_eq!(req.tools.unwrap()[0].name, "read");
    assert_eq!(role_to_str(MessageRole::Tool), "tool");
}

#[test]
fn a_reasoning_model_wants_its_reasoning_back() {
    let call = ModelMessage {
        role: MessageRole::Assistant,
        content: None,
        tool_calls: vec![ModelToolCall {
            call_id: "c".into(),
            tool_name: "read".into(),
            arguments: Value::Null,
        }],
        tool_call_id: None,
        reasoning_content: None,
    };
    let mut asked = request("deepseek-reasoner", vec![call]);
    assert!(build_messages(&asked).is_err());
    asked.replay_reasoning = Some(vec![ReasoningReplay {
        message_id: MessageId::from_string("m"),
        reasoning_content: "because".into(),
    }]);
    let messages = build_messages(&asked).unwrap();
    assert_eq!(messages[0].reasoning_content.as_deref(), Some("because"));
}

#[test]
fn test_deepseek_models() {
    let models = deepseek_models();
    assert!(models.len() >= 2);
    let pro = models.iter().find(|m| m.id == "deepseek-v4-pro").unwrap();
    assert!(pro.supports_reasoning);
    assert!(pro.supports_tools);
}

#[test]
fn chunks_do_not_matter_to_the_lines() {
    let text = "data: a\n\ndata: b\nrest";
    let mut whole = SseBuffer::new();
    let expected = whole.push(text);
    let mut pieces = SseBuffer::new();
    let mut lines = Vec::new();
    for c in text.chars() {
        lines.extend(pieces.push(&c.to_string()));
    }
    assert_eq!(lines, expected);
    assert!(expected.contains(&"b".to_string()));
    assert_eq!(whole.push("\n"), pieces.push("\n"));
}

#[test]
fn failures_of_the_service_are_told_apart() {
    assert!(status_error(200, String::new()).is_ok());
    assert!(matches!(
        status_error(503, "down".into()),
        Err(ModelProviderError::HttpError { status: 503, .. })
    ));
    assert!(matches!(transport_error(true, "t".into()), ModelProviderError::Timeout));
    assert!(matches!(
        transport_error(false, "t".into()),
        ModelProviderError::HttpError { status: 0, body } if body == "t"
    ));
}

#[test]
fn a_provider_knows_where_to_send() {
    let provider = DeepSeekProvider::new("k".into())
        .with_base_url("http://host/v1".into())
        .with_default_model("m".into());
    assert_eq!(provider.provider_name(), "deepseek");
    assert_eq!(provider.default_model(), "m");
    assert_eq!(provider.url(), "http://host/v1/chat/completions");
    assert_eq!(provider.authorization(), "Bearer k");
    assert!(provider.last_usage().is_none());
}

#[test]
fn bytes_that_are_no_text_are_replaced() {
    let mut buffer = SseBuffer::new();
    assert!(buffer.push_bytes("data: gr\u{fc}n".as_bytes()).is_empty());
    assert_eq!(buffer.push_bytes(b"\ndata: a\xffb\n"), vec![
        "gr\u{fc}n".to_string(),
        "a\u{fffd}b".to_string(),
    ]);
}

#[test]
fn nothing_is_told_behind_the_end() {
    let pieces = vec![
        ModelDelta::Text("a".into()),
        ModelDelta::End,
        ModelDelta::Text("b".into()),
        ModelDelta::End,
    ];
    let (told, ended) = until_end(pieces);
    assert!(ended);
    assert_eq!(told.len(), 2);
    assert!(matches!(told[1], ModelDelta::End));
    let (told, ended) = until_end(vec![ModelDelta::Text("a".into())]);
    assert!(!ended);
    assert_eq!(told.len(), 1);
}
