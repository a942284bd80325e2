use open_xiaoai::client::{
    commands_path, find_tts_text, heartbeat_event, instruction_event, is_instruction_text,
    join_url, llm_reply_text, next_poll, normalize_base_url, parse_http_method, register_body,
    select_mode, starts_with, register_body_with_action, tagged_instruction_event, HttpMethod, LlmMode, ModeError, PollStep,
};
use open_xiaoai::data::Response;
use open_xiaoai::json::JsonValue;

fn obj(fields: Vec<(&str, JsonValue)>) -> JsonValue {
    JsonValue::Object(fields.into_iter().map(|(k, v)| (k.to_string(), v)).collect())
}

fn s(t: &str) -> JsonValue {
    JsonValue::Str(t.to_string())
}

#[test]
fn base_url_loses_trailing_slashes() {
    assert_eq!(normalize_base_url("http://host:4399///"), "http://host:4399");
    assert_eq!(normalize_base_url("http://host"), "http://host");
    assert_eq!(normalize_base_url("/"), "");
    assert_eq!(join_url("http://h", "/events"), "http://h/events");
    assert_eq!(commands_path("c1"), "/commands/c1");
}

#[test]
fn http_methods() {
    assert_eq!(parse_http_method("GET", false), Some(HttpMethod::Get));
    assert_eq!(parse_http_method("POST", true), Some(HttpMethod::Post));
    assert_eq!(parse_http_method("PUT", true), Some(HttpMethod::Put));
    assert_eq!(parse_http_method("PUT", false), None);
    assert_eq!(parse_http_method("DELETE", true), Some(HttpMethod::Delete));
    assert_eq!(parse_http_method("get", true), None);
}

#[test]
fn heartbeat_and_instruction_events() {
    let h = heartbeat_event(-1700000000, "c1");
    assert_eq!(h.name, "heartbeat");
    match &h.data {
        JsonValue::Object(f) => match &f[0].1 {
            JsonValue::Number(n) => assert_eq!(n, "-1700000000"),
            _ => panic!("timestamp is not a number"),
        },
        _ => panic!("data is not an object"),
    }
    let e = instruction_event("你好", "c1");
    assert_eq!(e.name, "instruction");
    assert_eq!(e.data.get("text").and_then(|v| v.as_str()), Some(&"你好".to_string()));
    assert_eq!(e.data.get("clientId").and_then(|v| v.as_str()), Some(&"c1".to_string()));
    assert_eq!(register_body("c9").get("clientId").and_then(|v| v.as_str()), Some(&"c9".to_string()));
}

#[test]
fn tts_command_is_found() {
    let cmds = vec![
        Response::new("1", obj(vec![("action", s("noop")), ("text", s("x"))])),
        Response::new("2", obj(vec![("action", s("tts"))])),
        Response::new("3", obj(vec![("action", s("tts")), ("text", s("answer"))])),
    ];
    assert_eq!(find_tts_text(&cmds), Some("answer".to_string()));
    let mut first_two = cmds;
    first_two.pop();
    assert_eq!(find_tts_text(&first_two), None);
}

#[test]
fn poll_steps() {
    let cmds = vec![Response::new("1", obj(vec![("action", s("tts")), ("text", s("hi"))]))];
    assert!(matches!(next_poll(1, Some(&cmds)), PollStep::Done(t) if t == "hi"));
    assert!(matches!(next_poll(1, None), PollStep::Again(2)));
    assert!(matches!(next_poll(30, Some(&Vec::new())), PollStep::GiveUp));
}

#[test]
fn llm_reply_content() {
    let reply = obj(vec![(
        "choices",
        JsonValue::Array(vec![obj(vec![("message", obj(vec![("role", s("assistant")), ("content", s("hello"))]))])]),
    )]);
    assert_eq!(llm_reply_text(&reply), Some("hello".to_string()));
    assert_eq!(llm_reply_text(&obj(vec![("choices", JsonValue::Array(vec![]))])), None);
    assert_eq!(llm_reply_text(&JsonValue::Null), None);
}

#[test]
fn mode_selection() {
    assert_eq!(select_mode("direct", false), Ok(LlmMode::Direct));
    assert_eq!(select_mode("proxy", true), Ok(LlmMode::Proxy));
    assert_eq!(select_mode("proxy", false), Err(ModeError::MissingProxyConfig));
    assert_eq!(select_mode("other", true), Err(ModeError::UnknownMode));
    assert_eq!(
        ModeError::UnknownMode.message("other"),
        "Unknown mode: other. Valid options: 'direct', 'proxy'"
    );
}

#[test]
fn instruction_prefixes() {
    assert!(is_instruction_text("请介绍一下自己"));
    assert!(is_instruction_text("你好"));
    assert!(!is_instruction_text("hello"));
    assert!(!is_instruction_text(""));
    assert!(starts_with("abc", "ab"));
    assert!(!starts_with("a", "ab"));
}

#[test]
fn register_with_action_and_tagged_instruction() {
    let b = register_body_with_action("c1", "register");
    assert_eq!(b.get("action").and_then(|v| v.as_str()), Some(&"register".to_string()));
    let e = tagged_instruction_event("hi");
    assert!(e.id.starts_with("instruction-"));
    assert_eq!(e.id.len(), 48);
    assert_eq!(e.data.get("text").and_then(|v| v.as_str()), Some(&"hi".to_string()));
}
