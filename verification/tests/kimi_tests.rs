use vibe_kanban::json::{JsonNumber, JsonValue};
use vibe_kanban::kimi::{
    classify_kimi_line, discover_options, kimi_session_id, parse_action_type, parse_kimi_line,
    parse_tool_arguments, summarize_tool_call, ActionType, BaseCodingAgent, CmdOverrides, ExecutorConfig, KimiCode,
    KimiContent, KimiContentBlock, KimiMessage, KimiRole, ParsedKimiEvent, PermissionPolicy,
};

fn no_overrides() -> CmdOverrides {
    CmdOverrides { base_command_override: None, additional_params: None, env: None }
}

fn config(model_id: Option<&str>, policy: Option<PermissionPolicy>) -> ExecutorConfig {
    ExecutorConfig {
        executor: BaseCodingAgent::KimiCode,
        variant: None,
        model_id: model_id.map(|m| m.to_string()),
        agent_id: None,
        reasoning_id: None,
        permission_policy: policy,
    }
}

fn to_json(v: &serde_json::Value) -> JsonValue {
    match v {
        serde_json::Value::Null => JsonValue::Null,
        serde_json::Value::Bool(b) => JsonValue::Bool(*b),
        serde_json::Value::Number(n) => JsonValue::Number(JsonNumber {
            as_i64: n.as_i64(),
            text: n.to_string(),
        }),
        serde_json::Value::String(s) => JsonValue::Str(s.clone()),
        serde_json::Value::Array(a) => JsonValue::Array(a.iter().map(to_json).collect()),
        serde_json::Value::Object(o) => {
            JsonValue::Object(o.iter().map(|(k, v)| (k.clone(), to_json(v))).collect())
        }
    }
}

fn parse(line: &str) -> Option<JsonValue> {
    serde_json::from_str::<serde_json::Value>(line).ok().map(|v| to_json(&v))
}

fn text_message(role: KimiRole, blocks: Vec<KimiContentBlock>) -> KimiMessage {
    KimiMessage {
        role,
        content: KimiContent::Blocks(blocks),
        tool_calls: vec![],
        tool_call_id: None,
    }
}

#[test]
fn test_kimi_code_default() {
    let kimi = KimiCode {
        append_prompt: None,
        model: None,
        yolo: None,
        thinking: None,
        cmd: no_overrides(),
    };

    assert!(kimi.thinking.is_none());
    assert!(kimi.yolo.is_none());
}

#[test]
fn test_kimi_code_command_builder() {
    let kimi = KimiCode {
        append_prompt: None,
        model: Some("kimi-for-coding".to_string()),
        yolo: Some(true),
        thinking: Some(false),
        cmd: no_overrides(),
    };

    let cmd = kimi.build_command_builder();
    let cmd_str = format!("{} {}", cmd.base, cmd.params.join(" "));
    assert!(cmd_str.contains("kimi"));
    assert!(cmd_str.contains("--print"));
    assert!(cmd_str.contains("--output-format=stream-json"));
    assert!(cmd_str.contains("--model"));
    assert!(cmd_str.contains("kimi-for-coding"));
    assert!(cmd_str.contains("--yolo"));
    assert!(cmd_str.contains("--no-thinking"));
    assert!(!cmd_str.contains("acp")); // No longer using ACP mode
}

#[test]
fn test_kimi_json_parsing() {
    // The role-based assistant message
    // {"role":"assistant","content":[{"type":"text","text":"Hello world"}]}
    let json_line = r#"{"role":"assistant","content":[{"type":"text","text":"Hello world"}]}"#;
    let msg = text_message(
        KimiRole::Assistant,
        vec![KimiContentBlock::Text { text: "Hello world".to_string() }],
    );
    assert!(matches!(msg.role, KimiRole::Assistant));
    let blocks = msg.content.into_blocks();
    assert_eq!(blocks.len(), 1);
    match &blocks[0] {
        KimiContentBlock::Text { text } => assert_eq!(text, "Hello world"),
        _ => panic!("Expected Text block"),
    }

    // The thinking form
    let msg_think = text_message(
        KimiRole::Assistant,
        vec![KimiContentBlock::Think { think: "Let me think about this".to_string(), encrypted: None }],
    );
    assert!(matches!(msg_think.role, KimiRole::Assistant));
    let blocks_think = msg_think.content.into_blocks();
    match &blocks_think[0] {
        KimiContentBlock::Think { think, .. } => assert_eq!(think, "Let me think about this"),
        _ => panic!("Expected Think block"),
    }

    // A tool result with string content
    let msg_tool_str = KimiMessage {
        role: KimiRole::Tool,
        content: KimiContent::Text("Tool output as string".to_string()),
        tool_calls: vec![],
        tool_call_id: Some("tool_123".to_string()),
    };
    assert!(matches!(msg_tool_str.role, KimiRole::Tool));
    match msg_tool_str.content {
        KimiContent::Text(text) => assert_eq!(text, "Tool output as string"),
        _ => panic!("Expected Text content for tool result"),
    }
    assert_eq!(msg_tool_str.tool_call_id, Some("tool_123".to_string()));

    // A tool result with array content
    let msg_tool_arr = text_message(
        KimiRole::Tool,
        vec![KimiContentBlock::Text { text: "Tool output here".to_string() }],
    );
    assert!(matches!(msg_tool_arr.role, KimiRole::Tool));

    // The line as a whole is a message event
    let parsed_msg = text_message(
        KimiRole::Assistant,
        vec![KimiContentBlock::Text { text: "Hello world".to_string() }],
    );
    let event = parse_kimi_line(json_line, Some(parsed_msg)).unwrap();
    assert!(matches!(classify_kimi_line(json_line, None, None), Some(ParsedKimiEvent::RawLog(t)) if t == json_line));
    match event {
        ParsedKimiEvent::Message(msg) => assert!(matches!(msg.role, KimiRole::Assistant)),
        _ => panic!("Expected Message event"),
    }
}

#[test]
fn into_blocks_wraps_plain_text() {
    let blocks = KimiContent::Text("hi".to_string()).into_blocks();
    assert_eq!(blocks.len(), 1);
    assert!(matches!(&blocks[0], KimiContentBlock::Text { text } if text == "hi"));
}

#[test]
fn classify_thought_event() {
    let line = r#"{"Thought": {"type": "text", "text": "pondering"}}"#;
    match parse_kimi_line(line, None) {
        Some(ParsedKimiEvent::Message(m)) => {
            assert!(matches!(m.role, KimiRole::Assistant));
            match m.content {
                KimiContent::Blocks(b) => {
                    assert_eq!(b.len(), 1);
                    assert!(matches!(&b[0], KimiContentBlock::Think { think, encrypted: None } if think == "pondering"));
                }
                _ => panic!("expected blocks"),
            }
        }
        _ => panic!("expected a message"),
    }
}

#[test]
fn classify_message_event() {
    let line = r#"{"Message": {"type": "text", "text": "answer"}}"#;
    match parse_kimi_line(line, None) {
        Some(ParsedKimiEvent::Message(m)) => match m.content {
            KimiContent::Blocks(b) => {
                assert!(matches!(&b[0], KimiContentBlock::Text { text } if text == "answer"))
            }
            _ => panic!("expected blocks"),
        },
        _ => panic!("expected a message"),
    }
}

#[test]
fn classify_tool_call_event() {
    let line = r#"{"ToolCall": {"toolCallId": "c1", "title": "ReadFile", "content": [{"content": {"text": "{\"path\": \"a.rs\"}"}}]}}"#;
    match parse_kimi_line(line, None) {
        Some(ParsedKimiEvent::Message(m)) => {
            assert!(matches!(&m.content, KimiContent::Text(t) if t.is_empty()));
            assert_eq!(m.tool_calls.len(), 1);
            assert_eq!(m.tool_calls[0].call_type, "function");
            assert_eq!(m.tool_calls[0].id, "c1");
            assert_eq!(m.tool_calls[0].function.name, "ReadFile");
            assert_eq!(m.tool_calls[0].function.arguments, "{\"path\": \"a.rs\"}");
        }
        _ => panic!("expected a message"),
    }
    // Without content the arguments are empty.
    let line = r#"{"ToolCall": {"toolCallId": "c2", "title": "Shell"}}"#;
    match parse_kimi_line(line, None) {
        Some(ParsedKimiEvent::Message(m)) => assert_eq!(m.tool_calls[0].function.arguments, ""),
        _ => panic!("expected a message"),
    }
}

#[test]
fn classify_done_and_ignored_events() {
    let line = r#"{"Done": "ok"}"#;
    assert!(matches!(parse_kimi_line(line, None), Some(ParsedKimiEvent::RawLog(t)) if t == "TurnEnd"));
    for line in [
        r#"{"SessionStart": "x"}"#,
        r#"{"User": "x"}"#,
        r#"{"Other": {}}"#,
        r#"{"ToolUpdate": {}}"#,
    ] {
        assert!(parse_kimi_line(line, None).is_none());
    }
}

#[test]
fn classify_status_event() {
    let line = r#"{"context_usage": 0.25, "context_tokens": 1000, "message_id": "m1"}"#;
    match parse_kimi_line(line, None) {
        Some(ParsedKimiEvent::Status(st)) => {
            assert_eq!(st.context_usage.as_ref().map(|n| n.text.clone()), Some("0.25".to_string()));
            assert_eq!(st.context_tokens, 1000);
            assert_eq!(st.max_context_tokens, 262144);
            assert_eq!(st.message_id, "m1");
            assert!(!st.plan_mode);
        }
        _ => panic!("expected a status"),
    }
}

#[test]
fn classify_raw_lines() {
    let line = "StatusUpdate(context=0.5)";
    assert!(matches!(parse_kimi_line(line, None), Some(ParsedKimiEvent::RawLog(t)) if t == line));
    let line = r#"{"unknown": 1}"#;
    assert!(matches!(parse_kimi_line(line, None), Some(ParsedKimiEvent::RawLog(t)) if t == line));
}

#[test]
fn tool_argument_summaries() {
    let (d, back) = parse_tool_arguments("ReadFile", r#"{"path": "src/main.rs"}"#);
    assert_eq!(d.as_deref(), Some("Read src/main.rs"));
    assert!(matches!(back, Some(JsonValue::Object(m)) if m.len() == 1 && m[0].0 == "path"));
    let (d, _) = parse_tool_arguments("Shell", r#"{"command": "ls"}"#);
    assert_eq!(d.as_deref(), Some("Shell: ls"));
    let (d, _) = parse_tool_arguments("Grep", r#"{"pattern": "fn"}"#);
    assert_eq!(d.as_deref(), Some("Search: fn"));
    let (d, _) = parse_tool_arguments("Glob", r#"{"pattern": "*.rs"}"#);
    assert_eq!(d.as_deref(), Some("Glob: *.rs"));
    let (d, _) = parse_tool_arguments("WriteFile", r#"{"path": "x"}"#);
    assert_eq!(d.as_deref(), Some("Write x"));
    let (d, _) = parse_tool_arguments("StrReplaceFile", r#"{"path": "y"}"#);
    assert_eq!(d.as_deref(), Some("Edit y"));
    let (d, _) = parse_tool_arguments("Fetch", r#"{"url": "u"}"#);
    assert_eq!(d.as_deref(), Some("Fetch tool"));
    let (d, back) = parse_tool_arguments("ReadFile", "not json");
    assert_eq!(d.as_deref(), Some("ReadFile tool"));
    assert!(back.is_none());
    let (d, _) = parse_tool_arguments("ReadFile", r#"{"file": "x"}"#);
    assert_eq!(d, None);
    let (d, back) = summarize_tool_call("Shell", parse(r#"{"command": "pwd"}"#));
    assert_eq!(d.as_deref(), Some("Shell: pwd"));
    assert!(back.is_some());
}

#[test]
fn tool_action_types() {
    assert!(matches!(parse_action_type("ReadFile", parse(r#"{"path": "a"}"#)), ActionType::FileRead { path } if path == "a"));
    assert!(matches!(parse_action_type("ReadFile", None), ActionType::FileRead { path } if path == "unknown"));
    assert!(matches!(parse_action_type("StrReplaceFile", parse(r#"{"path": "b"}"#)), ActionType::FileEdit { path } if path == "b"));
    assert!(matches!(parse_action_type("Shell", None), ActionType::CommandRun { command } if command.is_empty()));
    assert!(matches!(parse_action_type("Glob", parse(r#"{"pattern": "*"}"#)), ActionType::Search { query } if query == "*"));
    match parse_action_type("Fetch", parse(r#"{"url": "u"}"#)) {
        ActionType::Tool { tool_name, arguments } => {
            assert_eq!(tool_name, "Fetch");
            assert!(arguments.is_some());
        }
        _ => panic!("expected a generic tool"),
    }
}

#[test]
fn command_defaults_to_thinking() {
    let kimi = KimiCode { append_prompt: None, model: None, yolo: None, thinking: None, cmd: no_overrides() };
    let cmd = kimi.build_command_builder();
    assert_eq!(cmd.base, "kimi");
    assert_eq!(
        cmd.params,
        vec!["--print", "--output-format=stream-json", "--thinking", "--work-dir", "."]
    );
}

#[test]
fn overrides_and_presets() {
    let mut kimi = KimiCode { append_prompt: None, model: None, yolo: None, thinking: None, cmd: no_overrides() };
    kimi.apply_overrides(&config(Some("m"), Some(PermissionPolicy::Supervised)));
    assert_eq!(kimi.model.as_deref(), Some("m"));
    assert_eq!(kimi.yolo, Some(false));
    kimi.apply_overrides(&config(None, Some(PermissionPolicy::Auto)));
    assert_eq!(kimi.model.as_deref(), Some("m"));
    assert_eq!(kimi.yolo, Some(true));
    let preset = kimi.get_preset_options();
    assert_eq!(preset.model_id.as_deref(), Some("m"));
    assert!(matches!(preset.permission_policy, Some(PermissionPolicy::Auto)));
    assert!(matches!(preset.executor, BaseCodingAgent::KimiCode));
    assert!(preset.variant.is_none() && preset.agent_id.is_none() && preset.reasoning_id.is_none());
    kimi.yolo = Some(false);
    assert!(matches!(kimi.get_preset_options().permission_policy, Some(PermissionPolicy::Auto)));
    assert_eq!(
        KimiCode::default_mcp_config_path(Some("/home/u")).as_deref(),
        Some("/home/u/.kimi/config.toml")
    );
    assert_eq!(KimiCode::default_mcp_config_path(None), None);
}

#[test]
fn session_ids_drop_hyphens() {
    assert_eq!(
        kimi_session_id("550e8400-e29b-41d4-a716-446655440000"),
        "vk-550e8400e29b41d4a716446655440000"
    );
    let opts = discover_options();
    assert_eq!(opts.models[0].id, "kimi-code/kimi-for-coding");
    assert_eq!(opts.default_model.as_deref(), Some("kimi-code/kimi-for-coding"));
    assert_eq!(opts.models.len(), 1);
    assert!(opts.models[0].provider_id.is_none());
    assert!(opts.models[0].reasoning_options.is_empty());
    assert_eq!(opts.permissions.len(), 1);
}

#[test]
fn command_overrides_replace_program_and_append_params() {
    let kimi = KimiCode {
        append_prompt: None,
        model: None,
        yolo: Some(true),
        thinking: None,
        cmd: CmdOverrides {
            base_command_override: Some("/opt/kimi/bin/kimi".to_string()),
            additional_params: Some(vec!["--verbose".to_string(), "--max-steps=5".to_string()]),
            env: None,
        },
    };
    let cmd = kimi.build_command_builder();
    assert_eq!(cmd.base, "/opt/kimi/bin/kimi");
    assert_eq!(
        cmd.params,
        vec![
            "--print",
            "--output-format=stream-json",
            "--yolo",
            "--thinking",
            "--work-dir",
            ".",
            "--verbose",
            "--max-steps=5"
        ]
    );
}

#[test]
fn prompt_is_followed_by_appended_text() {
    let mut kimi = KimiCode { append_prompt: None, model: None, yolo: None, thinking: None, cmd: no_overrides() };
    assert_eq!(kimi.combined_prompt("Fix it"), "Fix it");
    kimi.append_prompt = Some("\nBe brief.".to_string());
    assert_eq!(kimi.combined_prompt("Fix it"), "Fix it\nBe brief.");
}

