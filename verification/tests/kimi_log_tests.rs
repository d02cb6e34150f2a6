use vibe_kanban::json::JsonNumber;
use vibe_kanban::kimi::{
    ActionType, KimiContent, KimiContentBlock, KimiFunctionCall, KimiMessage, KimiRole,
    KimiStatusUpdate, KimiToolCall, ParsedKimiEvent,
};
use vibe_kanban::kimi_log::{
    stderr_auth_entry, stderr_plain_entry, EntryMetadata, KimiLogState, LogAction,
    NormalizedEntryError, NormalizedEntryType, SessionIdWait, SessionWaitAction,
};

fn assistant(blocks: Vec<KimiContentBlock>, calls: Vec<KimiToolCall>) -> Option<ParsedKimiEvent> {
    Some(ParsedKimiEvent::Message(KimiMessage {
        role: KimiRole::Assistant,
        content: KimiContent::Blocks(blocks),
        tool_calls: calls,
        tool_call_id: None,
    }))
}

fn think(t: &str) -> KimiContentBlock {
    KimiContentBlock::Think { think: t.to_string(), encrypted: None }
}

fn text(t: &str) -> KimiContentBlock {
    KimiContentBlock::Text { text: t.to_string() }
}

fn call(id: &str, name: &str, args: &str) -> KimiToolCall {
    KimiToolCall {
        call_type: "function".to_string(),
        id: id.to_string(),
        function: KimiFunctionCall { name: name.to_string(), arguments: args.to_string() },
    }
}

fn tool_result(content: &str) -> Option<ParsedKimiEvent> {
    Some(ParsedKimiEvent::Message(KimiMessage {
        role: KimiRole::Tool,
        content: KimiContent::Text(content.to_string()),
        tool_calls: vec![],
        tool_call_id: None,
    }))
}

fn add_of(a: &LogAction) -> (usize, &NormalizedEntryType, &str) {
    match a {
        LogAction::Add { index, entry } => (*index, &entry.entry_type, entry.content.as_str()),
        _ => panic!("expected an add"),
    }
}

#[test]
fn thinking_accumulates_into_one_entry() {
    let mut s = KimiLogState::new(5);
    let a1 = s.step(assistant(vec![think("Hello")], vec![]));
    assert_eq!(a1.len(), 1);
    let (i, t, c) = add_of(&a1[0]);
    assert_eq!(i, 5);
    assert!(matches!(t, NormalizedEntryType::Thinking));
    assert_eq!(c, "Hello");
    let a2 = s.step(assistant(vec![think(", world")], vec![]));
    match &a2[0] {
        LogAction::Replace { index, entry } => {
            assert_eq!(*index, 5);
            assert_eq!(entry.content, "Hello, world");
        }
        _ => panic!("expected a replace"),
    }
    assert_eq!(s.next_index, 6);
}

#[test]
fn text_ends_thinking_and_starts_message() {
    let mut s = KimiLogState::new(0);
    s.step(assistant(vec![think("t")], vec![]));
    let a = s.step(assistant(vec![text("Hi"), text(" there")], vec![]));
    assert_eq!(a.len(), 2);
    let (i, t, c) = add_of(&a[0]);
    assert_eq!((i, c), (1, "Hi"));
    assert!(matches!(t, NormalizedEntryType::AssistantMessage));
    match &a[1] {
        LogAction::Replace { index, entry } => assert_eq!((*index, entry.content.as_str()), (1, "Hi there")),
        _ => panic!("expected a replace"),
    }
    assert!(s.current_thinking.is_none());
    assert_eq!(s.current_message.as_deref(), Some("Hi there"));
}

#[test]
fn long_tool_thinking_is_hidden_when_calls_follow() {
    let mut s = KimiLogState::new(0);
    let long = format!("I will use a tool to read the file {}", "x".repeat(100));
    let a = s.step(assistant(
        vec![think(&long)],
        vec![call("c1", "ReadFile", r#"{"path":"a.rs"}"#)],
    ));
    assert_eq!(a.len(), 1);
    let (i, t, c) = add_of(&a[0]);
    assert_eq!((i, c), (0, "Read a.rs"));
    match t {
        NormalizedEntryType::ToolUse { tool_name, action_type } => {
            assert_eq!(tool_name, "Read a.rs");
            assert!(matches!(action_type, ActionType::FileRead { path } if path == "a.rs"));
        }
        _ => panic!("expected a tool use"),
    }
    match &a[0] {
        LogAction::Add { entry, .. } => match &entry.metadata {
            EntryMetadata::ToolCall { tool_id, tool_name, arguments } => {
                assert_eq!((tool_id.as_str(), tool_name.as_str(), arguments.as_str()), ("c1", "ReadFile", r#"{"path":"a.rs"}"#));
            }
            _ => panic!("expected tool call metadata"),
        },
        _ => unreachable!(),
    }
    assert_eq!(s.pending_tool_calls.len(), 1);
}

#[test]
fn tool_results_use_first_pending_call() {
    let mut s = KimiLogState::new(0);
    let r = s.step(tool_result("out"));
    let (_, t, c) = add_of(&r[0]);
    assert_eq!(c, "out");
    assert!(matches!(t, NormalizedEntryType::ToolUse { tool_name, action_type: ActionType::Other { description } } if tool_name == "Tool" && description == "Tool execution result"));
    s.step(assistant(vec![], vec![call("c1", "Shell", "not json")]));
    let r = s.step(tool_result("done"));
    let (i, t, _) = add_of(&r[0]);
    assert_eq!(i, 2);
    assert!(matches!(t, NormalizedEntryType::ToolUse { tool_name, .. } if tool_name == "Shell tool"));
}

#[test]
fn long_tool_results_are_cut_at_500_bytes() {
    let mut s = KimiLogState::new(0);
    let content = "a".repeat(620);
    let r = s.step(tool_result(&content));
    let (_, _, c) = add_of(&r[0]);
    assert_eq!(c, format!("{}... [120 more chars]", "a".repeat(500)));
}

#[test]
fn turn_end_resets_and_raw_lines_become_system_messages() {
    let mut s = KimiLogState::new(0);
    s.step(assistant(vec![text("a")], vec![]));
    let r = s.step(Some(ParsedKimiEvent::RawLog("TurnEnd".to_string())));
    assert!(r.is_empty());
    assert!(s.current_message.is_none() && s.message_index.is_none());
    let r = s.step(Some(ParsedKimiEvent::RawLog("TurnBegin".to_string())));
    assert!(r.is_empty());
    let r = s.step(Some(ParsedKimiEvent::RawLog("warning: x".to_string())));
    let (i, t, c) = add_of(&r[0]);
    assert_eq!((i, c), (1, "warning: x"));
    assert!(matches!(t, NormalizedEntryType::SystemMessage));
    assert!(s.step(Some(ParsedKimiEvent::RawLog(String::new()))).is_empty());
    let r = s.step(Some(ParsedKimiEvent::RawLog("a".to_string())));
    assert_eq!(add_of(&r[0]).0, 2);
}

#[test]
fn status_updates_take_an_index() {
    let mut s = KimiLogState::new(3);
    let st = KimiStatusUpdate {
        context_usage: Some(JsonNumber { as_i64: None, text: "0.5".to_string() }),
        context_tokens: 10,
        max_context_tokens: 20,
        message_id: String::new(),
        plan_mode: false,
    };
    let r = s.step(Some(ParsedKimiEvent::Status(st)));
    assert!(matches!(&r[0], LogAction::AddStatus { index: 3, status } if status.context_tokens == 10));
    assert_eq!(s.next_index, 4);
    assert!(s.step(None).is_empty());
}

#[test]
fn stderr_login_prompt_is_setup_error() {
    let e = stderr_auth_entry("\u{1b}[31mError: Please login first\u{1b}[0m").unwrap();
    assert_eq!(e.content, "Error: Please login first");
    assert!(matches!(e.entry_type, NormalizedEntryType::ErrorMessage { error_type: NormalizedEntryError::SetupRequired }));
    assert!(stderr_auth_entry("some other error").is_none());
    let p = stderr_plain_entry("\u{1b}[1mboom\u{1b}[0m");
    assert_eq!(p.content, "boom");
    assert!(matches!(p.entry_type, NormalizedEntryType::ErrorMessage { error_type: NormalizedEntryError::Other }));
}

#[test]
fn session_id_is_pushed_once_when_it_appears() {
    let mut w = SessionIdWait::new();
    assert!(w.polling());
    assert!(matches!(w.observe(None), SessionWaitAction::Sleep));
    assert!(matches!(w.observe(None), SessionWaitAction::Sleep));
    match w.observe(Some("vk-1".to_string())) {
        SessionWaitAction::PushSessionId(s) => assert_eq!(s, "vk-1"),
        SessionWaitAction::Sleep => panic!("expected the id to be pushed"),
    }
    assert!(!w.polling());
    assert_eq!(w.polls, 3);
}

#[test]
fn session_wait_gives_up_after_fifty_polls() {
    let mut w = SessionIdWait::new();
    let mut sleeps = 0;
    while w.polling() {
        assert!(matches!(w.observe(None), SessionWaitAction::Sleep));
        sleeps += 1;
    }
    assert_eq!(sleeps, 50);
    assert!(!w.found);
}
