//! The Kimi coding agent: its stream-json line format, how a line is classified,
//! how tool calls are summarised, and how its command line is built.
use vstd::prelude::*;
use crate::json::{
    json_get, json_get_bool, json_get_i64, json_get_number, json_get_str, json_reading, read_json,
    str_eq, JsonNumber, JsonValue,
};
use crate::text::{concat, owned};

verus! {

// ---------------------------------------------------------------------------
// Message types
// ---------------------------------------------------------------------------
/// The author of a role-based message.
pub enum KimiRole {
    Assistant,
    User,
    Tool,
    System,
}

/// One block of message content.
pub enum KimiContentBlock {
    Think { think: String, encrypted: Option<String> },
    Text { text: String },
}

/// A tool invocation requested by the assistant.
pub struct KimiToolCall {
    pub call_type: String,
    pub id: String,
    pub function: KimiFunctionCall,
}

/// The function part of a tool call: its name and its JSON-encoded arguments.
pub struct KimiFunctionCall {
    pub name: String,
    pub arguments: String,
}

/// Message content: either a plain string or a list of blocks.
pub enum KimiContent {
    Text(String),
    Blocks(Vec<KimiContentBlock>),
}

/// A role-based message of Kimi's stream-json output.
pub struct KimiMessage {
    pub role: KimiRole,
    pub content: KimiContent,
    pub tool_calls: Vec<KimiToolCall>,
    pub tool_call_id: Option<String>,
}

/// A context-usage status report. `context_usage` is the reported number (a fraction,
/// kept as the JSON number it was) or `None` when the field is not a number.
pub struct KimiStatusUpdate {
    pub context_usage: Option<JsonNumber>,
    pub context_tokens: i64,
    pub max_context_tokens: i64,
    pub message_id: String,
    pub plan_mode: bool,
}

/// What one output line means.
pub enum ParsedKimiEvent {
    Message(KimiMessage),
    Status(KimiStatusUpdate),
    RawLog(String),
}

/// The content as a list of blocks: a plain string becomes one text block.
pub open spec fn content_blocks(c: KimiContent) -> Seq<KimiContentBlock> {
    match c {
        KimiContent::Text(t) => seq![KimiContentBlock::Text { text: t }],
        KimiContent::Blocks(b) => b@,
    }
}

impl KimiContent {
    /// Converts the content to blocks; a plain string becomes a single text block.
    pub fn into_blocks(self) -> (r: Vec<KimiContentBlock>)
        ensures
            r@ == content_blocks(self),
    {
        match self {
            KimiContent::Text(text) => {
                let mut v = Vec::new();
                v.push(KimiContentBlock::Text { text });
                v
            },
            KimiContent::Blocks(blocks) => blocks,
        }
    }
}

// ---------------------------------------------------------------------------
// Line classification
// ---------------------------------------------------------------------------
/// The text of a `{"Thought": {"text": ...}}` event.
pub open spec fn thought_text(v: JsonValue) -> Option<String> {
    match json_get(v, "Thought"@) {
        Some(t) => json_get_str(t, "text"@),
        None => None,
    }
}

/// The text of a `{"Message": {"text": ...}}` event.
pub open spec fn message_text(v: JsonValue) -> Option<String> {
    match json_get(v, "Message"@) {
        Some(m) => json_get_str(m, "text"@),
        None => None,
    }
}

/// `content[0].content.text` of a tool call object, when it is a string.
pub open spec fn tool_call_argument_text(tc: JsonValue) -> Option<String> {
    match json_get(tc, "content"@) {
        Some(JsonValue::Array(a)) => if a@.len() > 0 {
            match json_get(a@[0], "content"@) {
                Some(c) => json_get_str(c, "text"@),
                None => None,
            }
        } else {
            None
        },
        _ => None,
    }
}

/// The tool call object of a `{"ToolCall": {...}}` event that has both a string
/// `toolCallId` and a string `title`.
pub open spec fn tool_call_object(v: JsonValue) -> Option<JsonValue> {
    match json_get(v, "ToolCall"@) {
        Some(tc) => if json_get_str(tc, "toolCallId"@) is Some && json_get_str(tc, "title"@) is Some {
            Some(tc)
        } else {
            None
        },
        None => None,
    }
}

/// Whether `v` is one of the events that are dropped without output.
pub open spec fn is_ignored_event(v: JsonValue) -> bool {
    ||| json_get(v, "SessionStart"@) is Some
    ||| json_get(v, "User"@) is Some
    ||| json_get(v, "Other"@) is Some
    ||| json_get(v, "ToolUpdate"@) is Some
}

/// `s` is the event that shows `line` as raw output.
pub open spec fn is_raw_log(r: Option<ParsedKimiEvent>, text: Seq<char>) -> bool {
    r matches Some(ParsedKimiEvent::RawLog(s)) && s@ == text
}

/// `m` is an assistant message with exactly the given blocks and nothing else.
pub open spec fn is_assistant_blocks(m: KimiMessage, blocks: Seq<KimiContentBlock>) -> bool {
    &&& m.role is Assistant
    &&& m.content matches KimiContent::Blocks(b) && b@ == blocks
    &&& m.tool_calls@.len() == 0
    &&& m.tool_call_id is None
}

/// `m` is the assistant message that stands for the tool call object `tc`.
pub open spec fn is_tool_call_message(m: KimiMessage, tc: JsonValue) -> bool {
    &&& m.role is Assistant
    &&& m.content matches KimiContent::Text(s) && s@.len() == 0
    &&& m.tool_calls@.len() == 1
    &&& m.tool_calls@[0].call_type@ == "function"@
    &&& Some(m.tool_calls@[0].id) == json_get_str(tc, "toolCallId"@)
    &&& Some(m.tool_calls@[0].function.name) == json_get_str(tc, "title"@)
    &&& m.tool_calls@[0].function.arguments@ == (match tool_call_argument_text(tc) {
        Some(a) => a@,
        None => Seq::<char>::empty(),
    })
    &&& m.tool_call_id is None
}

/// `st` is the status report read from the object `v`.
pub open spec fn is_status_of(st: KimiStatusUpdate, v: JsonValue) -> bool {
    &&& st.context_usage == json_get_number(v, "context_usage"@)
    &&& st.context_tokens == (match json_get_i64(v, "context_tokens"@) {
        Some(n) => n,
        None => 0i64,
    })
    &&& st.max_context_tokens == (match json_get_i64(v, "max_context_tokens"@) {
        Some(n) => n,
        None => 262144i64,
    })
    &&& st.message_id@ == (match json_get_str(v, "message_id"@) {
        Some(s) => s@,
        None => Seq::<char>::empty(),
    })
    &&& st.plan_mode == (match json_get_bool(v, "plan_mode"@) {
        Some(b) => b,
        None => false,
    })
}

/// What a line means, given the line, its reading as a role-based message (if it is one)
/// and its reading as a JSON value (if it is JSON at all).
pub open spec fn is_line_event(
    line: Seq<char>,
    message: Option<KimiMessage>,
    value: Option<JsonValue>,
    r: Option<ParsedKimiEvent>,
) -> bool {
    match message {
        Some(m) => r == Some(ParsedKimiEvent::Message(m)),
        None => match value {
            None => is_raw_log(r, line),
            Some(v) => if thought_text(v) is Some {
                r matches Some(ParsedKimiEvent::Message(m)) && is_assistant_blocks(
                    m,
                    seq![KimiContentBlock::Think { think: thought_text(v)->0, encrypted: None }],
                )
            } else if message_text(v) is Some {
                r matches Some(ParsedKimiEvent::Message(m)) && is_assistant_blocks(
                    m,
                    seq![KimiContentBlock::Text { text: message_text(v)->0 }],
                )
            } else if tool_call_object(v) is Some {
                r matches Some(ParsedKimiEvent::Message(m)) && is_tool_call_message(
                    m,
                    tool_call_object(v)->0,
                )
            } else if json_get(v, "Done"@) is Some {
                is_raw_log(r, "TurnEnd"@)
            } else if is_ignored_event(v) {
                r is None
            } else if json_get(v, "context_usage"@) is Some {
                r matches Some(ParsedKimiEvent::Status(st)) && is_status_of(st, v)
            } else {
                is_raw_log(r, line)
            },
        },
    }
}

fn assistant_message(block: KimiContentBlock) -> (m: KimiMessage)
    ensures
        is_assistant_blocks(m, seq![block]),
{
    let mut blocks = Vec::new();
    blocks.push(block);
    proof {
        assert(blocks@ =~= seq![block]);
    }
    KimiMessage {
        role: KimiRole::Assistant,
        content: KimiContent::Blocks(blocks),
        tool_calls: Vec::new(),
        tool_call_id: None,
    }
}

fn tool_call_argument(tc: &JsonValue) -> (r: String)
    ensures
        r@ == (match tool_call_argument_text(*tc) {
            Some(a) => a@,
            None => Seq::<char>::empty(),
        }),
{
    match tc.get("content") {
        Some(c) => match c.as_array() {
            Some(arr) => if arr.len() > 0 {
                match arr[0].get("content") {
                    Some(inner) => match inner.get_str("text") {
                        Some(s) => s,
                        None => String::new(),
                    },
                    None => String::new(),
                }
            } else {
                String::new()
            },
            None => String::new(),
        },
        None => String::new(),
    }
}

/// Classifies one line of Kimi output, given how it reads as a role-based message
/// (`message`) and as JSON (`value`). A role-based message wins; otherwise the
/// newer event objects are recognised; anything else is raw output.
pub fn classify_kimi_line(
    line: &str,
    message: Option<KimiMessage>,
    value: Option<JsonValue>,
) -> (r: Option<ParsedKimiEvent>)
    ensures
        is_line_event(line@, message, value, r),
{
    if let Some(msg) = message {
        return Some(ParsedKimiEvent::Message(msg));
    }
    if let Some(value) = value {
        if let Some(thought) = value.get("Thought") {
            if let Some(text) = thought.get_str("text") {
                return Some(
                    ParsedKimiEvent::Message(
                        assistant_message(KimiContentBlock::Think { think: text, encrypted: None }),
                    ),
                );
            }
        }
        if let Some(msg) = value.get("Message") {
            if let Some(text) = msg.get_str("text") {
                return Some(
                    ParsedKimiEvent::Message(assistant_message(KimiContentBlock::Text { text })),
                );
            }
        }
        if let Some(tc) = value.get("ToolCall") {
            let id = tc.get_str("toolCallId");
            let title = tc.get_str("title");
            if let (Some(id), Some(title)) = (id, title) {
                let arguments = tool_call_argument(tc);
                let mut tool_calls = Vec::new();
                tool_calls.push(
                    KimiToolCall {
                        call_type: owned("function"),
                        id,
                        function: KimiFunctionCall { name: title, arguments },
                    },
                );
                return Some(
                    ParsedKimiEvent::Message(
                        KimiMessage {
                            role: KimiRole::Assistant,
                            content: KimiContent::Text(String::new()),
                            tool_calls,
                            tool_call_id: None,
                        },
                    ),
                );
            }
        }
        if value.get("Done").is_some() {
            return Some(ParsedKimiEvent::RawLog(owned("TurnEnd")));
        }
        if value.get("SessionStart").is_some() || value.get("User").is_some() || value.get(
            "Other",
        ).is_some() || value.get("ToolUpdate").is_some() {
            return None;
        }
        if value.get("context_usage").is_some() {
            let context_tokens: i64 = match value.get_i64("context_tokens") {
                Some(n) => n,
                None => 0,
            };
            let max_context_tokens: i64 = match value.get_i64("max_context_tokens") {
                Some(n) => n,
                None => 262144,
            };
            let message_id = match value.get_str("message_id") {
                Some(s) => s,
                None => String::new(),
            };
            let plan_mode = match value.get_bool("plan_mode") {
                Some(b) => b,
                None => false,
            };
            return Some(
                ParsedKimiEvent::Status(
                    KimiStatusUpdate {
                        context_usage: value.get_number("context_usage"),
                        context_tokens,
                        max_context_tokens,
                        message_id,
                        plan_mode,
                    },
                ),
            );
        }
    }
    Some(ParsedKimiEvent::RawLog(owned(line)))
}

/// Parses one line of Kimi output, given its reading as a role-based message (`message`,
/// `None` when it is none): a role-based message wins; otherwise the line is read as
/// JSON and the newer event objects are recognised; anything else is raw output.
pub fn parse_kimi_line(line: &str, message: Option<KimiMessage>) -> (r: Option<ParsedKimiEvent>)
    ensures
        is_line_event(
            line@,
            message,
            if message is None {
                json_reading(line@)
            } else {
                None
            },
            r,
        ),
{
    match message {
        Some(m) => classify_kimi_line(line, Some(m), None),
        None => classify_kimi_line(line, None, read_json(line)),
    }
}

// ---------------------------------------------------------------------------
// Tool calls
// ---------------------------------------------------------------------------
/// The action a tool call performs, as shown in the log.
pub enum ActionType {
    FileRead { path: String },
    FileEdit { path: String },
    CommandRun { command: String },
    Search { query: String },
    Tool { tool_name: String, arguments: Option<JsonValue> },
    Other { description: String },
}

/// `args.and_then(|a| a.get(key)).and_then(|v| v.as_str())`.
pub open spec fn arg_str(args: Option<JsonValue>, key: Seq<char>) -> Option<String> {
    match args {
        Some(a) => json_get_str(a, key),
        None => None,
    }
}

/// `"<prefix><value>"` when the value is there.
pub open spec fn prefixed(prefix: Seq<char>, value: Option<String>) -> Option<Seq<char>> {
    match value {
        Some(v) => Some(prefix + v@),
        None => None,
    }
}

/// The fallback summary of a tool call: `"<name> tool"`.
pub open spec fn generic_tool_label(tool_name: Seq<char>) -> Seq<char> {
    tool_name + " tool"@
}

/// The summary of a tool call with the given name and parsed arguments
/// (`None` when the arguments are not JSON).
pub open spec fn tool_display(tool_name: Seq<char>, args: Option<JsonValue>) -> Option<Seq<char>> {
    match args {
        None => Some(generic_tool_label(tool_name)),
        Some(a) => if tool_name == "ReadFile"@ {
            prefixed("Read "@, json_get_str(a, "path"@))
        } else if tool_name == "WriteFile"@ {
            prefixed("Write "@, json_get_str(a, "path"@))
        } else if tool_name == "StrReplaceFile"@ {
            prefixed("Edit "@, json_get_str(a, "path"@))
        } else if tool_name == "Shell"@ {
            prefixed("Shell: "@, json_get_str(a, "command"@))
        } else if tool_name == "Grep"@ {
            prefixed("Search: "@, json_get_str(a, "pattern"@))
        } else if tool_name == "Glob"@ {
            prefixed("Glob: "@, json_get_str(a, "pattern"@))
        } else {
            Some(generic_tool_label(tool_name))
        },
    }
}

/// The views of an optional string.
pub open spec fn opt_view(s: Option<String>) -> Option<Seq<char>> {
    match s {
        Some(x) => Some(x@),
        None => None,
    }
}

/// The text of an optional string, or `default` when there is none.
pub open spec fn str_or(s: Option<String>, default: Seq<char>) -> Seq<char> {
    match s {
        Some(x) => x@,
        None => default,
    }
}

/// The plain view of an action.
pub ghost enum ActionView {
    FileRead(Seq<char>),
    FileEdit(Seq<char>),
    CommandRun(Seq<char>),
    Search(Seq<char>),
    Tool(Seq<char>, Option<JsonValue>),
    Other(Seq<char>),
}

pub open spec fn action_view(a: ActionType) -> ActionView {
    match a {
        ActionType::FileRead { path } => ActionView::FileRead(path@),
        ActionType::FileEdit { path } => ActionView::FileEdit(path@),
        ActionType::CommandRun { command } => ActionView::CommandRun(command@),
        ActionType::Search { query } => ActionView::Search(query@),
        ActionType::Tool { tool_name, arguments } => ActionView::Tool(tool_name@, arguments),
        ActionType::Other { description } => ActionView::Other(description@),
    }
}

/// The action of a tool call with the given name and parsed arguments: reads and edits
/// name their `path` (or "unknown"), shell calls their `command`, searches their
/// `pattern`, and any other tool keeps its name and arguments.
pub open spec fn expected_action(tool_name: Seq<char>, args: Option<JsonValue>) -> ActionView {
    if tool_name == "ReadFile"@ {
        ActionView::FileRead(str_or(arg_str(args, "path"@), "unknown"@))
    } else if tool_name == "WriteFile"@ || tool_name == "StrReplaceFile"@ {
        ActionView::FileEdit(str_or(arg_str(args, "path"@), "unknown"@))
    } else if tool_name == "Shell"@ {
        ActionView::CommandRun(str_or(arg_str(args, "command"@), ""@))
    } else if tool_name == "Grep"@ || tool_name == "Glob"@ {
        ActionView::Search(str_or(arg_str(args, "pattern"@), ""@))
    } else {
        ActionView::Tool(tool_name, args)
    }
}

fn prefixed_field(prefix: &str, args: &JsonValue, key: &str) -> (r: Option<String>)
    ensures
        opt_view(r) == prefixed(prefix@, json_get_str(*args, key@)),
{
    match args.get_str(key) {
        Some(v) => Some(concat(prefix, v.as_str())),
        None => None,
    }
}

/// The summary of a tool call and its arguments read as JSON (`None` when the argument
/// text is not JSON).
pub fn parse_tool_arguments(tool_name: &str, arguments: &str) -> (r: (
    Option<String>,
    Option<JsonValue>,
))
    ensures
        r.1 == json_reading(arguments@),
        opt_view(r.0) == tool_display(tool_name@, json_reading(arguments@)),
{
    summarize_tool_call(tool_name, read_json(arguments))
}

/// The summary of a tool call, with its parsed arguments handed back; `parsed` is the
/// reading of the call's argument text as JSON (`None` when it is not JSON).
pub fn summarize_tool_call(tool_name: &str, parsed: Option<JsonValue>) -> (r: (
    Option<String>,
    Option<JsonValue>,
))
    ensures
        opt_view(r.0) == tool_display(tool_name@, parsed),
        r.1 == parsed,
{
    match parsed {
        Some(args) => {
            let display = if str_eq(tool_name, "ReadFile") {
                prefixed_field("Read ", &args, "path")
            } else if str_eq(tool_name, "WriteFile") {
                prefixed_field("Write ", &args, "path")
            } else if str_eq(tool_name, "StrReplaceFile") {
                prefixed_field("Edit ", &args, "path")
            } else if str_eq(tool_name, "Shell") {
                prefixed_field("Shell: ", &args, "command")
            } else if str_eq(tool_name, "Grep") {
                prefixed_field("Search: ", &args, "pattern")
            } else if str_eq(tool_name, "Glob") {
                prefixed_field("Glob: ", &args, "pattern")
            } else {
                Some(concat(tool_name, " tool"))
            };
            (display, Some(args))
        },
        None => (Some(concat(tool_name, " tool")), None),
    }
}

fn arg_or(args: &Option<JsonValue>, key: &str, default: &str) -> (r: String)
    ensures
        r@ == str_or(arg_str(*args, key@), default@),
{
    match args {
        Some(a) => match a.get_str(key) {
            Some(s) => s,
            None => owned(default),
        },
        None => owned(default),
    }
}

/// The action of a tool call, from its name and parsed arguments.
pub fn parse_action_type(tool_name: &str, args: Option<JsonValue>) -> (r: ActionType)
    ensures
        action_view(r) == expected_action(tool_name@, args),
{
    if str_eq(tool_name, "ReadFile") {
        ActionType::FileRead { path: arg_or(&args, "path", "unknown") }
    } else if str_eq(tool_name, "WriteFile") || str_eq(tool_name, "StrReplaceFile") {
        ActionType::FileEdit { path: arg_or(&args, "path", "unknown") }
    } else if str_eq(tool_name, "Shell") {
        ActionType::CommandRun { command: arg_or(&args, "command", "") }
    } else if str_eq(tool_name, "Grep") || str_eq(tool_name, "Glob") {
        ActionType::Search { query: arg_or(&args, "pattern", "") }
    } else {
        ActionType::Tool { tool_name: owned(tool_name), arguments: args }
    }
}

/// The file tools act on the file their `path` argument names ("unknown" when it is not
/// given): `ReadFile` reads it, while `WriteFile` and `StrReplaceFile` edit it, and none
/// of the three reads as another kind of action. Their summaries name the same path.
pub proof fn law_file_tools_act_on_their_path(args: Option<JsonValue>)
    ensures
        expected_action("ReadFile"@, args) == ActionView::FileRead(
            str_or(arg_str(args, "path"@), "unknown"@),
        ),
        expected_action("WriteFile"@, args) == ActionView::FileEdit(
            str_or(arg_str(args, "path"@), "unknown"@),
        ),
        expected_action("StrReplaceFile"@, args) == ActionView::FileEdit(
            str_or(arg_str(args, "path"@), "unknown"@),
        ),
        args matches Some(a) ==> tool_display("ReadFile"@, args) == prefixed(
            "Read "@,
            json_get_str(a, "path"@),
        ),
        args matches Some(a) ==> tool_display("WriteFile"@, args) == prefixed(
            "Write "@,
            json_get_str(a, "path"@),
        ),
        args matches Some(a) ==> tool_display("StrReplaceFile"@, args) == prefixed(
            "Edit "@,
            json_get_str(a, "path"@),
        ),
{
    reveal_strlit("ReadFile");
    reveal_strlit("WriteFile");
    reveal_strlit("StrReplaceFile");
    assert("WriteFile"@.len() != "ReadFile"@.len());
    assert("StrReplaceFile"@.len() != "ReadFile"@.len());
    assert("StrReplaceFile"@.len() != "WriteFile"@.len());
}

/// The shell tool runs its `command` argument and the search tools search for their
/// `pattern` argument (empty when not given).
pub proof fn law_shell_and_search_tools(args: Option<JsonValue>)
    ensures
        expected_action("Shell"@, args) == ActionView::CommandRun(str_or(arg_str(args, "command"@), ""@)),
        expected_action("Grep"@, args) == ActionView::Search(str_or(arg_str(args, "pattern"@), ""@)),
        expected_action("Glob"@, args) == ActionView::Search(str_or(arg_str(args, "pattern"@), ""@)),
{
    reveal_strlit("ReadFile");
    reveal_strlit("WriteFile");
    reveal_strlit("StrReplaceFile");
    reveal_strlit("Shell");
    reveal_strlit("Grep");
    reveal_strlit("Glob");
    assert("Shell"@.len() != "ReadFile"@.len());
    assert("Shell"@.len() != "WriteFile"@.len());
    assert("Shell"@.len() != "StrReplaceFile"@.len());
    assert("Grep"@ != "Shell"@);
    assert("Glob"@ != "Shell"@);
    assert("Glob"@ != "Grep"@) by {
        assert("Glob"@[1] != "Grep"@[1]);
    }
}

// ---------------------------------------------------------------------------
// The executor
// ---------------------------------------------------------------------------
/// How tool actions are approved.
pub enum PermissionPolicy {
    Auto,
    Supervised,
    Plan,
}

/// The coding agent an executor configuration is for.
pub enum BaseCodingAgent {
    KimiCode,
}

/// An executor configuration: which agent, and the variant, model, agent, reasoning level
/// and permission policy chosen for it.
pub struct ExecutorConfig {
    pub executor: BaseCodingAgent,
    pub variant: Option<String>,
    pub model_id: Option<String>,
    pub agent_id: Option<String>,
    pub reasoning_id: Option<String>,
    pub permission_policy: Option<PermissionPolicy>,
}

/// User overrides of an agent's command: a replacement for the program, parameters to
/// append, and environment variables for the process.
pub struct CmdOverrides {
    pub base_command_override: Option<String>,
    pub additional_params: Option<Vec<String>>,
    pub env: Option<Vec<(String, String)>>,
}

/// The Kimi coding agent's settings. `append_prompt` is text appended to prompts.
pub struct KimiCode {
    pub append_prompt: Option<String>,
    pub model: Option<String>,
    pub yolo: Option<bool>,
    pub thinking: Option<bool>,
    pub cmd: CmdOverrides,
}

/// A command: the program and its parameters.
pub struct CommandSpec {
    pub base: String,
    pub params: Vec<String>,
}

/// The parameters of the Kimi command: print mode with stream-json output, the model when
/// one is set, `--yolo` when asked for, thinking on unless turned off, and the current
/// directory as work directory.
pub open spec fn kimi_params(model: Option<Seq<char>>, yolo: Option<bool>, thinking: Option<bool>) -> Seq<Seq<char>> {
    let base = seq!["--print"@, "--output-format=stream-json"@];
    let with_model = match model {
        Some(m) => base + seq!["--model"@, m],
        None => base,
    };
    let with_yolo = if yolo == Some(true) { with_model.push("--yolo"@) } else { with_model };
    let with_thinking = if thinking == Some(false) {
        with_yolo.push("--no-thinking"@)
    } else {
        with_yolo.push("--thinking"@)
    };
    with_thinking + seq!["--work-dir"@, "."@]
}

/// Kimi's own parameters turn on auto-approval (`--yolo`) exactly when `yolo` is
/// `Some(true)`; they turn thinking off exactly when `thinking` is `Some(false)` and on
/// otherwise; and they hold five parameters, two more with a model and one more with
/// `--yolo`. (A model that is itself one of these flags is left out.)
pub proof fn law_command_flags_follow_settings(
    model: Option<Seq<char>>,
    yolo: Option<bool>,
    thinking: Option<bool>,
)
    requires
        model != Some("--yolo"@),
        model != Some("--thinking"@),
        model != Some("--no-thinking"@),
    ensures
        kimi_params(model, yolo, thinking).contains("--yolo"@) <==> yolo == Some(true),
        kimi_params(model, yolo, thinking).contains("--no-thinking"@) <==> thinking == Some(false),
        kimi_params(model, yolo, thinking).contains("--thinking"@) <==> thinking != Some(false),
        kimi_params(model, yolo, thinking).len() == 5 + (if model is Some {
            2int
        } else {
            0int
        }) + (if yolo == Some(true) {
            1int
        } else {
            0int
        }),
{
    reveal_strlit("--print");
    reveal_strlit("--output-format=stream-json");
    reveal_strlit("--model");
    reveal_strlit("--yolo");
    reveal_strlit("--thinking");
    reveal_strlit("--no-thinking");
    reveal_strlit("--work-dir");
    reveal_strlit(".");
    let p = kimi_params(model, yolo, thinking);
    let flags = seq!["--yolo"@, "--thinking"@, "--no-thinking"@];
    assert forall|i: int, j: int| 0 <= i < p.len() && 0 <= j < 3 && #[trigger] p[i] == #[trigger] flags[j] implies (
        flags[j] == "--yolo"@ ==> yolo == Some(true)) && (flags[j] == "--no-thinking"@ ==> thinking
        == Some(false)) && (flags[j] == "--thinking"@ ==> thinking != Some(false)) by {
        assert("--yolo"@.len() != "--thinking"@.len());
        assert("--yolo"@.len() != "--no-thinking"@.len());
        assert("--thinking"@.len() != "--no-thinking"@.len());
        assert("--print"@.len() != flags[j].len());
        assert("--output-format=stream-json"@.len() != flags[j].len());
        assert("--model"@ != flags[j]) by {
            if flags[j].len() == "--model"@.len() {
                assert("--model"@[2] != flags[j][2]);
            }
        }
        assert("--work-dir"@ != flags[j]) by {
            if flags[j].len() == "--work-dir"@.len() {
                assert("--work-dir"@[2] != flags[j][2]);
            }
        }
        assert("."@.len() != flags[j].len());
    }
    if yolo == Some(true) {
        let k: int = if model is Some { 4 } else { 2 };
        assert(p[k] == "--yolo"@);
    }
    let t: int = p.len() - 3;
    if thinking == Some(false) {
        assert(p[t] == "--no-thinking"@);
    } else {
        assert(p[t] == "--thinking"@);
    }
    assert(flags[0] == "--yolo"@);
    assert(flags[1] == "--thinking"@);
    assert(flags[2] == "--no-thinking"@);
}

/// The views of a list of strings.
pub open spec fn strings_view(v: Seq<String>) -> Seq<Seq<char>> {
    v.map_values(|s: String| s@)
}

/// The program of the command: the override when one is given, else `kimi`.
pub open spec fn command_base(base_override: Option<String>) -> Seq<char> {
    match base_override {
        Some(b) => b@,
        None => "kimi"@,
    }
}

/// The extra parameters an override appends.
pub open spec fn extra_params(extra: Option<Vec<String>>) -> Seq<Seq<char>> {
    match extra {
        Some(p) => strings_view(p@),
        None => Seq::empty(),
    }
}

fn push_str(v: &mut Vec<String>, s: &str)
    ensures
        strings_view(final(v)@) == strings_view(old(v)@).push(s@),
{
    let ghost before = v@;
    v.push(owned(s));
    assert(strings_view(v@) =~= strings_view(before).push(s@));
}

impl KimiCode {
    /// The command that runs Kimi non-interactively, with the user's overrides applied:
    /// a given program replaces `kimi`, and given extra parameters follow Kimi's own.
    pub fn build_command_builder(&self) -> (c: CommandSpec)
        ensures
            c.base@ == command_base(self.cmd.base_command_override),
            strings_view(c.params@) == kimi_params(opt_view(self.model), self.yolo, self.thinking)
                + extra_params(self.cmd.additional_params),
    {
        let mut params: Vec<String> = Vec::new();
        push_str(&mut params, "--print");
        push_str(&mut params, "--output-format=stream-json");
        if let Some(m) = &self.model {
            push_str(&mut params, "--model");
            push_str(&mut params, m.as_str());
        }
        let yolo = match self.yolo {
            Some(y) => y,
            None => false,
        };
        if yolo {
            push_str(&mut params, "--yolo");
        }
        let thinking = match self.thinking {
            Some(t) => t,
            None => true,
        };
        if thinking {
            push_str(&mut params, "--thinking");
        } else {
            push_str(&mut params, "--no-thinking");
        }
        push_str(&mut params, "--work-dir");
        push_str(&mut params, ".");
        assert(strings_view(params@) =~= kimi_params(opt_view(self.model), self.yolo, self.thinking));
        if let Some(extra) = &self.cmd.additional_params {
            let ghost own = strings_view(params@);
            let mut i: usize = 0;
            while i < extra.len()
                invariant
                    i <= extra.len(),
                    strings_view(params@) == own + strings_view(extra@.take(i as int)),
                decreases extra.len() - i,
            {
                proof {
                    assert(extra@.take(i + 1) =~= extra@.take(i as int).push(extra@[i as int]));
                    assert(strings_view(extra@.take(i + 1)) =~= strings_view(extra@.take(i as int)).push(
                        extra@[i as int]@,
                    ));
                }
                push_str(&mut params, extra[i].as_str());
                assert(strings_view(params@) =~= own + strings_view(extra@.take(i + 1)));
                i = i + 1;
            }
            assert(extra@.take(extra.len() as int) =~= extra@);
        } else {
            assert(strings_view(params@) =~= strings_view(params@) + extra_params(self.cmd.additional_params));
        }
        let base = match &self.cmd.base_command_override {
            Some(b) => b.clone(),
            None => owned("kimi"),
        };
        CommandSpec { base, params }
    }

    /// The prompt sent to Kimi: the user's prompt followed by the configured text to
    /// append, if any.
    pub fn combined_prompt(&self, prompt: &str) -> (r: String)
        ensures
            r@ == prompt@ + (match self.append_prompt {
                Some(a) => a@,
                None => Seq::<char>::empty(),
            }),
    {
        match &self.append_prompt {
            Some(a) => concat(prompt, a.as_str()),
            None => {
                let r = owned(prompt);
                assert(r@ =~= prompt@ + Seq::<char>::empty());
                r
            },
        }
    }

    /// Takes the model and the permission policy of an executor configuration: a given
    /// model id becomes the model, and a given policy turns `yolo` on exactly when it is
    /// `Auto`.
    pub fn apply_overrides(&mut self, config: &ExecutorConfig)
        ensures
            final(self).model == (match config.model_id {
                Some(m) => Some(m),
                None => old(self).model,
            }),
            final(self).yolo == (match config.permission_policy {
                Some(p) => Some(p is Auto),
                None => old(self).yolo,
            }),
            final(self).thinking == old(self).thinking,
            final(self).append_prompt == old(self).append_prompt,
            final(self).cmd == old(self).cmd,
    {
        if let Some(m) = &config.model_id {
            self.model = Some(m.clone());
        }
        if let Some(p) = &config.permission_policy {
            self.yolo = Some(
                match p {
                    PermissionPolicy::Auto => true,
                    _ => false,
                },
            );
        }
    }

    /// The configuration this executor offers: Kimi with its model, no variant, agent or
    /// reasoning level, and the `Auto` policy whatever `yolo` says (print mode cannot ask
    /// for approvals).
    pub fn get_preset_options(&self) -> (c: ExecutorConfig)
        ensures
            c.executor is KimiCode,
            c.variant is None,
            c.model_id == self.model,
            c.agent_id is None,
            c.reasoning_id is None,
            c.permission_policy == Some(PermissionPolicy::Auto),
    {
        ExecutorConfig {
            executor: BaseCodingAgent::KimiCode,
            variant: None,
            model_id: crate::kanban::clone_opt(&self.model),
            agent_id: None,
            reasoning_id: None,
            permission_policy: Some(PermissionPolicy::Auto),
        }
    }

    /// Kimi's MCP configuration file under the home directory, if there is one.
    pub fn default_mcp_config_path(home: Option<&str>) -> (r: Option<String>)
        ensures
            opt_view(r) == (match home {
                Some(h) => Some(crate::config::path_join(
                    crate::config::path_join(h@, ".kimi"@),
                    "config.toml"@,
                )),
                None => None,
            }),
    {
        proof {
            reveal_strlit(".kimi");
            reveal_strlit("config.toml");
        }
        match home {
            Some(h) => {
                let dir = crate::config::join_path(h, ".kimi");
                Some(crate::config::join_path(dir.as_str(), "config.toml"))
            },
            None => None,
        }
    }
}

/// The session id made from a UUID's text: `vk-` followed by the text without hyphens.
pub open spec fn session_id_of(uuid_text: Seq<char>) -> Seq<char> {
    "vk-"@ + uuid_text.filter(|c: char| c != '-')
}

/// The session id made from a UUID's text.
pub fn kimi_session_id(uuid_text: &str) -> (r: String)
    ensures
        r@ == session_id_of(uuid_text@),
{
    let v = crate::text::chars_of(uuid_text);
    let ghost pred = |c: char| c != '-';
    let mut r = owned("vk-");
    let mut i: usize = 0;
    proof {
        reveal_with_fuel(Seq::<_>::filter, 1);
        assert(v@.take(0) =~= Seq::<char>::empty());
        assert(r@ =~= "vk-"@ + v@.take(0).filter(pred));
    }
    while i < v.len()
        invariant
            i <= v.len(),
            v@ == uuid_text@,
            pred == (|c: char| c != '-'),
            r@ == "vk-"@ + v@.take(i as int).filter(pred),
        decreases v.len() - i,
    {
        proof {
            reveal_with_fuel(Seq::<_>::filter, 1);
            assert(v@.take(i + 1).drop_last() =~= v@.take(i as int));
            assert(v@.take(i + 1).last() == v@[i as int]);
        }
        if v[i] != '-' {
            crate::text::string_push(&mut r, v[i]);
        }
        i = i + 1;
    }
    assert(v@.take(v.len() as int) =~= v@);
    r
}

/// A reasoning level a model offers.
pub struct ReasoningOption {
    pub id: String,
    pub name: String,
}

/// A model Kimi offers: its id and name, the provider it comes through, and its
/// reasoning levels.
pub struct ModelInfo {
    pub id: String,
    pub name: String,
    pub provider_id: Option<String>,
    pub reasoning_options: Vec<ReasoningOption>,
}

/// What Kimi offers to choose from: one model, which is the default, and only the
/// `Auto` permission policy.
pub struct KimiModelSelector {
    pub models: Vec<ModelInfo>,
    pub default_model: Option<String>,
    pub permissions: Vec<PermissionPolicy>,
}

/// The options Kimi offers.
pub fn discover_options() -> (r: KimiModelSelector)
    ensures
        r.models@.len() == 1,
        r.models@[0].id@ == "kimi-code/kimi-for-coding"@,
        r.models@[0].name@ == "Kimi for Coding"@,
        r.models@[0].provider_id is None,
        r.models@[0].reasoning_options@.len() == 0,
        opt_view(r.default_model) == Some("kimi-code/kimi-for-coding"@),
        r.permissions@ == seq![PermissionPolicy::Auto],
{
    let mut models = Vec::new();
    models.push(
        ModelInfo {
            id: owned("kimi-code/kimi-for-coding"),
            name: owned("Kimi for Coding"),
            provider_id: None,
            reasoning_options: Vec::new(),
        },
    );
    let mut permissions = Vec::new();
    permissions.push(PermissionPolicy::Auto);
    assert(permissions@ =~= seq![PermissionPolicy::Auto]);
    KimiModelSelector {
        models,
        default_model: Some(owned("kimi-code/kimi-for-coding")),
        permissions,
    }
}

} // verus!
