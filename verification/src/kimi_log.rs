//! Turning Kimi's output into normalized conversation entries.
//!
//! The stdout side is a state machine: each classified line is one event, and a step
//! yields the entry patches to push (add an entry at an index, or replace the entry at
//! an index). Consecutive thinking blocks, and consecutive text blocks, accumulate into
//! one entry that is replaced as it grows.
use vstd::prelude::*;
use vstd::utf8::{decode_utf8, encode_utf8, encode_utf8_decode_utf8};
use crate::json::{json_reading, str_eq, JsonValue};
use crate::kimi::{
    action_view, expected_action, generic_tool_label, opt_view, parse_action_type, parse_tool_arguments, tool_display,
    ActionType, ActionView, KimiContent, KimiContentBlock, KimiMessage, KimiRole, KimiStatusUpdate,
    KimiToolCall, ParsedKimiEvent,
};
use crate::text::{
    concat, contains, decimal, has_prefix, owned, seq_contains, starts_with, usize_to_decimal,
};

verus! {

// ---------------------------------------------------------------------------
// Entries and patches
// ---------------------------------------------------------------------------
/// The kind of an error entry.
pub enum NormalizedEntryError {
    Other,
    SetupRequired,
}

/// What kind of entry a normalized entry is. Tool entries always carry the success status.
pub enum NormalizedEntryType {
    Thinking,
    AssistantMessage,
    SystemMessage,
    ErrorMessage { error_type: NormalizedEntryError },
    ToolUse { tool_name: String, action_type: ActionType },
}

/// The metadata attached to an entry.
pub enum EntryMetadata {
    Empty,
    /// `{"tool_id", "tool_name", "arguments"}` of a tool call.
    ToolCall { tool_id: String, tool_name: String, arguments: String },
    /// `{"is_result": true}` of a tool result.
    ToolResult,
}

/// One entry of the normalized conversation.
pub struct NormalizedEntry {
    pub entry_type: NormalizedEntryType,
    pub content: String,
    pub metadata: EntryMetadata,
}

/// A patch to the conversation.
pub enum LogAction {
    /// Add `entry` at `index`.
    Add { index: usize, entry: NormalizedEntry },
    /// Replace the entry at `index` with `entry`.
    Replace { index: usize, entry: NormalizedEntry },
    /// Add a system entry at `index` that reports the context usage in `status`.
    AddStatus { index: usize, status: KimiStatusUpdate },
}

/// A tool call that was shown and may be matched with a later result.
pub struct PendingToolCall {
    pub id: String,
    pub summary: String,
    pub index: usize,
}

/// The state kept between stdout lines.
pub struct KimiLogState {
    /// The next free entry index.
    pub next_index: usize,
    pub current_thinking: Option<String>,
    pub thinking_index: Option<usize>,
    pub current_message: Option<String>,
    pub message_index: Option<usize>,
    /// Tool calls shown so far, in the order of their first appearance, one per id.
    pub pending_tool_calls: Vec<PendingToolCall>,
}

// ---------------------------------------------------------------------------
// Views
// ---------------------------------------------------------------------------
pub ghost enum KindView {
    Thinking,
    AssistantMessage,
    SystemMessage,
    ErrorMessage(NormalizedEntryError),
    ToolUse(Seq<char>, ActionView),
}

pub ghost enum MetaView {
    Empty,
    ToolCall(Seq<char>, Seq<char>, Seq<char>),
    ToolResult,
}

#[verifier::ext_equal]
pub ghost struct EntryView {
    pub kind: KindView,
    pub content: Seq<char>,
    pub metadata: MetaView,
}

pub ghost enum ActionItemView {
    Add(nat, EntryView),
    Replace(nat, EntryView),
    AddStatus(nat, KimiStatusUpdate),
}

#[verifier::ext_equal]
pub ghost struct PendingView {
    pub id: Seq<char>,
    pub summary: Seq<char>,
    pub index: nat,
}

#[verifier::ext_equal]
pub ghost struct LogView {
    pub next: nat,
    pub thinking: Option<Seq<char>>,
    pub thinking_index: Option<nat>,
    pub message: Option<Seq<char>>,
    pub message_index: Option<nat>,
    pub pending: Seq<PendingView>,
}

pub open spec fn kind_view(k: NormalizedEntryType) -> KindView {
    match k {
        NormalizedEntryType::Thinking => KindView::Thinking,
        NormalizedEntryType::AssistantMessage => KindView::AssistantMessage,
        NormalizedEntryType::SystemMessage => KindView::SystemMessage,
        NormalizedEntryType::ErrorMessage { error_type } => KindView::ErrorMessage(error_type),
        NormalizedEntryType::ToolUse { tool_name, action_type } => KindView::ToolUse(
            tool_name@,
            action_view(action_type),
        ),
    }
}

pub open spec fn meta_view(m: EntryMetadata) -> MetaView {
    match m {
        EntryMetadata::Empty => MetaView::Empty,
        EntryMetadata::ToolCall { tool_id, tool_name, arguments } => MetaView::ToolCall(
            tool_id@,
            tool_name@,
            arguments@,
        ),
        EntryMetadata::ToolResult => MetaView::ToolResult,
    }
}

pub open spec fn entry_view(e: NormalizedEntry) -> EntryView {
    EntryView { kind: kind_view(e.entry_type), content: e.content@, metadata: meta_view(e.metadata) }
}

pub open spec fn log_action_view(a: LogAction) -> ActionItemView {
    match a {
        LogAction::Add { index, entry } => ActionItemView::Add(index as nat, entry_view(entry)),
        LogAction::Replace { index, entry } => ActionItemView::Replace(
            index as nat,
            entry_view(entry),
        ),
        LogAction::AddStatus { index, status } => ActionItemView::AddStatus(index as nat, status),
    }
}

pub open spec fn actions_view(acts: Seq<LogAction>) -> Seq<ActionItemView> {
    acts.map_values(|a: LogAction| log_action_view(a))
}

pub open spec fn opt_index(i: Option<usize>) -> Option<nat> {
    match i {
        Some(x) => Some(x as nat),
        None => None,
    }
}

pub open spec fn pending_view(p: PendingToolCall) -> PendingView {
    PendingView { id: p.id@, summary: p.summary@, index: p.index as nat }
}

impl View for KimiLogState {
    type V = LogView;

    open spec fn view(&self) -> LogView {
        LogView {
            next: self.next_index as nat,
            thinking: opt_view(self.current_thinking),
            thinking_index: opt_index(self.thinking_index),
            message: opt_view(self.current_message),
            message_index: opt_index(self.message_index),
            pending: self.pending_tool_calls@.map_values(|p: PendingToolCall| pending_view(p)),
        }
    }
}

// ---------------------------------------------------------------------------
// The specification of one step
// ---------------------------------------------------------------------------
/// A state is well formed when a running entry always has its index, thinking and
/// message never run at once, every index in use is below the next free one, and the
/// pending tool calls have distinct ids.
pub open spec fn log_wf(s: LogView) -> bool {
    &&& (s.thinking is Some <==> s.thinking_index is Some)
    &&& (s.message is Some <==> s.message_index is Some)
    &&& !(s.thinking is Some && s.message is Some)
    &&& (s.thinking_index matches Some(i) ==> i < s.next)
    &&& (s.message_index matches Some(i) ==> i < s.next)
    &&& (forall|j: int| 0 <= j < s.pending.len() ==> #[trigger] s.pending[j].index < s.next)
    &&& (forall|j: int, k: int|
        0 <= j < k < s.pending.len() ==> #[trigger] s.pending[j].id != #[trigger] s.pending[k].id)
}

/// The number of bytes of the UTF-8 encoding of `s` (what `str::len` returns).
pub open spec fn utf8_len(s: Seq<char>) -> nat {
    encode_utf8(s).len()
}

/// The byte length that `str::len` reports for a text: its UTF-8 length as a `usize`.
pub open spec fn byte_len(s: Seq<char>) -> usize {
    utf8_len(s) as usize
}

/// Whether a think block is shown: always when there are no tool calls, and otherwise
/// unless it is a long (at least 100 bytes) description that mentions "tool".
pub open spec fn think_shown(think: Seq<char>, has_tool_calls: bool) -> bool {
    !has_tool_calls || byte_len(think) < 100 || !seq_contains(think, "tool"@)
}

/// The patch that shows accumulated `content` at `index`: an add when the run was empty
/// before this block, a replace otherwise.
pub open spec fn run_patch(prev: Seq<char>, index: Option<nat>, e: EntryView) -> Seq<ActionItemView> {
    match index {
        Some(i) => if prev.len() == 0 {
            seq![ActionItemView::Add(i, e)]
        } else {
            seq![ActionItemView::Replace(i, e)]
        },
        None => Seq::empty(),
    }
}

/// A running entry (thinking or message) extended by `piece`: a run that has not
/// started takes the next index; the run's text grows by `piece`.
pub open spec fn extend_run(
    next: nat,
    run: Option<Seq<char>>,
    run_index: Option<nat>,
    piece: Seq<char>,
) -> (nat, Seq<char>, Option<nat>, Seq<char>) {
    let prev = match run {
        Some(t) => t,
        None => Seq::<char>::empty(),
    };
    let index = if run is None { Some(next) } else { run_index };
    let next = if run is None { next + 1 } else { next };
    (next, prev, index, prev + piece)
}

/// One content block of an assistant message.
pub open spec fn apply_block(s: LogView, b: KimiContentBlock, has_tool_calls: bool) -> (
    LogView,
    Seq<ActionItemView>,
) {
    match b {
        KimiContentBlock::Think { think, encrypted } => if think_shown(think@, has_tool_calls) {
            let (next, prev, index, content) = extend_run(s.next, s.thinking, s.thinking_index, think@);
            let e = EntryView { kind: KindView::Thinking, content, metadata: MetaView::Empty };
            (
                LogView {
                    next,
                    thinking: Some(content),
                    thinking_index: index,
                    message: None,
                    message_index: None,
                    pending: s.pending,
                },
                run_patch(prev, index, e),
            )
        } else {
            (s, Seq::empty())
        },
        KimiContentBlock::Text { text } => {
            let (next, prev, index, content) = extend_run(s.next, s.message, s.message_index, text@);
            let e = EntryView {
                kind: KindView::AssistantMessage,
                content,
                metadata: MetaView::Empty,
            };
            (
                LogView {
                    next,
                    thinking: None,
                    thinking_index: None,
                    message: Some(content),
                    message_index: index,
                    pending: s.pending,
                },
                run_patch(prev, index, e),
            )
        },
    }
}

/// The content blocks of an assistant message, in order.
pub open spec fn apply_blocks(s: LogView, blocks: Seq<KimiContentBlock>, has_tool_calls: bool) -> (
    LogView,
    Seq<ActionItemView>,
)
    decreases blocks.len(),
{
    if blocks.len() == 0 {
        (s, Seq::empty())
    } else {
        let (s1, a1) = apply_blocks(s, blocks.drop_last(), has_tool_calls);
        let (s2, a2) = apply_block(s1, blocks.last(), has_tool_calls);
        (s2, a1 + a2)
    }
}

/// The summary shown for a tool call.
pub open spec fn tool_summary(tool_name: Seq<char>, args: Option<JsonValue>) -> Seq<char> {
    match tool_display(tool_name, args) {
        Some(d) => d,
        None => generic_tool_label(tool_name),
    }
}

/// The position of the first pending call with the given id, if any.
pub open spec fn pending_slot(pending: Seq<PendingView>, id: Seq<char>) -> Option<int> {
    if exists|j: int| 0 <= j < pending.len() && pending[j].id == id {
        Some(
            choose|j: int|
                0 <= j < pending.len() && pending[j].id == id && forall|k: int|
                    0 <= k < j ==> pending[k].id != id,
        )
    } else {
        None
    }
}

/// `pending` after recording a call: a call with a known id takes over that entry,
/// a new id is appended.
pub open spec fn record_pending(pending: Seq<PendingView>, p: PendingView) -> Seq<PendingView> {
    match pending_slot(pending, p.id) {
        Some(j) => pending.update(j, p),
        None => pending.push(p),
    }
}

/// One tool call of an assistant message, with its parsed arguments.
pub open spec fn apply_tool_call(s: LogView, c: KimiToolCall) -> (
    LogView,
    Seq<ActionItemView>,
) {
    let name = c.function.name@;
    let args = json_reading(c.function.arguments@);
    let summary = tool_summary(name, args);
    let e = EntryView {
        kind: KindView::ToolUse(summary, expected_action(name, args)),
        content: summary,
        metadata: MetaView::ToolCall(c.id@, name, c.function.arguments@),
    };
    (
        LogView {
            next: s.next + 1,
            pending: record_pending(s.pending, PendingView { id: c.id@, summary, index: s.next }),
            ..s
        },
        seq![ActionItemView::Add(s.next, e)],
    )
}

/// The tool calls of an assistant message, in order.
pub open spec fn apply_tool_calls(
    s: LogView,
    calls: Seq<KimiToolCall>,
) -> (LogView, Seq<ActionItemView>)
    decreases calls.len(),
{
    if calls.len() == 0 {
        (s, Seq::empty())
    } else {
        let (s1, a1) = apply_tool_calls(s, calls.drop_last());
        let (s2, a2) = apply_tool_call(s1, calls.last());
        (s2, a1 + a2)
    }
}

/// The text of a block as it appears in a tool result.
pub open spec fn block_text(b: KimiContentBlock) -> Seq<char> {
    match b {
        KimiContentBlock::Think { think, encrypted } => think@,
        KimiContentBlock::Text { text } => text@,
    }
}

/// The texts of the blocks, joined.
pub open spec fn blocks_text(blocks: Seq<KimiContentBlock>) -> Seq<char>
    decreases blocks.len(),
{
    if blocks.len() == 0 {
        Seq::empty()
    } else {
        blocks_text(blocks.drop_last()) + block_text(blocks.last())
    }
}

/// The text of a tool result message.
pub open spec fn tool_result_text(c: KimiContent) -> Seq<char> {
    match c {
        KimiContent::Text(t) => t@,
        KimiContent::Blocks(b) => blocks_text(b@),
    }
}

/// A tool result as shown: results longer than 500 bytes keep their first 500 bytes and
/// say how many bytes were cut.
pub open spec fn result_display(text: Seq<char>) -> Seq<char> {
    if byte_len(text) > 500 {
        decode_utf8(encode_utf8(text).subrange(0, 500)) + "... ["@ + decimal(
            (byte_len(text) - 500) as nat,
        ) + " more chars]"@
    } else {
        text
    }
}

/// A tool result is shown without panicking: when it is longer than 500 bytes, byte
/// 500 falls on a character boundary.
pub open spec fn result_cut_ok(text: Seq<char>) -> bool {
    byte_len(text) > 500 ==> vstd::utf8::is_char_boundary(encode_utf8(text), 500)
}

/// The tool name a result is shown under: the first pending call's summary, or "Tool".
pub open spec fn result_tool_name(s: LogView) -> Seq<char> {
    if s.pending.len() > 0 {
        s.pending[0].summary
    } else {
        "Tool"@
    }
}

/// A tool result message.
pub open spec fn apply_tool_result(s: LogView, m: KimiMessage) -> (LogView, Seq<ActionItemView>) {
    let e = EntryView {
        kind: KindView::ToolUse(
            result_tool_name(s),
            ActionView::Other("Tool execution result"@),
        ),
        content: result_display(tool_result_text(m.content)),
        metadata: MetaView::ToolResult,
    };
    (LogView { next: s.next + 1, ..s }, seq![ActionItemView::Add(s.next, e)])
}

/// A raw output line: turn boundaries end the running entries (`TurnEnd`) or are
/// ignored (`TurnBegin`); other non-empty text becomes a system entry.
pub open spec fn apply_raw(s: LogView, text: Seq<char>) -> (LogView, Seq<ActionItemView>) {
    if has_prefix(text, "TurnBegin"@) || has_prefix(text, "TurnEnd"@) {
        if has_prefix(text, "TurnEnd"@) {
            (
                LogView {
                    thinking: None,
                    thinking_index: None,
                    message: None,
                    message_index: None,
                    ..s
                },
                Seq::empty(),
            )
        } else {
            (s, Seq::empty())
        }
    } else if text.len() > 0 {
        let e = EntryView { kind: KindView::SystemMessage, content: text, metadata: MetaView::Empty };
        (LogView { next: s.next + 1, ..s }, seq![ActionItemView::Add(s.next, e)])
    } else {
        (s, Seq::empty())
    }
}

/// One event: the new state and the patches. The arguments of each tool call are read
/// as JSON.
pub open spec fn spec_step(s: LogView, ev: Option<ParsedKimiEvent>) -> (
    LogView,
    Seq<ActionItemView>,
) {
    match ev {
        None => (s, Seq::empty()),
        Some(ParsedKimiEvent::Status(st)) => (
            LogView { next: s.next + 1, ..s },
            seq![ActionItemView::AddStatus(s.next, st)],
        ),
        Some(ParsedKimiEvent::RawLog(t)) => apply_raw(s, t@),
        Some(ParsedKimiEvent::Message(m)) => match m.role {
            KimiRole::Assistant => {
                let has_calls = m.tool_calls@.len() > 0;
                let (s1, a1) = apply_blocks(s, crate::kimi::content_blocks(m.content), has_calls);
                let (s2, a2) = apply_tool_calls(s1, m.tool_calls@);
                (s2, a1 + a2)
            },
            KimiRole::Tool => apply_tool_result(s, m),
            _ => (s, Seq::empty()),
        },
    }
}

/// The number of indices an event may take: one per block and tool call, plus one.
pub open spec fn index_budget(ev: Option<ParsedKimiEvent>) -> nat {
    match ev {
        Some(ParsedKimiEvent::Message(m)) => crate::kimi::content_blocks(m.content).len()
            + m.tool_calls@.len() + 1,
        _ => 1,
    }
}

/// What a step needs: a long tool result is cut on a character boundary (the original
/// panics otherwise), and the indices do not run out.
pub open spec fn step_ok(s: LogView, ev: Option<ParsedKimiEvent>) -> bool {
    &&& s.next + index_budget(ev) <= usize::MAX
    &&& (ev matches Some(ParsedKimiEvent::Message(m)) ==> (m.role is Tool ==> result_cut_ok(
        tool_result_text(m.content),
    )))
}

// ---------------------------------------------------------------------------
// The step
// ---------------------------------------------------------------------------
fn extend(run: &Option<String>, run_index: Option<usize>, next: usize, piece: &String) -> (r: (
    usize,
    bool,
    Option<usize>,
    String,
))
    requires
        next < usize::MAX,
    ensures
        ({
            let (n, prev, index, content) = extend_run(
                next as nat,
                opt_view(*run),
                opt_index(run_index),
                piece@,
            );
            &&& r.0 as nat == n
            &&& r.1 == (prev.len() == 0)
            &&& opt_index(r.2) == index
            &&& r.3@ == content
        }),
{
    match run {
        Some(t) => (next, t.as_str().is_empty(), run_index, concat(t.as_str(), piece.as_str())),
        None => {
            proof {
                assert(Seq::<char>::empty() + piece@ =~= piece@);
            }
            (next + 1, true, Some(next), piece.clone())
        },
    }
}

fn push_run_patch(acts: &mut Vec<LogAction>, prev_empty: bool, index: Option<usize>, e: NormalizedEntry, Ghost(prev): Ghost<Seq<char>>)
    requires
        prev_empty == (prev.len() == 0),
    ensures
        actions_view(final(acts)@) == actions_view(old(acts)@) + run_patch(prev, opt_index(index), entry_view(e)),
{
    let ghost before = acts@;
    match index {
        Some(i) => {
            if prev_empty {
                acts.push(LogAction::Add { index: i, entry: e });
            } else {
                acts.push(LogAction::Replace { index: i, entry: e });
            }
            assert(actions_view(acts@) =~= actions_view(before) + run_patch(prev, opt_index(index), entry_view(e)));
        },
        None => {
            assert(actions_view(acts@) =~= actions_view(before) + run_patch(prev, opt_index(index), entry_view(e)));
        },
    }
}

impl KimiLogState {
    /// A fresh state whose entries start at `start_index`.
    pub fn new(start_index: usize) -> (s: KimiLogState)
        ensures
            s@ == (LogView {
                next: start_index as nat,
                thinking: None,
                thinking_index: None,
                message: None,
                message_index: None,
                pending: Seq::empty(),
            }),
            log_wf(s@),
    {
        let s = KimiLogState {
            next_index: start_index,
            current_thinking: None,
            thinking_index: None,
            current_message: None,
            message_index: None,
            pending_tool_calls: Vec::new(),
        };
        assert(s@.pending =~= Seq::<PendingView>::empty());
        s
    }

    fn apply_block_exec(&mut self, b: &KimiContentBlock, has_calls: bool, acts: &mut Vec<LogAction>)
        requires
            old(self).next_index < usize::MAX,
        ensures
            final(self)@ == apply_block(old(self)@, *b, has_calls).0,
            actions_view(final(acts)@) == actions_view(old(acts)@) + apply_block(
                old(self)@,
                *b,
                has_calls,
            ).1,
    {
        let ghost s0 = self@;
        match b {
            KimiContentBlock::Think { think, encrypted: _ } => {
                let shown = !has_calls || think.as_str().len() < 100 || !contains(
                    think.as_str(),
                    "tool",
                );
                if shown {
                    let (next, prev_empty, index, content) = extend(
                        &self.current_thinking,
                        self.thinking_index,
                        self.next_index,
                        think,
                    );
                    let ghost prev = extend_run(s0.next, s0.thinking, s0.thinking_index, think@).1;
                    self.current_message = None;
                    self.message_index = None;
                    self.next_index = next;
                    self.current_thinking = Some(content.clone());
                    self.thinking_index = index;
                    let e = NormalizedEntry {
                        entry_type: NormalizedEntryType::Thinking,
                        content,
                        metadata: EntryMetadata::Empty,
                    };
                    push_run_patch(acts, prev_empty, index, e, Ghost(prev));
                    assert(self@ =~= apply_block(s0, *b, has_calls).0);
                } else {
                    assert(actions_view(acts@) =~= actions_view(old(acts)@) + apply_block(s0, *b, has_calls).1);
                }
            },
            KimiContentBlock::Text { text } => {
                let (next, prev_empty, index, content) = extend(
                    &self.current_message,
                    self.message_index,
                    self.next_index,
                    text,
                );
                let ghost prev = extend_run(s0.next, s0.message, s0.message_index, text@).1;
                self.current_thinking = None;
                self.thinking_index = None;
                self.next_index = next;
                self.current_message = Some(content.clone());
                self.message_index = index;
                let e = NormalizedEntry {
                    entry_type: NormalizedEntryType::AssistantMessage,
                    content,
                    metadata: EntryMetadata::Empty,
                };
                push_run_patch(acts, prev_empty, index, e, Ghost(prev));
                assert(self@ =~= apply_block(s0, *b, has_calls).0);
            },
        }
    }

    fn record_pending_exec(&mut self, id: String, summary: String, index: usize)
        ensures
            final(self)@ == (LogView {
                pending: record_pending(
                    old(self)@.pending,
                    PendingView { id: id@, summary: summary@, index: index as nat },
                ),
                ..old(self)@
            }),
    {
        let ghost s0 = self@;
        let ghost p = PendingView { id: id@, summary: summary@, index: index as nat };
        let mut j: usize = 0;
        while j < self.pending_tool_calls.len()
            invariant
                self@ == s0,
                s0 == old(self)@,
                p == (PendingView { id: id@, summary: summary@, index: index as nat }),
                j <= self.pending_tool_calls.len(),
                forall|k: int| 0 <= k < j ==> (#[trigger] s0.pending[k]).id != id@,
            decreases self.pending_tool_calls.len() - j,
        {
            assert(s0.pending[j as int] == pending_view(self.pending_tool_calls@[j as int]));
            if self.pending_tool_calls[j].id == id {
                proof {
                    assert(0 <= j < s0.pending.len() && s0.pending[j as int].id == id@ && forall|m: int|
                        0 <= m < j ==> s0.pending[m].id != id@);
                    let k = choose|k: int|
                        0 <= k < s0.pending.len() && s0.pending[k].id == id@ && forall|m: int|
                            0 <= m < k ==> s0.pending[m].id != id@;
                    assert(s0.pending[j as int].id == id@);
                    assert(k == j) by {
                        if k < j {
                            assert(s0.pending[k].id != id@);
                        }
                        if j < k {
                            assert(s0.pending[j as int].id != id@);
                        }
                    }
                }
                let ghost old_vec = self.pending_tool_calls@;
                let entry = PendingToolCall { id, summary, index };
                assert(pending_view(entry) == p);
                self.pending_tool_calls.set(j, entry);
                assert(self.pending_tool_calls@ == old_vec.update(j as int, entry));
                assert forall|k: int| 0 <= k < s0.pending.len() implies #[trigger] self@.pending[k] == s0.pending.update(j as int, p)[k] by {
                    if k != j {
                        assert(self.pending_tool_calls@[k] == old_vec[k]);
                    }
                }
                assert(self@.pending =~= s0.pending.update(j as int, p));
                assert(record_pending(s0.pending, p) == s0.pending.update(j as int, p));
                assert(self@ =~= LogView { pending: record_pending(s0.pending, p), ..s0 });
                assert(p == PendingView { id: id@, summary: summary@, index: index as nat });
                return;
            }
            j = j + 1;
        }
        assert(!(exists|k: int| 0 <= k < s0.pending.len() && s0.pending[k].id == id@)) by {
            assert forall|k: int| 0 <= k < s0.pending.len() implies s0.pending[k].id != id@ by {
                assert(s0.pending[k] == pending_view(self.pending_tool_calls@[k]));
            }
        }
        self.pending_tool_calls.push(PendingToolCall { id, summary, index });
        assert(self@.pending =~= s0.pending.push(p));
        assert(self@ =~= LogView { pending: record_pending(s0.pending, p), ..s0 });
    }

    fn apply_tool_call_exec(
        &mut self,
        c: &KimiToolCall,
        acts: &mut Vec<LogAction>,
    )
        requires
            old(self).next_index < usize::MAX,
        ensures
            final(self)@ == apply_tool_call(old(self)@, *c).0,
            actions_view(final(acts)@) == actions_view(old(acts)@) + apply_tool_call(
                old(self)@,
                *c,
            ).1,
    {
        let ghost s0 = self@;
        let name = c.function.name.as_str();
        let (display, args) = parse_tool_arguments(name, c.function.arguments.as_str());
        let summary = match display {
            Some(d) => d,
            None => concat(name, " tool"),
        };
        let action = parse_action_type(name, args);
        let index: usize = self.next_index;
        self.next_index = index + 1;
        self.record_pending_exec(c.id.clone(), summary.clone(), index);
        let e = NormalizedEntry {
            entry_type: NormalizedEntryType::ToolUse { tool_name: summary.clone(), action_type: action },
            content: summary,
            metadata: EntryMetadata::ToolCall {
                tool_id: c.id.clone(),
                tool_name: c.function.name.clone(),
                arguments: c.function.arguments.clone(),
            },
        };
        let ghost before = acts@;
        acts.push(LogAction::Add { index, entry: e });
        assert(actions_view(acts@) =~= actions_view(before) + apply_tool_call(s0, *c).1);
        assert(self@ =~= apply_tool_call(s0, *c).0);
    }

    fn tool_result_exec(&mut self, m: &KimiMessage, acts: &mut Vec<LogAction>)
        requires
            old(self).next_index < usize::MAX,
            result_cut_ok(tool_result_text(m.content)),
        ensures
            final(self)@ == apply_tool_result(old(self)@, *m).0,
            actions_view(final(acts)@) == actions_view(old(acts)@) + apply_tool_result(
                old(self)@,
                *m,
            ).1,
    {
        let ghost s0 = self@;
        let content_text = content_text_of(&m.content);
        let tool_name = if self.pending_tool_calls.len() > 0 {
            assert(s0.pending[0] == pending_view(self.pending_tool_calls@[0]));
            self.pending_tool_calls[0].summary.clone()
        } else {
            owned("Tool")
        };
        let index: usize = self.next_index;
        self.next_index = index + 1;
        let n: usize = content_text.as_str().len();
        let display = if n > 500 {
            let (head, _tail) = content_text.as_str().split_at(500);
            proof {
                encode_utf8_decode_utf8(head@);
            }
            let d = concat(head, "... [");
            let d = concat(d.as_str(), usize_to_decimal(n - 500).as_str());
            concat(d.as_str(), " more chars]")
        } else {
            content_text
        };
        proof {
            let t = tool_result_text(m.content);
            if byte_len(t) > 500 {
                assert(display@ =~= result_display(t));
            }
        }
        let e = NormalizedEntry {
            entry_type: NormalizedEntryType::ToolUse {
                tool_name,
                action_type: ActionType::Other { description: owned("Tool execution result") },
            },
            content: display,
            metadata: EntryMetadata::ToolResult,
        };
        let ghost before = acts@;
        acts.push(LogAction::Add { index, entry: e });
        assert(actions_view(acts@) =~= actions_view(before) + apply_tool_result(s0, *m).1);
        assert(self@ =~= apply_tool_result(s0, *m).0);
    }

    fn raw_exec(&mut self, text: String, acts: &mut Vec<LogAction>)
        requires
            old(self).next_index < usize::MAX,
        ensures
            final(self)@ == apply_raw(old(self)@, text@).0,
            actions_view(final(acts)@) == actions_view(old(acts)@) + apply_raw(old(self)@, text@).1,
    {
        let ghost s0 = self@;
        let ghost before = acts@;
        if starts_with(text.as_str(), "TurnBegin") || starts_with(text.as_str(), "TurnEnd") {
            if starts_with(text.as_str(), "TurnEnd") {
                self.current_thinking = None;
                self.current_message = None;
                self.thinking_index = None;
                self.message_index = None;
            }
            assert(self@ =~= apply_raw(s0, text@).0);
        } else if !text.as_str().is_empty() {
            let index: usize = self.next_index;
            self.next_index = index + 1;
            acts.push(
                LogAction::Add {
                    index,
                    entry: NormalizedEntry {
                        entry_type: NormalizedEntryType::SystemMessage,
                        content: text,
                        metadata: EntryMetadata::Empty,
                    },
                },
            );
            assert(self@ =~= apply_raw(s0, text@).0);
        }
        assert(actions_view(acts@) =~= actions_view(before) + apply_raw(s0, text@).1);
    }
}

impl KimiLogState {
    /// Processes one parsed stdout line (`None` for a line that yields nothing); the
    /// arguments of tool calls are read as JSON here. Returns the patches to push, in
    /// order.
    pub fn step(&mut self, event: Option<ParsedKimiEvent>) -> (acts: Vec<LogAction>)
        requires
            step_ok(old(self)@, event),
        ensures
            final(self)@ == spec_step(old(self)@, event).0,
            actions_view(acts@) == spec_step(old(self)@, event).1,
    {
        let ghost s0 = self@;
        let ghost ev0 = event;
        let mut acts: Vec<LogAction> = Vec::new();
        match event {
            None => {
                assert(actions_view(acts@) =~= Seq::<ActionItemView>::empty());
            },
            Some(ParsedKimiEvent::Status(st)) => {
                let index: usize = self.next_index;
                self.next_index = index + 1;
                acts.push(LogAction::AddStatus { index, status: st });
                assert(actions_view(acts@) =~= spec_step(s0, ev0).1);
                assert(self@ =~= spec_step(s0, ev0).0);
            },
            Some(ParsedKimiEvent::RawLog(t)) => {
                self.raw_exec(t, &mut acts);
                assert(actions_view(acts@) =~= spec_step(s0, ev0).1);
            },
            Some(ParsedKimiEvent::Message(m)) => {
                match m.role {
                    KimiRole::Assistant => {
                        let has_calls = m.tool_calls.len() > 0;
                        let ghost m0 = m;
                        let KimiMessage { role: _, content, tool_calls, tool_call_id: _ } = m;
                        let blocks = content.into_blocks();
                        let mut i: usize = 0;
                        assert(blocks@.take(0) =~= Seq::<KimiContentBlock>::empty());
                        assert(actions_view(acts@) =~= Seq::<ActionItemView>::empty());
                        while i < blocks.len()
                            invariant
                                i <= blocks.len(),
                                blocks@ == crate::kimi::content_blocks(m0.content),
                                has_calls == (m0.tool_calls@.len() > 0),
                                s0.next + index_budget(ev0) <= usize::MAX,
                                index_budget(ev0) == blocks.len() + m0.tool_calls@.len() + 1,
                                self@ == apply_blocks(s0, blocks@.take(i as int), has_calls).0,
                                actions_view(acts@) == apply_blocks(s0, blocks@.take(i as int), has_calls).1,
                                self@.next <= s0.next + i,
                            decreases blocks.len() - i,
                        {
                            let ghost before = acts@;
                            let ghost sb = self@;
                            assert(blocks@.take(i + 1).drop_last() =~= blocks@.take(i as int));
                            assert(blocks@.take(i + 1).last() == blocks@[i as int]);
                            self.apply_block_exec(&blocks[i], has_calls, &mut acts);
                            assert(actions_view(acts@) =~= apply_blocks(s0, blocks@.take(i + 1), has_calls).1);
                            i = i + 1;
                        }
                        assert(blocks@.take(blocks.len() as int) =~= blocks@);
                        let ghost s1 = self@;
                        let ghost a1 = actions_view(acts@);
                        let mut j: usize = 0;
                        assert(tool_calls@.take(0) =~= Seq::<KimiToolCall>::empty());
                        while j < tool_calls.len()
                            invariant
                                j <= tool_calls.len(),
                                tool_calls@ == m0.tool_calls@,
                                s1.next <= s0.next + blocks@.len(),
                                s0.next + blocks@.len() + tool_calls@.len() + 1 <= usize::MAX,
                                self@ == apply_tool_calls(s1, tool_calls@.take(j as int)).0,
                                actions_view(acts@) == a1 + apply_tool_calls(s1, tool_calls@.take(j as int)).1,
                                self@.next == s1.next + j,
                            decreases tool_calls.len() - j,
                        {
                            assert(tool_calls@.take(j + 1).drop_last() =~= tool_calls@.take(j as int));
                            assert(tool_calls@.take(j + 1).last() == tool_calls@[j as int]);
                            let ghost before = acts@;
                            self.apply_tool_call_exec(&tool_calls[j], &mut acts);
                            assert(actions_view(acts@) =~= a1 + apply_tool_calls(s1, tool_calls@.take(j + 1)).1);
                            j = j + 1;
                        }
                        assert(tool_calls@.take(tool_calls.len() as int) =~= tool_calls@);
                    },
                    KimiRole::Tool => {
                        self.tool_result_exec(&m, &mut acts);
                        assert(actions_view(acts@) =~= spec_step(s0, ev0).1);
                    },
                    _ => {
                        assert(actions_view(acts@) =~= Seq::<ActionItemView>::empty());
                    },
                }
            },
        }
        acts
    }
}

fn content_text_of(c: &KimiContent) -> (r: String)
    ensures
        r@ == tool_result_text(*c),
{
    match c {
        KimiContent::Text(t) => t.clone(),
        KimiContent::Blocks(blocks) => {
            let mut r = String::new();
            let mut i: usize = 0;
            while i < blocks.len()
                invariant
                    i <= blocks.len(),
                    r@ == blocks_text(blocks@.take(i as int)),
                decreases blocks.len() - i,
            {
                assert(blocks@.take(i + 1).drop_last() =~= blocks@.take(i as int));
                match &blocks[i] {
                    KimiContentBlock::Think { think, encrypted: _ } => r.append(think.as_str()),
                    KimiContentBlock::Text { text } => r.append(text.as_str()),
                }
                i = i + 1;
            }
            assert(blocks@.take(blocks.len() as int) =~= blocks@);
            r
        },
    }
}

// ---------------------------------------------------------------------------
// Stderr
// ---------------------------------------------------------------------------
/// What `strip_ansi_escapes::strip_str` returns for a text: the text without its ANSI
/// escape sequences.
pub uninterp spec fn ansi_stripped(s: Seq<char>) -> Seq<char>;

/// `strip_ansi_escapes::strip_str`; its result is named, being a function of the text alone.
#[verifier::external_body]
fn strip_ansi(s: &str) -> (r: String)
    ensures
        r@ == ansi_stripped(s@),
{
    strip_ansi_escapes::strip_str(s)
}

/// The entry for a stderr chunk that asks the user to log in: an error entry of kind
/// `SetupRequired` with the chunk's text stripped of ANSI escapes. `None` for any other
/// chunk, which goes to the plain-text processor.
pub fn stderr_auth_entry(chunk: &str) -> (r: Option<NormalizedEntry>)
    ensures
        r is Some <==> seq_contains(ansi_stripped(chunk@), "Please login first"@),
        r matches Some(e) ==> entry_view(e) == (EntryView {
            kind: KindView::ErrorMessage(NormalizedEntryError::SetupRequired),
            content: ansi_stripped(chunk@),
            metadata: MetaView::Empty,
        }),
{
    let content = strip_ansi(chunk);
    if contains(content.as_str(), "Please login first") {
        Some(
            NormalizedEntry {
                entry_type: NormalizedEntryType::ErrorMessage {
                    error_type: NormalizedEntryError::SetupRequired,
                },
                content,
                metadata: EntryMetadata::Empty,
            },
        )
    } else {
        None
    }
}

/// The entry the plain-text processor makes of a stretch of stderr text: an error entry
/// of kind `Other` with the text stripped of ANSI escapes.
pub fn stderr_plain_entry(content: &str) -> (e: NormalizedEntry)
    ensures
        entry_view(e) == (EntryView {
            kind: KindView::ErrorMessage(NormalizedEntryError::Other),
            content: ansi_stripped(content@),
            metadata: MetaView::Empty,
        }),
{
    NormalizedEntry {
        entry_type: NormalizedEntryType::ErrorMessage { error_type: NormalizedEntryError::Other },
        content: strip_ansi(content),
        metadata: EntryMetadata::Empty,
    }
}

// ---------------------------------------------------------------------------
// Waiting for the session id
// ---------------------------------------------------------------------------
/// The most times the session id is polled for before stdout is read without one.
pub open spec fn session_poll_limit() -> nat {
    50
}

/// What to do after a poll for the session id.
pub enum SessionWaitAction {
    /// Push this session id to the store, then read stdout.
    PushSessionId(String),
    /// Sleep 10 ms; then poll again while polls remain, else read stdout without an id.
    Sleep,
}

/// The wait for the session id that spawning sets: up to 50 polls, 10 ms apart.
pub struct SessionIdWait {
    /// The polls made so far.
    pub polls: u32,
    /// Whether the session id was found (and pushed).
    pub found: bool,
}

/// Whether another poll is due: the id was not found and polls remain.
pub open spec fn wait_polling(polls: nat, found: bool) -> bool {
    !found && polls < session_poll_limit()
}

/// One poll that saw `current`: a set id is pushed and ends the wait, an unset one
/// means sleeping.
pub open spec fn wait_observe(polls: nat, current: Option<String>) -> (nat, bool, SessionWaitAction) {
    match current {
        Some(sid) => (polls + 1, true, SessionWaitAction::PushSessionId(sid)),
        None => (polls + 1, false, SessionWaitAction::Sleep),
    }
}

/// The actions of the wait when the polls see `seen`, in order.
pub open spec fn wait_run(polls: nat, found: bool, seen: Seq<Option<String>>) -> Seq<SessionWaitAction>
    decreases seen.len(),
{
    if !wait_polling(polls, found) || seen.len() == 0 {
        Seq::empty()
    } else {
        let (p2, f2, a) = wait_observe(polls, seen[0]);
        seq![a] + wait_run(p2, f2, seen.drop_first())
    }
}

/// The first id among the first `budget` polls, if any poll saw one.
pub open spec fn first_session_id(seen: Seq<Option<String>>, budget: nat) -> Option<String>
    decreases seen.len(),
{
    if budget == 0 || seen.len() == 0 {
        None
    } else {
        match seen[0] {
            Some(sid) => Some(sid),
            None => first_session_id(seen.drop_first(), (budget - 1) as nat),
        }
    }
}

impl SessionIdWait {
    /// A wait that has not polled yet.
    pub fn new() -> (w: SessionIdWait)
        ensures
            w.polls == 0,
            !w.found,
    {
        SessionIdWait { polls: 0, found: false }
    }

    /// Whether another poll is due.
    pub fn polling(&self) -> (b: bool)
        ensures
            b == wait_polling(self.polls as nat, self.found),
    {
        !self.found && self.polls < 50
    }

    /// Records one poll that saw `current` (the session id if spawning has set it).
    pub fn observe(&mut self, current: Option<String>) -> (a: SessionWaitAction)
        requires
            wait_polling(old(self).polls as nat, old(self).found),
        ensures
            (final(self).polls as nat, final(self).found, a) == wait_observe(
                old(self).polls as nat,
                current,
            ),
    {
        self.polls = self.polls + 1;
        match current {
            Some(sid) => {
                self.found = true;
                SessionWaitAction::PushSessionId(sid)
            },
            None => SessionWaitAction::Sleep,
        }
    }
}

proof fn lemma_wait_run(k: nat, seen: Seq<Option<String>>)
    requires
        k <= session_poll_limit(),
    ensures
        ({
            let acts = wait_run(k, false, seen);
            &&& forall|i: int|
                0 <= i < acts.len() && #[trigger] acts[i] is PushSessionId ==> i == acts.len() - 1
            &&& first_session_id(seen, (session_poll_limit() - k) as nat) matches Some(sid)
                ==> acts.len() > 0 && acts.last() == SessionWaitAction::PushSessionId(sid)
            &&& first_session_id(seen, (session_poll_limit() - k) as nat) is None ==> forall|i: int|
                0 <= i < acts.len() ==> #[trigger] acts[i] is Sleep
        }),
    decreases seen.len(),
{
    let acts = wait_run(k, false, seen);
    if k == session_poll_limit() || seen.len() == 0 {
        assert(acts.len() == 0);
    } else {
        let rest = seen.drop_first();
        match seen[0] {
            Some(sid) => {
                assert(wait_run(k + 1, true, rest) == Seq::<SessionWaitAction>::empty());
                assert(acts =~= seq![SessionWaitAction::PushSessionId(sid)]);
            },
            None => {
                lemma_wait_run(k + 1, rest);
                let tail = wait_run(k + 1, false, rest);
                assert(acts == seq![SessionWaitAction::Sleep] + tail);
                assert((session_poll_limit() - k - 1) as nat == ((session_poll_limit() - k) as nat - 1) as nat);
                assert forall|i: int|
                    0 <= i < acts.len() && #[trigger] acts[i] is PushSessionId implies i == acts.len() - 1 by {
                    if i > 0 {
                        assert(acts[i] == tail[i - 1]);
                    }
                }
                if first_session_id(seen, (session_poll_limit() - k) as nat) is None {
                    assert forall|i: int| 0 <= i < acts.len() implies #[trigger] acts[i] is Sleep by {
                        if i > 0 {
                            assert(acts[i] == tail[i - 1]);
                        }
                    }
                } else {
                    assert(acts.last() == tail.last());
                }
            },
        }
    }
}

/// The session id is pushed at most once, and only as the wait's last action, so before
/// any stdout patch: when one of the 50 polls sees it, the first id seen is pushed; when
/// none does, the wait only sleeps.
pub proof fn law_session_id_pushed_once(seen: Seq<Option<String>>)
    ensures
        ({
            let acts = wait_run(0, false, seen);
            &&& forall|i: int|
                0 <= i < acts.len() && #[trigger] acts[i] is PushSessionId ==> i == acts.len() - 1
            &&& first_session_id(seen, session_poll_limit()) matches Some(sid) ==> acts.len() > 0
                && acts.last() == SessionWaitAction::PushSessionId(sid)
            &&& first_session_id(seen, session_poll_limit()) is None ==> forall|i: int|
                0 <= i < acts.len() ==> #[trigger] acts[i] is Sleep
        }),
{
    lemma_wait_run(0, seen);
}

// ---------------------------------------------------------------------------
// Laws
// ---------------------------------------------------------------------------
/// The index a patch writes to.
pub open spec fn patch_index(a: ActionItemView) -> nat {
    match a {
        ActionItemView::Add(i, _) => i,
        ActionItemView::Replace(i, _) => i,
        ActionItemView::AddStatus(i, _) => i,
    }
}

/// Every patch writes below `n`.
pub open spec fn patches_below(acts: Seq<ActionItemView>, n: nat) -> bool {
    forall|i: int| 0 <= i < acts.len() ==> patch_index(#[trigger] acts[i]) < n
}

proof fn lemma_block_wf(s: LogView, b: KimiContentBlock, h: bool)
    requires
        log_wf(s),
    ensures
        log_wf(apply_block(s, b, h).0),
        s.next <= apply_block(s, b, h).0.next <= s.next + 1,
        patches_below(apply_block(s, b, h).1, apply_block(s, b, h).0.next),
{
}

proof fn lemma_blocks_wf(s: LogView, blocks: Seq<KimiContentBlock>, h: bool)
    requires
        log_wf(s),
    ensures
        log_wf(apply_blocks(s, blocks, h).0),
        s.next <= apply_blocks(s, blocks, h).0.next <= s.next + blocks.len(),
        patches_below(apply_blocks(s, blocks, h).1, apply_blocks(s, blocks, h).0.next),
    decreases blocks.len(),
{
    if blocks.len() > 0 {
        lemma_blocks_wf(s, blocks.drop_last(), h);
        let (s1, a1) = apply_blocks(s, blocks.drop_last(), h);
        lemma_block_wf(s1, blocks.last(), h);
        let (s2, a2) = apply_block(s1, blocks.last(), h);
        assert forall|i: int| 0 <= i < (a1 + a2).len() implies patch_index(#[trigger] (a1 + a2)[i]) < s2.next by {
            if i < a1.len() {
                assert((a1 + a2)[i] == a1[i]);
            } else {
                assert((a1 + a2)[i] == a2[i - a1.len()]);
            }
        }
    }
}

proof fn lemma_record_pending_wf(s: LogView, p: PendingView)
    requires
        log_wf(s),
        p.index < s.next + 1,
    ensures
        log_wf(LogView { next: s.next + 1, pending: record_pending(s.pending, p), ..s }),
{
    let ps = record_pending(s.pending, p);
    match pending_slot(s.pending, p.id) {
        Some(j) => {
            assert forall|a: int, b: int| 0 <= a < b < ps.len() implies #[trigger] ps[a].id != #[trigger] ps[b].id by {
                if a != j && b != j {
                    assert(s.pending[a].id != s.pending[b].id);
                } else if a == j {
                    assert(s.pending[j].id != s.pending[b].id);
                } else {
                    assert(s.pending[a].id != s.pending[j].id);
                }
            }
        },
        None => {
            assert forall|a: int, b: int| 0 <= a < b < ps.len() implies #[trigger] ps[a].id != #[trigger] ps[b].id by {
                if b == s.pending.len() {
                    assert(s.pending[a].id != p.id);
                } else {
                    assert(s.pending[a].id != s.pending[b].id);
                }
            }
        },
    }
}

proof fn lemma_tool_calls_wf(s: LogView, calls: Seq<KimiToolCall>)
    requires
        log_wf(s),
    ensures
        log_wf(apply_tool_calls(s, calls).0),
        apply_tool_calls(s, calls).0.next == s.next + calls.len(),
        patches_below(apply_tool_calls(s, calls).1, apply_tool_calls(s, calls).0.next),
    decreases calls.len(),
{
    if calls.len() > 0 {
        lemma_tool_calls_wf(s, calls.drop_last());
        let (s1, a1) = apply_tool_calls(s, calls.drop_last());
        let c = calls.last();
        let a = json_reading(c.function.arguments@);
        let summary = tool_summary(c.function.name@, a);
        lemma_record_pending_wf(s1, PendingView { id: c.id@, summary, index: s1.next });
        let (s2, a2) = apply_tool_call(s1, c);
        assert forall|i: int| 0 <= i < (a1 + a2).len() implies patch_index(#[trigger] (a1 + a2)[i]) < s2.next by {
            if i < a1.len() {
                assert((a1 + a2)[i] == a1[i]);
            } else {
                assert((a1 + a2)[i] == a2[i - a1.len()]);
            }
        }
    }
}

/// Every step keeps the state well formed, never moves the next free index backwards,
/// and writes only below the new next free index.
pub proof fn law_step_keeps_state_well_formed(
    s: LogView,
    ev: Option<ParsedKimiEvent>,
)
    requires
        log_wf(s),
        step_ok(s, ev),
    ensures
        log_wf(spec_step(s, ev).0),
        s.next <= spec_step(s, ev).0.next,
        patches_below(spec_step(s, ev).1, spec_step(s, ev).0.next),
{
    match ev {
        Some(ParsedKimiEvent::Message(m)) => {
            if m.role is Assistant {
                let blocks = crate::kimi::content_blocks(m.content);
                let has_calls = m.tool_calls@.len() > 0;
                lemma_blocks_wf(s, blocks, has_calls);
                let (s1, a1) = apply_blocks(s, blocks, has_calls);
                lemma_tool_calls_wf(s1, m.tool_calls@);
                let (s2, a2) = apply_tool_calls(s1, m.tool_calls@);
                assert forall|i: int| 0 <= i < (a1 + a2).len() implies patch_index(#[trigger] (a1 + a2)[i]) < s2.next by {
                    if i < a1.len() {
                        assert((a1 + a2)[i] == a1[i]);
                    } else {
                        assert((a1 + a2)[i] == a2[i - a1.len()]);
                    }
                }
            }
        },
        _ => {},
    }
}

/// A `TurnEnd` line ends the running thinking and message entries and writes nothing.
pub proof fn law_turn_end_ends_runs(s: LogView, text: Seq<char>)
    requires
        has_prefix(text, "TurnEnd"@),
    ensures
        forall|t: String| t@ == text ==> {
            let (s2, acts) = #[trigger] spec_step(s, Some(ParsedKimiEvent::RawLog(t)));
            &&& s2.thinking is None
            &&& s2.message is None
            &&& s2.next == s.next
            &&& s2.pending == s.pending
            &&& acts.len() == 0
        },
{
}

/// `s` ends with `p`.
pub open spec fn has_suffix(s: Seq<char>, p: Seq<char>) -> bool {
    p.len() <= s.len() && s.subrange(s.len() - p.len(), s.len() as int) == p
}

/// Whether a patch adds or replaces a thinking entry whose text ends with `t`.
pub open spec fn shows_thinking_ending_with(a: ActionItemView, t: Seq<char>) -> bool {
    match a {
        ActionItemView::Add(_, e) => e.kind == KindView::Thinking && has_suffix(e.content, t),
        ActionItemView::Replace(_, e) => e.kind == KindView::Thinking && has_suffix(e.content, t),
        ActionItemView::AddStatus(_, _) => false,
    }
}

/// A think block of a message without tool calls is always shown, whatever its length
/// or words: it yields exactly one patch, a thinking entry whose text ends with the
/// block's text, and thinking then runs with that text at its end. The same holds of a
/// think block shorter than 100 bytes in a message with tool calls.
pub proof fn law_think_block_is_shown(s: LogView, t: String, e: Option<String>, has_calls: bool)
    requires
        log_wf(s),
        !has_calls || byte_len(t@) < 100,
    ensures
        ({
            let (s2, acts) = apply_block(s, KimiContentBlock::Think { think: t, encrypted: e }, has_calls);
            &&& acts.len() == 1
            &&& shows_thinking_ending_with(acts[0], t@)
            &&& s2.thinking matches Some(x) && has_suffix(x, t@)
            &&& s2.message is None
        }),
{
    let prev = match s.thinking {
        Some(x) => x,
        None => Seq::<char>::empty(),
    };
    let content = prev + t@;
    assert(content.subrange(content.len() - t@.len(), content.len() as int) =~= t@);
}

/// Thinking accumulates: while a thinking entry runs, a shown think block extends its
/// text and replaces the entry at the same index (an add when the text so far is empty).
pub proof fn law_thinking_accumulates(s: LogView, think: Seq<char>, has_calls: bool)
    requires
        log_wf(s),
        s.thinking is Some,
        think_shown(think, has_calls),
    ensures
        forall|t: String, e: Option<String>| t@ == think ==> {
            let (s2, acts) = #[trigger] apply_block(s, KimiContentBlock::Think { think: t, encrypted: e }, has_calls);
            &&& s2.thinking == Some(s.thinking->0 + think)
            &&& s2.thinking_index == s.thinking_index
            &&& s2.next == s.next
            &&& acts.len() == 1
            &&& patch_index(acts[0]) == s.thinking_index->0
            &&& (s.thinking->0.len() > 0 ==> acts[0] is Replace)
        },
{
}

} // verus!
