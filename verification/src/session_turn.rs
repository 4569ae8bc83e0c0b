//! Decisions of the wasm32-wasip1 session-turn engine.
//!
//! `codex-exec --session-turn` drives the Codex agent and speaks a
//! newline-JSON protocol: on stdin a `start` message, then one
//! `permission_response` per permission request; on stdout `start`,
//! `text_delta`, `tool_call_update`, `permission_request`, `done` and `error`
//! messages. The reading, writing and agent calls stand outside this module;
//! here stands what the engine decides from what it read.

use vstd::prelude::*;

use crate::json::{
    get_field, get_string_field, json_document, object_field, parse_json, str_field,
    string_field, trim_white_space, trimmed, JsonValue,
};

verus! {

/// One entry of the start message's `history`: its `role` and `content`
/// where they are JSON strings.
#[derive(Debug, Clone, PartialEq, Eq)]
pub struct HistoryEntry {
    pub role: Option<String>,
    pub content: Option<String>,
}

/// The start message, as the engine reads it: each field where it is present
/// with the expected JSON type (`history` where it is an array).
#[derive(Debug, Clone, PartialEq, Eq)]
pub struct StartMessage {
    pub model: Option<String>,
    pub cwd: Option<String>,
    pub prompt: Option<String>,
    pub history: Option<Vec<HistoryEntry>>,
}

/// A content item of a replayed message.
#[derive(Debug, Clone, PartialEq, Eq)]
pub enum ContentItem {
    /// Text that the user wrote.
    InputText { text: String },
    /// Text that the assistant wrote.
    OutputText { text: String },
}

/// A prior message, replayed into a resumed thread.
#[derive(Debug, Clone, PartialEq, Eq)]
pub struct HistoryMessage {
    pub role: String,
    pub content: Vec<ContentItem>,
}

/// The role of a history entry; `"user"` when it has none.
pub open spec fn entry_role(e: HistoryEntry) -> Seq<char> {
    match e.role {
        Some(r) => r@,
        None => "user"@,
    }
}

/// The text of a history entry; empty when it has none.
pub open spec fn entry_text(e: HistoryEntry) -> Seq<char> {
    match e.content {
        Some(c) => c@,
        None => Seq::empty(),
    }
}

/// The messages that history entries replay, in order, as
/// `(role, written by the assistant, text)`: one per entry whose text is not
/// empty.
pub open spec fn replayed_messages(entries: Seq<HistoryEntry>) -> Seq<(Seq<char>, bool, Seq<char>)>
    decreases entries.len(),
{
    if entries.len() == 0 {
        Seq::empty()
    } else {
        let rest = replayed_messages(entries.drop_last());
        let e = entries.last();
        if entry_text(e).len() == 0 {
            rest
        } else {
            rest.push((entry_role(e), entry_role(e) == "assistant"@, entry_text(e)))
        }
    }
}

/// A replayed message as `(role, written by the assistant, text)`, when it
/// holds exactly one content item.
pub open spec fn message_summary(m: HistoryMessage) -> Option<(Seq<char>, bool, Seq<char>)> {
    if m.content@.len() == 1 {
        match m.content@[0] {
            ContentItem::InputText { text } => Some((m.role@, false, text@)),
            ContentItem::OutputText { text } => Some((m.role@, true, text@)),
        }
    } else {
        None
    }
}

/// The entries of the start message's history; none when it has no history.
pub open spec fn start_history(start: StartMessage) -> Seq<HistoryEntry> {
    match start.history {
        Some(h) => h@,
        None => Seq::empty(),
    }
}

/// The prior messages that a start message asks to replay, so that a resumed
/// multi-turn session sees its earlier context. Entries with empty text are
/// skipped; an entry without a role counts as the user's; only the role
/// `"assistant"` marks the assistant's own text.
pub fn history_from_start(start: &StartMessage) -> (r: Vec<HistoryMessage>)
    ensures
        r@.len() == replayed_messages(start_history(*start)).len(),
        forall|i: int|
            0 <= i < r@.len() ==> message_summary(#[trigger] r@[i]) == Some(
                replayed_messages(start_history(*start))[i],
            ),
{
    let mut items: Vec<HistoryMessage> = Vec::new();
    let entries = match &start.history {
        Some(h) => h,
        None => {
            return items;
        },
    };
    let ghost es = entries@;
    let mut i: usize = 0;
    while i < entries.len()
        invariant
            i <= es.len(),
            es == entries@,
            es == start_history(*start),
            items@.len() == replayed_messages(es.take(i as int)).len(),
            forall|j: int|
                0 <= j < items@.len() ==> message_summary(#[trigger] items@[j]) == Some(
                    replayed_messages(es.take(i as int))[j],
                ),
        decreases es.len() - i,
    {
        let entry = &entries[i];
        assert(es.take(i + 1).drop_last() =~= es.take(i as int));
        assert(es.take(i + 1).last() == es[i as int]);
        let role: String = match &entry.role {
            Some(r) => r.clone(),
            None => String::from_str("user"),
        };
        let text: String = match &entry.content {
            Some(c) => c.clone(),
            None => String::new(),
        };
        assert(role@ == entry_role(*entry));
        assert(text@ == entry_text(*entry));
        if !text.as_str().is_empty() {
            let assistant = String::from_str("assistant");
            let is_assistant = role == assistant;
            let content = if is_assistant {
                vec![ContentItem::OutputText { text }]
            } else {
                vec![ContentItem::InputText { text }]
            };
            let message = HistoryMessage { role, content };
            assert(message_summary(message) == Some(
                (entry_role(*entry), entry_role(*entry) == "assistant"@, entry_text(*entry)),
            ));
            items.push(message);
            assert(items@[items@.len() - 1] == message);
        }
        i = i + 1;
    }
    assert(es.take(es.len() as int) =~= es);
    items
}

/// The settings of a turn: the model, working directory and prompt.
#[derive(Debug, Clone, PartialEq, Eq)]
pub struct SessionSettings {
    pub model: String,
    pub cwd: String,
    pub prompt: String,
}

/// A string field, or `default` when it is absent.
pub open spec fn field_or(field: Option<String>, default: Seq<char>) -> Seq<char> {
    match field {
        Some(s) => s@,
        None => default,
    }
}

/// The turn's settings: the start message's model, working directory and
/// prompt, defaulting to `"gpt-5"`, `"."` and the empty prompt.
pub fn session_settings(start: &StartMessage) -> (r: SessionSettings)
    ensures
        r.model@ == field_or(start.model, "gpt-5"@),
        r.cwd@ == field_or(start.cwd, "."@),
        r.prompt@ == field_or(start.prompt, Seq::empty()),
{
    let model = match &start.model {
        Some(m) => m.clone(),
        None => String::from_str("gpt-5"),
    };
    let cwd = match &start.cwd {
        Some(c) => c.clone(),
        None => String::from_str("."),
    };
    let prompt = match &start.prompt {
        Some(p) => p.clone(),
        None => String::new(),
    };
    SessionSettings { model, cwd, prompt }
}

/// The value of a configuration override.
#[derive(Debug, Clone, PartialEq, Eq)]
pub enum OverrideValue {
    String(String),
    Boolean(bool),
}

/// The configuration overrides of a turn: the chosen model, approvals on
/// request, and no shell snapshot (its subprocess would block the VM's single
/// executor thread).
pub fn config_overrides(model: String) -> (r: Vec<(String, OverrideValue)>)
    ensures
        r@.len() == 3,
        r@[0].0@ == "model"@,
        r@[0].1 matches OverrideValue::String(s) && s@ == model@,
        r@[1].0@ == "approval_policy"@,
        r@[1].1 matches OverrideValue::String(s) && s@ == "on-request"@,
        r@[2].0@ == "features.shell_snapshot"@,
        r@[2].1 == OverrideValue::Boolean(false),
{
    vec![
        (String::from_str("model"), OverrideValue::String(model)),
        (String::from_str("approval_policy"), OverrideValue::String(String::from_str("on-request"))),
        (String::from_str("features.shell_snapshot"), OverrideValue::Boolean(false)),
    ]
}

/// How a turn's thread begins.
#[derive(Debug, Clone, PartialEq, Eq)]
pub enum ThreadStart {
    /// A fresh thread.
    Fresh,
    /// A thread resumed from the replayed prior messages.
    Resume(Vec<HistoryMessage>),
}

/// A fresh thread when there is nothing to replay; otherwise a thread resumed
/// from the replayed messages.
pub fn plan_thread_start(history: Vec<HistoryMessage>) -> (r: ThreadStart)
    ensures
        history@.len() == 0 ==> r == ThreadStart::Fresh,
        history@.len() != 0 ==> r == ThreadStart::Resume(history),
{
    if history.len() == 0 {
        ThreadStart::Fresh
    } else {
        ThreadStart::Resume(history)
    }
}

/// An event of the agent, as far as the protocol reads it.
#[derive(Debug, Clone, PartialEq, Eq)]
pub enum AgentEvent {
    /// A streamed piece of the assistant's message.
    AgentMessageDelta { delta: String },
    /// The assistant's complete message.
    AgentMessage { message: String },
    /// A command started.
    ExecCommandBegin { call_id: String },
    /// A command ended.
    ExecCommandEnd { call_id: String },
    /// A command waits for the user's approval.
    ExecApprovalRequest { call_id: String },
    /// The turn is over.
    TurnComplete,
    /// The agent failed; `message` describes the failure.
    Error { message: String },
    /// Any other event; the protocol ignores it.
    Other,
}

/// The status that a tool-call update reports.
#[derive(Debug, Clone, Copy, PartialEq, Eq)]
pub enum ToolCallStatus {
    InProgress,
    Completed,
}

/// A message of the engine on stdout.
#[derive(Debug, Clone, PartialEq, Eq)]
pub enum OutboundMessage {
    /// `{"type":"start"}`
    Start,
    /// `{"type":"text_delta","delta":..}`
    TextDelta { delta: String },
    /// `{"type":"tool_call_update","tool_call_id":..,"status":..}`
    ToolCallUpdate { tool_call_id: String, status: ToolCallStatus },
    /// `{"type":"permission_request","tool_call_id":..}`
    PermissionRequest { tool_call_id: String },
    /// `{"type":"done"}`
    Done,
    /// `{"type":"error","message":..}`
    Error { message: String },
}

/// The text of a tool-call status on the wire.
pub open spec fn tool_call_status_text(status: ToolCallStatus) -> Seq<char> {
    match status {
        ToolCallStatus::InProgress => "in_progress"@,
        ToolCallStatus::Completed => "completed"@,
    }
}

/// The fields of an outbound message's JSON object, in order, as
/// `(key, string value)`.
pub open spec fn outbound_field_list(m: OutboundMessage) -> Seq<(Seq<char>, Seq<char>)> {
    match m {
        OutboundMessage::Start => seq![("type"@, "start"@)],
        OutboundMessage::TextDelta { delta } => seq![("type"@, "text_delta"@), ("delta"@, delta@)],
        OutboundMessage::ToolCallUpdate { tool_call_id, status } => seq![
            ("type"@, "tool_call_update"@),
            ("tool_call_id"@, tool_call_id@),
            ("status"@, tool_call_status_text(status)),
        ],
        OutboundMessage::PermissionRequest { tool_call_id } => seq![
            ("type"@, "permission_request"@),
            ("tool_call_id"@, tool_call_id@),
        ],
        OutboundMessage::Done => seq![("type"@, "done"@)],
        OutboundMessage::Error { message } => seq![("type"@, "error"@), ("message"@, message@)],
    }
}

fn field(key: &str, value: String) -> (r: (String, String))
    ensures
        r.deep_view() == (key@, value@),
{
    (key.to_owned(), value)
}

/// The fields of an outbound message's JSON object, in order: its `type`,
/// then the message's own string fields.
pub fn outbound_fields(m: &OutboundMessage) -> (r: Vec<(String, String)>)
    ensures
        r.deep_view() == outbound_field_list(*m),
{
    let r = match m {
        OutboundMessage::Start => vec![field("type", String::from_str("start"))],
        OutboundMessage::TextDelta { delta } => vec![
            field("type", String::from_str("text_delta")),
            field("delta", delta.clone()),
        ],
        OutboundMessage::ToolCallUpdate { tool_call_id, status } => {
            let status_text = match status {
                ToolCallStatus::InProgress => String::from_str("in_progress"),
                ToolCallStatus::Completed => String::from_str("completed"),
            };
            vec![
                field("type", String::from_str("tool_call_update")),
                field("tool_call_id", tool_call_id.clone()),
                field("status", status_text),
            ]
        },
        OutboundMessage::PermissionRequest { tool_call_id } => vec![
            field("type", String::from_str("permission_request")),
            field("tool_call_id", tool_call_id.clone()),
        ],
        OutboundMessage::Done => vec![field("type", String::from_str("done"))],
        OutboundMessage::Error { message } => vec![
            field("type", String::from_str("error")),
            field("message", message.clone()),
        ],
    };
    assert(r.deep_view() =~= outbound_field_list(*m));
    r
}

/// What the engine does after an event.
#[derive(Debug, Clone, Copy, PartialEq, Eq)]
pub enum TurnControl {
    /// Wait for the next event.
    Continue,
    /// Read the user's permission response, submit the decision, then wait
    /// for the next event.
    AwaitPermission,
    /// The turn is over.
    Finish,
}

/// What the engine remembers between events: whether the current assistant
/// message has streamed any delta.
#[derive(Debug, Clone, Copy, PartialEq, Eq)]
pub struct TurnState {
    pub saw_delta: bool,
}

/// The outcome of one event: the next state, the message to write, if any,
/// and what to do next.
#[derive(Debug, Clone, PartialEq, Eq)]
pub struct TurnStep {
    pub state: TurnState,
    pub emit: Option<OutboundMessage>,
    pub control: TurnControl,
}

/// The engine's answer to one event.
///
/// Streamed deltas are forwarded as they come. The complete assistant message
/// is forwarded only when nothing of it streamed, and only when it is not
/// empty, so the stream carries the assistant's text once.
pub open spec fn turn_step_spec(state: TurnState, event: AgentEvent) -> TurnStep {
    match event {
        AgentEvent::AgentMessageDelta { delta } => TurnStep {
            state: TurnState { saw_delta: true },
            emit: Some(OutboundMessage::TextDelta { delta }),
            control: TurnControl::Continue,
        },
        AgentEvent::AgentMessage { message } => TurnStep {
            state: TurnState { saw_delta: false },
            emit: if !state.saw_delta && message@.len() != 0 {
                Some(OutboundMessage::TextDelta { delta: message })
            } else {
                None
            },
            control: TurnControl::Continue,
        },
        AgentEvent::ExecCommandBegin { call_id } => TurnStep {
            state,
            emit: Some(
                OutboundMessage::ToolCallUpdate { tool_call_id: call_id, status: ToolCallStatus::InProgress },
            ),
            control: TurnControl::Continue,
        },
        AgentEvent::ExecCommandEnd { call_id } => TurnStep {
            state,
            emit: Some(
                OutboundMessage::ToolCallUpdate { tool_call_id: call_id, status: ToolCallStatus::Completed },
            ),
            control: TurnControl::Continue,
        },
        AgentEvent::ExecApprovalRequest { call_id } => TurnStep {
            state,
            emit: Some(OutboundMessage::PermissionRequest { tool_call_id: call_id }),
            control: TurnControl::AwaitPermission,
        },
        AgentEvent::TurnComplete => TurnStep {
            state,
            emit: Some(OutboundMessage::Done),
            control: TurnControl::Finish,
        },
        AgentEvent::Error { message } => TurnStep {
            state,
            emit: Some(OutboundMessage::Error { message }),
            control: TurnControl::Finish,
        },
        AgentEvent::Other => TurnStep { state, emit: None, control: TurnControl::Continue },
    }
}

/// The engine's answer to one event; see [`turn_step_spec`].
pub fn turn_step(state: TurnState, event: AgentEvent) -> (r: TurnStep)
    ensures
        r == turn_step_spec(state, event),
{
    match event {
        AgentEvent::AgentMessageDelta { delta } => TurnStep {
            state: TurnState { saw_delta: true },
            emit: Some(OutboundMessage::TextDelta { delta }),
            control: TurnControl::Continue,
        },
        AgentEvent::AgentMessage { message } => {
            let emit = if !state.saw_delta && !message.as_str().is_empty() {
                Some(OutboundMessage::TextDelta { delta: message })
            } else {
                None
            };
            TurnStep { state: TurnState { saw_delta: false }, emit, control: TurnControl::Continue }
        },
        AgentEvent::ExecCommandBegin { call_id } => TurnStep {
            state,
            emit: Some(
                OutboundMessage::ToolCallUpdate { tool_call_id: call_id, status: ToolCallStatus::InProgress },
            ),
            control: TurnControl::Continue,
        },
        AgentEvent::ExecCommandEnd { call_id } => TurnStep {
            state,
            emit: Some(
                OutboundMessage::ToolCallUpdate { tool_call_id: call_id, status: ToolCallStatus::Completed },
            ),
            control: TurnControl::Continue,
        },
        AgentEvent::ExecApprovalRequest { call_id } => TurnStep {
            state,
            emit: Some(OutboundMessage::PermissionRequest { tool_call_id: call_id }),
            control: TurnControl::AwaitPermission,
        },
        AgentEvent::TurnComplete => TurnStep {
            state,
            emit: Some(OutboundMessage::Done),
            control: TurnControl::Finish,
        },
        AgentEvent::Error { message } => TurnStep {
            state,
            emit: Some(OutboundMessage::Error { message }),
            control: TurnControl::Finish,
        },
        AgentEvent::Other => TurnStep { state, emit: None, control: TurnControl::Continue },
    }
}

/// The user's answer to a permission request.
#[derive(Debug, Clone, Copy, PartialEq, Eq)]
pub enum ReviewDecision {
    Approved,
    Denied,
}

/// The decisions that approve a request.
pub open spec fn approves(decision: Seq<char>) -> bool {
    decision == "allow"@ || decision == "approve"@ || decision == "allow_always"@
}

/// The decision of a permission response from its `decision` field: approved
/// for `"allow"`, `"approve"` and `"allow_always"`; denied for anything else,
/// a missing field included.
pub fn approval_decision(decision: Option<&str>) -> (r: ReviewDecision)
    ensures
        r == if decision matches Some(d) && approves(d@) {
            ReviewDecision::Approved
        } else {
            ReviewDecision::Denied
        },
{
    match decision {
        Some(d) => {
            if crate::env::str_eq(d, "allow") || crate::env::str_eq(d, "approve")
                || crate::env::str_eq(d, "allow_always") {
                ReviewDecision::Approved
            } else {
                ReviewDecision::Denied
            }
        },
        None => ReviewDecision::Denied,
    }
}

/// The history entry that a JSON document holds: its `role` and `content`
/// where they are JSON strings.
pub open spec fn history_entry_of(e: JsonValue) -> HistoryEntry {
    HistoryEntry { role: string_field(e, "role"@), content: string_field(e, "content"@) }
}

/// `m` is the start message that the JSON document `v` holds: `model`,
/// `cwd` and `prompt` where they are JSON strings, and `history` where it
/// is an array, one entry per element.
pub open spec fn start_message_of(v: JsonValue, m: StartMessage) -> bool {
    &&& m.model == string_field(v, "model"@)
    &&& m.cwd == string_field(v, "cwd"@)
    &&& m.prompt == string_field(v, "prompt"@)
    &&& match object_field(v, "history"@) {
        Some(JsonValue::Array(items)) => m.history matches Some(h) && h@.len() == items@.len()
            && forall|i: int| 0 <= i < h@.len() ==> #[trigger] h@[i] == history_entry_of(items@[i]),
        _ => m.history is None,
    }
}

/// The start message that a JSON document holds.
pub fn start_message_from(v: &JsonValue) -> (r: StartMessage)
    ensures
        start_message_of(*v, r),
{
    let history = match get_field(v, "history") {
        Some(JsonValue::Array(items)) => {
            let mut entries: Vec<HistoryEntry> = Vec::new();
            let mut i: usize = 0;
            while i < items.len()
                invariant
                    i <= items@.len(),
                    entries@.len() == i,
                    forall|j: int| 0 <= j < i ==> #[trigger] entries@[j] == history_entry_of(items@[j]),
                decreases items@.len() - i,
            {
                let e = HistoryEntry {
                    role: get_string_field(&items[i], "role"),
                    content: get_string_field(&items[i], "content"),
                };
                entries.push(e);
                i = i + 1;
            }
            Some(entries)
        },
        _ => None,
    };
    StartMessage {
        model: get_string_field(v, "model"),
        cwd: get_string_field(v, "cwd"),
        prompt: get_string_field(v, "prompt"),
        history,
    }
}

/// Decodes the `start` line of a turn: the JSON document of the line
/// without its surrounding white space. `None` when the line is not one
/// JSON document; the turn then fails before writing anything.
pub fn decode_start_message(line: &str) -> (r: Option<StartMessage>)
    ensures
        match json_document(trimmed(line@)) {
            Some(v) => r matches Some(m) && start_message_of(v, m),
            None => r is None,
        },
{
    match parse_json(trim_white_space(line)) {
        Some(v) => Some(start_message_from(&v)),
        None => None,
    }
}

/// Decodes a `permission_response` line: approved exactly when the line,
/// without its surrounding white space, is a JSON object whose `decision`
/// is the string `"allow"`, `"approve"` or `"allow_always"`; denied for
/// anything else, an unreadable line or a missing line (given as empty)
/// included.
pub fn decode_permission_decision(line: &str) -> (r: ReviewDecision)
    ensures
        r == match json_document(trimmed(line@)) {
            Some(v) => if str_field(v, "decision"@) matches Some(d) && approves(d) {
                ReviewDecision::Approved
            } else {
                ReviewDecision::Denied
            },
            None => ReviewDecision::Denied,
        },
{
    match parse_json(trim_white_space(line)) {
        Some(v) => match get_field(&v, "decision") {
            Some(JsonValue::String(d)) => approval_decision(Some(d.as_str())),
            _ => approval_decision(None),
        },
        None => ReviewDecision::Denied,
    }
}

/// What the stub entry point runs.
#[derive(Debug, Clone, Copy, PartialEq, Eq)]
pub enum StubMode {
    /// One session turn.
    SessionTurn,
    /// Nothing: only `--session-turn` is supported on wasm32-wasip1.
    Unsupported,
}

/// The session turn when the first argument after the program name is
/// `--session-turn`; nothing otherwise.
pub fn stub_mode(args: &Vec<String>) -> (r: StubMode)
    ensures
        r == if args@.len() > 1 && args@[1]@ == "--session-turn"@ {
            StubMode::SessionTurn
        } else {
            StubMode::Unsupported
        },
{
    if args.len() > 1 && crate::env::str_eq(args[1].as_str(), "--session-turn") {
        StubMode::SessionTurn
    } else {
        StubMode::Unsupported
    }
}

/// The notice of the stub entry point when it runs nothing.
pub fn unsupported_mode_notice() -> (r: String)
    ensures
        r@ == "codex-exec: only --session-turn is supported on wasm32-wasip1"@,
{
    String::from_str("codex-exec: only --session-turn is supported on wasm32-wasip1")
}

/// The state after a run of events, and the messages written for them, while
/// none of the events ends the turn.
pub open spec fn turn_outputs(state: TurnState, events: Seq<AgentEvent>) -> (TurnState, Seq<OutboundMessage>)
    decreases events.len(),
{
    if events.len() == 0 {
        (state, Seq::empty())
    } else {
        let (s, out) = turn_outputs(state, events.drop_last());
        let step = turn_step_spec(s, events.last());
        (
            step.state,
            match step.emit {
                Some(m) => out.push(m),
                None => out,
            },
        )
    }
}

/// The events of a streamed run of deltas.
pub open spec fn delta_events(deltas: Seq<String>) -> Seq<AgentEvent> {
    deltas.map_values(|d: String| AgentEvent::AgentMessageDelta { delta: d })
}

/// The text messages that forward a run of deltas.
pub open spec fn delta_messages(deltas: Seq<String>) -> Seq<OutboundMessage> {
    deltas.map_values(|d: String| OutboundMessage::TextDelta { delta: d })
}

proof fn lemma_deltas_forwarded(state: TurnState, deltas: Seq<String>)
    ensures
        turn_outputs(state, delta_events(deltas)).1 == delta_messages(deltas),
        deltas.len() > 0 ==> turn_outputs(state, delta_events(deltas)).0.saw_delta,
        deltas.len() == 0 ==> turn_outputs(state, delta_events(deltas)).0 == state,
    decreases deltas.len(),
{
    if deltas.len() > 0 {
        let init = deltas.drop_last();
        assert(delta_events(deltas).drop_last() =~= delta_events(init));
        assert(delta_messages(deltas) =~= delta_messages(init).push(
            OutboundMessage::TextDelta { delta: deltas.last() },
        ));
        lemma_deltas_forwarded(state, init);
    } else {
        assert(delta_events(deltas) =~= Seq::<AgentEvent>::empty());
        assert(delta_messages(deltas) =~= Seq::<OutboundMessage>::empty());
    }
}

/// The assistant's text reaches the stream exactly once per message: a
/// message whose deltas streamed is forwarded as those deltas alone, in order;
/// a message that streamed nothing is forwarded whole, unless it is empty.
/// Either way the next message starts with nothing streamed.
pub proof fn lemma_assistant_text_written_once(deltas: Seq<String>, message: String)
    ensures
        ({
            let (s, out) = turn_outputs(
                TurnState { saw_delta: false },
                delta_events(deltas).push(AgentEvent::AgentMessage { message }),
            );
            &&& !s.saw_delta
            &&& out == if deltas.len() > 0 {
                delta_messages(deltas)
            } else if message@.len() > 0 {
                seq![OutboundMessage::TextDelta { delta: message }]
            } else {
                Seq::<OutboundMessage>::empty()
            }
        }),
{
    let start = TurnState { saw_delta: false };
    let events = delta_events(deltas).push(AgentEvent::AgentMessage { message });
    assert(events.drop_last() =~= delta_events(deltas));
    lemma_deltas_forwarded(start, deltas);
    if deltas.len() == 0 {
        assert(delta_messages(deltas) =~= Seq::<OutboundMessage>::empty());
        assert(Seq::<OutboundMessage>::empty().push(OutboundMessage::TextDelta { delta: message })
            =~= seq![OutboundMessage::TextDelta { delta: message }]);
    }
}

/// Whether the current assistant message has streamed a delta after a run
/// of events that began with `saw_delta`: a delta since the last complete
/// message, or, when the run holds no complete message, `saw_delta` or any
/// delta.
pub open spec fn streamed_since_message(saw_delta: bool, events: Seq<AgentEvent>) -> bool
    decreases events.len(),
{
    if events.len() == 0 {
        saw_delta
    } else {
        match events.last() {
            AgentEvent::AgentMessageDelta { .. } => true,
            AgentEvent::AgentMessage { .. } => false,
            _ => streamed_since_message(saw_delta, events.drop_last()),
        }
    }
}

/// Over any run of events, the engine remembers exactly whether the current
/// assistant message has streamed.
pub proof fn lemma_turn_state_tracks_streaming(state: TurnState, events: Seq<AgentEvent>)
    ensures
        turn_outputs(state, events).0.saw_delta == streamed_since_message(state.saw_delta, events),
    decreases events.len(),
{
    if events.len() > 0 {
        lemma_turn_state_tracks_streaming(state, events.drop_last());
    }
}

/// Over any run of events, every streamed delta is written as it comes, and
/// a complete assistant message is written whole exactly when nothing of it
/// streamed and it is not empty; either way the next message starts with
/// nothing streamed.
pub proof fn lemma_assistant_text_written_once_in_any_run(
    state: TurnState,
    events: Seq<AgentEvent>,
    event: AgentEvent,
)
    ensures
        event matches AgentEvent::AgentMessageDelta { delta } ==> {
            &&& turn_outputs(state, events.push(event)).1 == turn_outputs(state, events).1.push(
                OutboundMessage::TextDelta { delta },
            )
            &&& turn_outputs(state, events.push(event)).0.saw_delta
        },
        event matches AgentEvent::AgentMessage { message } ==> {
            &&& turn_outputs(state, events.push(event)).1 == if !streamed_since_message(
                state.saw_delta,
                events,
            ) && message@.len() != 0 {
                turn_outputs(state, events).1.push(OutboundMessage::TextDelta { delta: message })
            } else {
                turn_outputs(state, events).1
            }
            &&& !turn_outputs(state, events.push(event)).0.saw_delta
        },
{
    lemma_turn_state_tracks_streaming(state, events);
    assert(events.push(event).drop_last() =~= events);
}

/// Entries without text do not change the replay: inserting an entry whose
/// content is missing, empty or not a string anywhere in the history leaves
/// the replayed messages as they were.
pub proof fn lemma_replay_ignores_entries_without_text(entries: Seq<HistoryEntry>, i: int, e: HistoryEntry)
    requires
        0 <= i <= entries.len(),
        entry_text(e).len() == 0,
    ensures
        replayed_messages(entries.insert(i, e)) == replayed_messages(entries),
    decreases entries.len(),
{
    let longer = entries.insert(i, e);
    if i == entries.len() {
        assert(longer.drop_last() =~= entries);
    } else {
        let init = entries.drop_last();
        lemma_replay_ignores_entries_without_text(init, i, e);
        assert(longer.drop_last() =~= init.insert(i, e));
        assert(longer.last() == entries.last());
    }
}

/// Command events are reported as tool-call updates whatever has streamed:
/// a started command as in progress, an ended one as completed, each under
/// the command's own call id; the engine's state is left as it was and the
/// turn goes on.
pub proof fn lemma_tool_call_updates_report_the_command(state: TurnState, call_id: String)
    ensures
        turn_step_spec(state, AgentEvent::ExecCommandBegin { call_id }) == (TurnStep {
            state,
            emit: Some(
                OutboundMessage::ToolCallUpdate { tool_call_id: call_id, status: ToolCallStatus::InProgress },
            ),
            control: TurnControl::Continue,
        }),
        turn_step_spec(state, AgentEvent::ExecCommandEnd { call_id }) == (TurnStep {
            state,
            emit: Some(
                OutboundMessage::ToolCallUpdate { tool_call_id: call_id, status: ToolCallStatus::Completed },
            ),
            control: TurnControl::Continue,
        }),
        forall|other: TurnState|
            #![trigger turn_step_spec(other, AgentEvent::ExecCommandEnd { call_id })]
            turn_step_spec(other, AgentEvent::ExecCommandEnd { call_id }).emit == turn_step_spec(
                state,
                AgentEvent::ExecCommandEnd { call_id },
            ).emit && turn_step_spec(other, AgentEvent::ExecCommandBegin { call_id }).emit
                == turn_step_spec(state, AgentEvent::ExecCommandBegin { call_id }).emit,
{
}

/// Every outbound line names its kind first under `type`, and carries the
/// message's own strings unchanged: the delta, the tool call id (whatever
/// the status), the error message; a tool-call status reads `in_progress`
/// or `completed`.
pub proof fn lemma_outbound_fields_carry_message(m: OutboundMessage)
    ensures
        outbound_field_list(m).len() >= 1,
        outbound_field_list(m)[0].0 == "type"@,
        m matches OutboundMessage::TextDelta { delta } ==> outbound_field_list(m) == seq![
            ("type"@, "text_delta"@),
            ("delta"@, delta@),
        ],
        m matches OutboundMessage::ToolCallUpdate { tool_call_id, status } ==> {
            &&& outbound_field_list(m).len() == 3
            &&& outbound_field_list(m)[0] == ("type"@, "tool_call_update"@)
            &&& outbound_field_list(m)[1] == ("tool_call_id"@, tool_call_id@)
            &&& outbound_field_list(m)[2] == ("status"@, if status == ToolCallStatus::Completed {
                "completed"@
            } else {
                "in_progress"@
            })
        },
        m matches OutboundMessage::PermissionRequest { tool_call_id } ==> outbound_field_list(m)
            == seq![("type"@, "permission_request"@), ("tool_call_id"@, tool_call_id@)],
        m matches OutboundMessage::Error { message } ==> outbound_field_list(m) == seq![
            ("type"@, "error"@),
            ("message"@, message@),
        ],
        m is Start ==> outbound_field_list(m) == seq![("type"@, "start"@)],
        m is Done ==> outbound_field_list(m) == seq![("type"@, "done"@)],
{
}

/// The replay is the history's entries with text, in order, each as its
/// role, whether that role is `"assistant"`, and its text: no entry with
/// text is dropped, none is reordered, none is added.
pub proof fn lemma_replay_is_every_entry_with_text(entries: Seq<HistoryEntry>)
    ensures
        replayed_messages(entries) == entries.filter(|e: HistoryEntry| entry_text(e).len() > 0).map_values(
            |e: HistoryEntry| (entry_role(e), entry_role(e) == "assistant"@, entry_text(e)),
        ),
        replayed_messages(entries).len() == entries.filter(|e: HistoryEntry| entry_text(e).len() > 0).len(),
    decreases entries.len(),
{
    reveal(Seq::filter);
    let has_text = |e: HistoryEntry| entry_text(e).len() > 0;
    let summary = |e: HistoryEntry| (entry_role(e), entry_role(e) == "assistant"@, entry_text(e));
    if entries.len() > 0 {
        lemma_replay_is_every_entry_with_text(entries.drop_last());
        let rest = entries.drop_last().filter(has_text);
        if has_text(entries.last()) {
            assert(rest.push(entries.last()).map_values(summary) =~= rest.map_values(summary).push(
                summary(entries.last()),
            ));
        }
    } else {
        assert(entries.filter(has_text).map_values(summary) =~= Seq::empty());
    }
}

/// Appending an entry with text to the history appends exactly its
/// message to the replay; appending one without text changes nothing.
pub proof fn lemma_replay_append(entries: Seq<HistoryEntry>, e: HistoryEntry)
    ensures
        entry_text(e).len() > 0 ==> replayed_messages(entries.push(e)) == replayed_messages(entries).push(
            (entry_role(e), entry_role(e) == "assistant"@, entry_text(e)),
        ),
        entry_text(e).len() == 0 ==> replayed_messages(entries.push(e)) == replayed_messages(entries),
        replayed_messages(entries.push(e)).len() == replayed_messages(entries).len() + if entry_text(e).len()
            > 0 {
            1int
        } else {
            0int
        },
{
    assert(entries.push(e).drop_last() =~= entries);
}

/// A turn ends exactly on the agent's completion or failure, and `done` is
/// written exactly on completion.
pub proof fn lemma_turn_ends_on_completion_or_error(state: TurnState, event: AgentEvent)
    ensures
        turn_step_spec(state, event).control == TurnControl::Finish <==> (event is TurnComplete
            || event is Error),
        turn_step_spec(state, event).emit == Some(OutboundMessage::Done) <==> event is TurnComplete,
        turn_step_spec(state, event).control == TurnControl::AwaitPermission <==> event is ExecApprovalRequest,
{
}

/// A replayed message never has empty text, and there are never more
/// replayed messages than history entries.
pub proof fn lemma_replayed_messages_have_text(entries: Seq<HistoryEntry>)
    ensures
        replayed_messages(entries).len() <= entries.len(),
        forall|i: int|
            0 <= i < replayed_messages(entries).len() ==> #[trigger] replayed_messages(entries)[i].2.len() > 0,
    decreases entries.len(),
{
    if entries.len() > 0 {
        lemma_replayed_messages_have_text(entries.drop_last());
    }
}

/// A turn resumes a thread exactly when some history entry has text.
pub proof fn lemma_resume_iff_history_has_text(entries: Seq<HistoryEntry>)
    ensures
        replayed_messages(entries).len() == 0 <==> forall|i: int|
            0 <= i < entries.len() ==> #[trigger] entry_text(entries[i]).len() == 0,
    decreases entries.len(),
{
    if entries.len() > 0 {
        let init = entries.drop_last();
        lemma_resume_iff_history_has_text(init);
        if replayed_messages(entries).len() == 0 {
            assert forall|i: int| 0 <= i < entries.len() implies #[trigger] entry_text(entries[i]).len() == 0 by {
                if i < init.len() {
                    assert(entries[i] == init[i]);
                    assert(entry_text(init[i]).len() == 0);
                }
            }
        } else {
            if forall|i: int| 0 <= i < entries.len() ==> #[trigger] entry_text(entries[i]).len() == 0 {
                assert forall|i: int| 0 <= i < init.len() implies #[trigger] entry_text(init[i]).len() == 0 by {
                    assert(init[i] == entries[i]);
                }
                assert(entry_text(entries[entries.len() - 1]).len() == 0);
            }
        }
    }
}

} // verus!
