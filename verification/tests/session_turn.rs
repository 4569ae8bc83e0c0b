use codex_wasi_boundary::{
    approval_decision, outbound_fields, config_overrides, history_from_start, plan_thread_start,
    session_settings, stub_mode, turn_step, unsupported_mode_notice, AgentEvent, ContentItem,
    HistoryEntry, HistoryMessage, OutboundMessage, OverrideValue, ReviewDecision, StartMessage,
    StubMode, ThreadStart, ToolCallStatus, TurnControl, TurnState,
};

fn s(x: &str) -> String {
    x.to_string()
}

fn entry(role: Option<&str>, content: Option<&str>) -> HistoryEntry {
    HistoryEntry { role: role.map(s), content: content.map(s) }
}

fn start(history: Option<Vec<HistoryEntry>>) -> StartMessage {
    StartMessage { model: None, cwd: None, prompt: None, history }
}

#[test]
fn history_replays_roles_and_skips_empty_text() {
    let msg = start(Some(vec![
        entry(Some("user"), Some("hi")),
        entry(Some("assistant"), Some("hello")),
        entry(None, Some("no role")),
        entry(Some("system"), Some("odd role")),
        entry(Some("user"), Some("")),
        entry(Some("assistant"), None),
    ]));
    let items = history_from_start(&msg);
    assert_eq!(
        items,
        vec![
            HistoryMessage { role: s("user"), content: vec![ContentItem::InputText { text: s("hi") }] },
            HistoryMessage {
                role: s("assistant"),
                content: vec![ContentItem::OutputText { text: s("hello") }]
            },
            HistoryMessage { role: s("user"), content: vec![ContentItem::InputText { text: s("no role") }] },
            HistoryMessage {
                role: s("system"),
                content: vec![ContentItem::InputText { text: s("odd role") }]
            },
        ]
    );
}

#[test]
fn no_history_starts_fresh_thread() {
    assert!(history_from_start(&start(None)).is_empty());
    assert_eq!(plan_thread_start(history_from_start(&start(None))), ThreadStart::Fresh);
    let only_empty = start(Some(vec![entry(Some("user"), Some(""))]));
    assert_eq!(plan_thread_start(history_from_start(&only_empty)), ThreadStart::Fresh);
    let some = start(Some(vec![entry(Some("user"), Some("x"))]));
    match plan_thread_start(history_from_start(&some)) {
        ThreadStart::Resume(items) => assert_eq!(items.len(), 1),
        ThreadStart::Fresh => panic!("history with text must resume"),
    }
}

#[test]
fn settings_default_model_cwd_prompt() {
    let settings = session_settings(&start(None));
    assert_eq!(settings.model, "gpt-5");
    assert_eq!(settings.cwd, ".");
    assert_eq!(settings.prompt, "");
    let given = StartMessage {
        model: Some(s("o3")),
        cwd: Some(s("/work")),
        prompt: Some(s("fix it")),
        history: None,
    };
    let settings = session_settings(&given);
    assert_eq!((settings.model.as_str(), settings.cwd.as_str(), settings.prompt.as_str()), ("o3", "/work", "fix it"));
}

#[test]
fn overrides_pin_model_approvals_and_snapshot() {
    assert_eq!(
        config_overrides(s("gpt-5")),
        vec![
            (s("model"), OverrideValue::String(s("gpt-5"))),
            (s("approval_policy"), OverrideValue::String(s("on-request"))),
            (s("features.shell_snapshot"), OverrideValue::Boolean(false)),
        ]
    );
}

#[test]
fn streamed_deltas_suppress_final_message() {
    let st = TurnState { saw_delta: false };
    let a = turn_step(st, AgentEvent::AgentMessageDelta { delta: s("Hel") });
    assert_eq!(a.emit, Some(OutboundMessage::TextDelta { delta: s("Hel") }));
    assert!(a.state.saw_delta);
    let b = turn_step(a.state, AgentEvent::AgentMessageDelta { delta: s("lo") });
    assert_eq!(b.emit, Some(OutboundMessage::TextDelta { delta: s("lo") }));
    let c = turn_step(b.state, AgentEvent::AgentMessage { message: s("Hello") });
    assert_eq!(c.emit, None);
    assert!(!c.state.saw_delta);
    assert_eq!(c.control, TurnControl::Continue);
}

#[test]
fn unstreamed_message_is_emitted_whole() {
    let st = TurnState { saw_delta: false };
    let r = turn_step(st, AgentEvent::AgentMessage { message: s("Done.") });
    assert_eq!(r.emit, Some(OutboundMessage::TextDelta { delta: s("Done.") }));
    let r = turn_step(st, AgentEvent::AgentMessage { message: s("") });
    assert_eq!(r.emit, None);
}

#[test]
fn tool_calls_and_permissions() {
    let st = TurnState { saw_delta: true };
    let r = turn_step(st, AgentEvent::ExecCommandBegin { call_id: s("c1") });
    assert_eq!(
        r.emit,
        Some(OutboundMessage::ToolCallUpdate { tool_call_id: s("c1"), status: ToolCallStatus::InProgress })
    );
    assert_eq!(r.state, st);
    let r = turn_step(st, AgentEvent::ExecCommandEnd { call_id: s("c1") });
    assert_eq!(
        r.emit,
        Some(OutboundMessage::ToolCallUpdate { tool_call_id: s("c1"), status: ToolCallStatus::Completed })
    );
    let r = turn_step(st, AgentEvent::ExecApprovalRequest { call_id: s("c2") });
    assert_eq!(r.emit, Some(OutboundMessage::PermissionRequest { tool_call_id: s("c2") }));
    assert_eq!(r.control, TurnControl::AwaitPermission);
    let r = turn_step(st, AgentEvent::Other);
    assert_eq!((r.emit, r.control, r.state), (None, TurnControl::Continue, st));
}

#[test]
fn turn_finishes_on_complete_or_error() {
    let st = TurnState { saw_delta: false };
    let r = turn_step(st, AgentEvent::TurnComplete);
    assert_eq!((r.emit, r.control), (Some(OutboundMessage::Done), TurnControl::Finish));
    let r = turn_step(st, AgentEvent::Error { message: s("boom") });
    assert_eq!(
        (r.emit, r.control),
        (Some(OutboundMessage::Error { message: s("boom") }), TurnControl::Finish)
    );
}

#[test]
fn approval_decisions() {
    assert_eq!(approval_decision(Some("allow")), ReviewDecision::Approved);
    assert_eq!(approval_decision(Some("approve")), ReviewDecision::Approved);
    assert_eq!(approval_decision(Some("allow_always")), ReviewDecision::Approved);
    assert_eq!(approval_decision(Some("deny")), ReviewDecision::Denied);
    assert_eq!(approval_decision(Some("Allow")), ReviewDecision::Denied);
    assert_eq!(approval_decision(None), ReviewDecision::Denied);
}

#[test]
fn stub_runs_session_turn_only_for_its_flag() {
    let args = |xs: &[&str]| xs.iter().map(|x| x.to_string()).collect::<Vec<_>>();
    assert_eq!(stub_mode(&args(&["codex-exec", "--session-turn"])), StubMode::SessionTurn);
    assert_eq!(stub_mode(&args(&["codex-exec", "--session-turn", "x"])), StubMode::SessionTurn);
    assert_eq!(stub_mode(&args(&["codex-exec"])), StubMode::Unsupported);
    assert_eq!(stub_mode(&args(&["codex-exec", "exec", "--session-turn"])), StubMode::Unsupported);
    assert_eq!(stub_mode(&args(&[])), StubMode::Unsupported);
    assert_eq!(
        unsupported_mode_notice(),
        "codex-exec: only --session-turn is supported on wasm32-wasip1"
    );
}

#[test]
fn outbound_fields_give_wire_keys_and_values() {
    let f = |k: &str, v: &str| (k.to_string(), v.to_string());
    assert_eq!(outbound_fields(&OutboundMessage::Start), vec![f("type", "start")]);
    assert_eq!(
        outbound_fields(&OutboundMessage::TextDelta { delta: s("hi") }),
        vec![f("type", "text_delta"), f("delta", "hi")]
    );
    assert_eq!(
        outbound_fields(&OutboundMessage::ToolCallUpdate {
            tool_call_id: s("c1"),
            status: ToolCallStatus::InProgress
        }),
        vec![f("type", "tool_call_update"), f("tool_call_id", "c1"), f("status", "in_progress")]
    );
    assert_eq!(
        outbound_fields(&OutboundMessage::ToolCallUpdate {
            tool_call_id: s("c1"),
            status: ToolCallStatus::Completed
        })[2],
        f("status", "completed")
    );
    assert_eq!(
        outbound_fields(&OutboundMessage::PermissionRequest { tool_call_id: s("c2") }),
        vec![f("type", "permission_request"), f("tool_call_id", "c2")]
    );
    assert_eq!(outbound_fields(&OutboundMessage::Done), vec![f("type", "done")]);
    assert_eq!(
        outbound_fields(&OutboundMessage::Error { message: s("boom") }),
        vec![f("type", "error"), f("message", "boom")]
    );
}

#[test]
fn entries_without_text_do_not_change_replay() {
    let base = vec![entry(Some("user"), Some("a")), entry(Some("assistant"), Some("b"))];
    let padded = vec![
        entry(Some("assistant"), None),
        entry(Some("user"), Some("a")),
        entry(None, Some("")),
        entry(Some("assistant"), Some("b")),
        entry(None, None),
    ];
    assert_eq!(history_from_start(&start(Some(base))), history_from_start(&start(Some(padded))));
}
