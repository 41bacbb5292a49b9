use acp_bridge::errors::{AcpError, INTERNAL_ERROR_CODE};
use acp_bridge::session::{ContentBlock, Notification, SessionId, SessionUpdate};
use acp_bridge::worker::RaceEvent;
use acp_bridge::state::{prompt_reply, PromptDelivery};
use acp_bridge::worker::{
    run_prompt, run_worker, Command, PromptJob, PromptReply, PromptResult, ShutdownAction,
    StopReason, Worker, WorkerPhase,
};

fn sid(s: &str) -> SessionId {
    SessionId::new(String::from(s))
}

fn text_chunk(session: &str, text: &str) -> Notification {
    Notification {
        session_id: sid(session),
        update: SessionUpdate::AgentMessageChunk {
            content: ContentBlock::Text(String::from(text)),
        },
    }
}

fn end_turn() -> Result<PromptReply, AcpError> {
    Ok(PromptReply { stop_reason: StopReason::EndTurn, meta: None })
}

#[test]
fn prompt_sends_command_and_returns_response() {
    let command = Command::Prompt {
        text: String::from("hello world"),
    };
    match command {
        Command::Prompt { text } => assert_eq!(text, "hello world"),
    }
    let response = PromptResult {
        stop_reason: StopReason::EndTurn,
        meta: None,
        text: String::from("hi there"),
    };
    let result = prompt_reply(PromptDelivery::Replied(Ok(response))).expect("prompt succeeds");
    assert_eq!(result.stop_reason, StopReason::EndTurn);
    assert_eq!(result.text, "hi there");
}

#[test]
fn chunks_accumulate_in_order() {
    let events = vec![
        RaceEvent::Notification(text_chunk("s-1", "a")),
        RaceEvent::Notification(text_chunk("s-1", "b")),
        RaceEvent::Notification(text_chunk("s-1", "c")),
        RaceEvent::Resolved(end_turn()),
    ];
    let result = run_prompt(&sid("s-1"), events, &Vec::new()).expect("prompt resolves");
    assert_eq!(result.text, "abc");
    assert_eq!(result.stop_reason, StopReason::EndTurn);
}

#[test]
fn foreign_session_chunks_are_ignored() {
    let events = vec![
        RaceEvent::Notification(text_chunk("s-1", "keep ")),
        RaceEvent::Notification(text_chunk("other", "DROP")),
        RaceEvent::Notification(text_chunk("s-1", "this")),
        RaceEvent::Resolved(end_turn()),
    ];
    let result = run_prompt(&sid("s-1"), events, &Vec::new()).expect("prompt resolves");
    assert_eq!(result.text, "keep this");
}

#[test]
fn non_text_updates_are_ignored() {
    let events = vec![
        RaceEvent::Notification(Notification {
            session_id: sid("s-1"),
            update: SessionUpdate::Other,
        }),
        RaceEvent::Notification(Notification {
            session_id: sid("s-1"),
            update: SessionUpdate::AgentMessageChunk {
                content: ContentBlock::Other,
            },
        }),
        RaceEvent::Notification(text_chunk("s-1", "only text")),
        RaceEvent::Resolved(end_turn()),
    ];
    let result = run_prompt(&sid("s-1"), events, &Vec::new()).expect("prompt resolves");
    assert_eq!(result.text, "only text");
}

#[test]
fn trailing_buffered_chunks_are_drained() {
    let events = vec![
        RaceEvent::Notification(text_chunk("s-1", "before")),
        RaceEvent::Resolved(end_turn()),
    ];
    let trailing = vec![text_chunk("s-1", " after"), text_chunk("other", "DROP")];
    let result = run_prompt(&sid("s-1"), events, &trailing).expect("prompt resolves");
    assert_eq!(result.text, "before after");
}

#[test]
fn closed_stream_yields_cancellation_error() {
    let events = vec![
        RaceEvent::Notification(text_chunk("s-1", "partial")),
        RaceEvent::Closed,
    ];
    let err = run_prompt(&sid("s-1"), events, &Vec::new()).expect_err("prompt cancelled");
    assert_eq!(err.code, INTERNAL_ERROR_CODE);
    assert_eq!(err.message, "Prompt cancelled");
}

#[test]
fn exhausted_events_yield_cancellation_error() {
    let err = run_prompt(&sid("s-1"), Vec::new(), &Vec::new()).expect_err("prompt cancelled");
    assert_eq!(err.code, INTERNAL_ERROR_CODE);
    assert_eq!(err.message, "Prompt cancelled");
}

#[test]
fn failed_prompt_passes_error_through() {
    let events = vec![RaceEvent::Resolved(Err(AcpError {
        code: -32000,
        message: String::from("agent broke"),
    }))];
    let err = run_prompt(&sid("s-1"), events, &Vec::new()).expect_err("prompt fails");
    assert_eq!(err.code, -32000);
    assert_eq!(err.message, "agent broke");
}

#[test]
fn prompt_meta_is_carried_through() {
    let events = vec![RaceEvent::Resolved(Ok(PromptReply {
        stop_reason: StopReason::MaxTokens,
        meta: Some(serde_json::Value::Bool(true)),
    }))];
    let result = run_prompt(&sid("s-1"), events, &Vec::new()).expect("prompt resolves");
    assert_eq!(result.stop_reason, StopReason::MaxTokens);
    assert!(matches!(result.meta, Some(serde_json::Value::Bool(true))));
}

#[test]
fn every_command_answered_once_in_order() {
    let jobs = vec![
        PromptJob {
            command: Command::Prompt {
                text: String::from("first"),
            },
            events: vec![
                RaceEvent::Notification(text_chunk("s-1", "one")),
                RaceEvent::Resolved(end_turn()),
            ],
            trailing: Vec::new(),
        },
        PromptJob {
            command: Command::Prompt {
                text: String::from("second"),
            },
            events: vec![
                RaceEvent::Notification(text_chunk("s-1", "two")),
                RaceEvent::Resolved(end_turn()),
            ],
            trailing: Vec::new(),
        },
    ];
    let (replies, action) = run_worker(sid("s-1"), jobs);
    assert_eq!(replies.len(), 2);
    assert_eq!(replies[0].as_ref().expect("first resolves").text, "one");
    assert_eq!(replies[1].as_ref().expect("second resolves").text, "two");
    assert_eq!(action, ShutdownAction::KillAndWait);
}

#[test]
fn queue_closure_requests_subprocess_termination() {
    let mut worker = Worker::new(sid("s-1"));
    assert_eq!(worker.phase, WorkerPhase::Idle);
    let action = worker.queue_closed();
    assert_eq!(action, ShutdownAction::KillAndWait);
    assert_eq!(worker.phase, WorkerPhase::ShutDown);
}

#[test]
fn prompt_call_carries_single_text_block() {
    let mut worker = Worker::new(sid("s-1"));
    let (call, reply) = worker.handle_command(
        Command::Prompt {
            text: String::from("hello world"),
        },
        vec![RaceEvent::Resolved(end_turn())],
        &Vec::new(),
    );
    assert_eq!(call.session_id.id, "s-1");
    assert_eq!(call.content.len(), 1);
    match &call.content[0] {
        ContentBlock::Text(t) => assert_eq!(t, "hello world"),
        ContentBlock::Other => panic!("expected a text block"),
    }
    assert_eq!(reply.expect("prompt resolves").text, "");
}
