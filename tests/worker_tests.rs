use open_cowork::text::is_blank_text;
use open_cowork::worker::{validate_message, SessionWorker, WorkerAction, WorkerRequest, WorkerSlot};

fn prompt(session_id: Option<&str>, message: &str) -> WorkerRequest {
    WorkerRequest::Prompt {
        session_id: session_id.map(|s| s.to_string()),
        message: message.to_string(),
    }
}

#[test]
fn empty_message_is_rejected() {
    assert_eq!(validate_message(""), Err("Message cannot be empty".to_string()));
}

#[test]
fn whitespace_message_is_rejected() {
    assert_eq!(validate_message("  \t\n \u{3000}"), Err("Message cannot be empty".to_string()));
}

#[test]
fn message_with_text_is_accepted() {
    assert_eq!(validate_message("  hello  "), Ok(()));
    assert_eq!(validate_message("x"), Ok(()));
}

#[test]
fn blank_text_goes_by_trimming() {
    assert!(is_blank_text(" \r\n"));
    assert!(!is_blank_text(" a "));
    assert!(!is_blank_text("\u{200b}"));
}

#[test]
fn new_session_requests_track_latest() {
    let mut w = SessionWorker::new(Some("s0".to_string()));
    for id in ["s1", "s2", "s3"] {
        assert!(w.is_ready());
        assert_eq!(w.handle_request(WorkerRequest::NewSession), WorkerAction::CreateSession);
        assert!(w.is_creating_session());
        assert_eq!(w.session_created(Ok(id.to_string())), WorkerAction::Reply(Ok(id.to_string())));
        assert_eq!(w.default_session(), Some(id.to_string()));
    }
}

#[test]
fn failed_new_session_keeps_default() {
    let mut w = SessionWorker::new(Some("s0".to_string()));
    assert_eq!(w.handle_request(WorkerRequest::NewSession), WorkerAction::CreateSession);
    assert_eq!(
        w.session_created(Err("new_session failed: boom".to_string())),
        WorkerAction::Reply(Err("new_session failed: boom".to_string()))
    );
    assert!(w.is_ready());
    assert_eq!(w.default_session(), Some("s0".to_string()));
}

#[test]
fn explicit_prompt_keeps_default() {
    let mut w = SessionWorker::new(Some("s0".to_string()));
    assert_eq!(
        w.handle_request(prompt(Some("other"), "hi")),
        WorkerAction::SendPrompt { session_id: "other".to_string(), message: "hi".to_string() }
    );
    assert!(w.is_prompting());
    assert_eq!(w.prompt_finished(Ok(())), WorkerAction::CollectOutput { settle: true });
    assert_eq!(w.output_collected("out".to_string()), WorkerAction::Reply(Ok("out".to_string())));
    assert_eq!(w.default_session(), Some("s0".to_string()));
}

#[test]
fn implicit_prompt_uses_default() {
    let mut w = SessionWorker::new(Some("s0".to_string()));
    assert_eq!(
        w.handle_request(prompt(None, "hi")),
        WorkerAction::SendPrompt { session_id: "s0".to_string(), message: "hi".to_string() }
    );
}

#[test]
fn failed_prompt_replies_error_without_settling() {
    let mut w = SessionWorker::new(Some("s0".to_string()));
    w.handle_request(prompt(None, "hi"));
    assert_eq!(
        w.prompt_finished(Err("prompt failed: x".to_string())),
        WorkerAction::CollectOutput { settle: false }
    );
    assert!(w.is_collecting());
    assert_eq!(
        w.output_collected("partial".to_string()),
        WorkerAction::Reply(Err("prompt failed: x".to_string()))
    );
    assert!(w.is_ready());
}

#[test]
fn two_prompts_on_fresh_worker_create_one_session() {
    let mut w = SessionWorker::new(None);
    let mut created = 0;
    let mut replies = Vec::new();
    for msg in ["first", "second"] {
        let mut action = w.handle_request(prompt(None, msg));
        loop {
            action = match action {
                WorkerAction::CreateSession => {
                    created += 1;
                    w.session_created(Ok(format!("sess-{created}")))
                }
                WorkerAction::SendPrompt { session_id, message } => {
                    assert_eq!(session_id, "sess-1");
                    assert_eq!(message, msg);
                    w.prompt_finished(Ok(()))
                }
                WorkerAction::CollectOutput { settle } => {
                    assert!(settle);
                    w.output_collected(format!("reply to {msg}"))
                }
                WorkerAction::Reply(r) => {
                    replies.push(r);
                    break;
                }
            };
        }
    }
    assert_eq!(created, 1);
    assert_eq!(w.default_session(), Some("sess-1".to_string()));
    assert_eq!(
        replies,
        vec![Ok("reply to first".to_string()), Ok("reply to second".to_string())]
    );
}

#[test]
fn failed_implicit_session_replies_error() {
    let mut w = SessionWorker::new(None);
    assert_eq!(w.handle_request(prompt(None, "hi")), WorkerAction::CreateSession);
    assert_eq!(
        w.session_created(Err("new_session failed: no".to_string())),
        WorkerAction::Reply(Err("new_session failed: no".to_string()))
    );
    assert_eq!(w.default_session(), None);
    assert_eq!(w.handle_request(prompt(None, "again")), WorkerAction::CreateSession);
}

#[test]
fn start_failure_is_cached() {
    let mut slot: WorkerSlot<u32> = WorkerSlot::new();
    assert!(!slot.is_started());
    slot.record_start(Err("Agent binary not found at /x".to_string()));
    assert!(slot.is_started());
    assert_eq!(slot.worker(), Err("Agent binary not found at /x".to_string()));
    slot.record_start(Ok(7));
    assert_eq!(slot.worker(), Err("Agent binary not found at /x".to_string()));
}

#[test]
fn start_success_is_kept() {
    let mut slot: WorkerSlot<u32> = WorkerSlot::new();
    slot.record_start(Ok(7));
    slot.record_start(Err("late".to_string()));
    assert_eq!(slot.worker(), Ok(&7));
}
