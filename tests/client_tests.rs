use agent_client_protocol::schema::{ContentBlock, ContentChunk, Plan, SessionUpdate, TextContent};
use open_cowork::client::{AcpClient, ClientError, FileOp, PermissionOutcome};
use open_cowork::content::{display_text, ContentKind, UpdateKind};
use open_cowork::event_bus::AgentEvent;

fn text_update(t: &str) -> SessionUpdate {
    SessionUpdate::AgentMessageChunk(ContentChunk::new(ContentBlock::Text(TextContent::new(t))))
}

fn comps(parts: &[&str]) -> Option<Vec<String>> {
    Some(parts.iter().map(|p| p.to_string()).collect())
}

fn chunk(sid: &str, content: &str) -> AgentEvent {
    AgentEvent::Chunk { session_id: sid.to_string(), content: content.to_string() }
}

#[test]
fn display_text_of_each_kind() {
    assert_eq!(display_text(ContentKind::Text("hi".to_string())), "hi");
    assert_eq!(display_text(ContentKind::Image), "<image>");
    assert_eq!(display_text(ContentKind::Audio), "<audio>");
    assert_eq!(display_text(ContentKind::ResourceLink), "<resource_link>");
    assert_eq!(display_text(ContentKind::Resource), "<resource>");
    assert_eq!(display_text(ContentKind::Unknown), "<unknown>");
}

#[test]
fn turn_output_joins_message_chunks() {
    let mut c = AcpClient::new();
    c.begin_turn("s1".to_string());
    c.session_notification(text_update("Hello"), UpdateKind::AgentMessageChunk(ContentKind::Text("Hello".to_string())));
    c.session_notification(text_update("think"), UpdateKind::AgentThoughtChunk(ContentKind::Text("think".to_string())));
    c.session_notification(SessionUpdate::Plan(Plan::new(vec![])), UpdateKind::Plan);
    c.session_notification(text_update("img"), UpdateKind::AgentMessageChunk(ContentKind::Image));
    c.session_notification(text_update("user"), UpdateKind::UserMessageChunk);
    c.session_notification(text_update("World"), UpdateKind::AgentMessageChunk(ContentKind::Text("World".to_string())));
    assert_eq!(c.take_output(), "Hello\n<image>\nWorld");
    assert_eq!(c.take_output(), "");
}

#[test]
fn notifications_without_session_publish_nothing() {
    let mut c = AcpClient::new();
    let evs = c.session_notification(text_update("a"), UpdateKind::AgentMessageChunk(ContentKind::Text("a".to_string())));
    assert!(evs.is_empty());
    assert_eq!(c.take_output(), "a");
}

#[test]
fn message_chunks_publish_separator_then_text() {
    let mut c = AcpClient::new();
    c.set_current_session_id(Some("s1".to_string()));
    let evs = c.session_notification(text_update("a"), UpdateKind::AgentMessageChunk(ContentKind::Text("a".to_string())));
    assert_eq!(evs.len(), 2);
    assert_eq!(evs[0], AgentEvent::Update { session_id: "s1".to_string(), update: text_update("a") });
    assert_eq!(evs[1], chunk("s1", "a"));
    let evs = c.session_notification(text_update("b"), UpdateKind::AgentMessageChunk(ContentKind::Text("b".to_string())));
    assert_eq!(evs.len(), 3);
    assert_eq!(evs[1], chunk("s1", "\n"));
    assert_eq!(evs[2], chunk("s1", "b"));
    assert_eq!(c.take_output(), "a\nb");
}

#[test]
fn thought_chunks_publish_but_do_not_accumulate() {
    let mut c = AcpClient::new();
    c.set_current_session_id(Some("s1".to_string()));
    let evs = c.session_notification(text_update("t"), UpdateKind::AgentThoughtChunk(ContentKind::Audio));
    assert_eq!(evs.len(), 2);
    assert_eq!(
        evs[1],
        AgentEvent::ThoughtChunk { session_id: "s1".to_string(), content: "<audio>".to_string() }
    );
    let evs = c.session_notification(SessionUpdate::Plan(Plan::new(vec![])), UpdateKind::Plan);
    assert_eq!(evs.len(), 1);
    assert_eq!(c.take_output(), "");
}

#[test]
fn permission_takes_first_option() {
    let c = AcpClient::new();
    assert_eq!(
        c.request_permission(&vec!["allow".to_string(), "deny".to_string()]),
        PermissionOutcome::Selected("allow".to_string())
    );
    assert_eq!(c.request_permission(&vec![]), PermissionOutcome::Cancelled);
}

#[test]
fn access_outside_workspace_is_denied() {
    let mut c = AcpClient::new();
    c.set_workspace("/home/u/proj".to_string());
    let r = c.ensure_in_workspace("/etc/passwd", &comps(&["/", "etc", "passwd"]), &comps(&["/", "home", "u", "proj"]));
    assert_eq!(
        r,
        Err(ClientError::AccessDenied { path: "/etc/passwd".to_string(), workspace: "/home/u/proj".to_string() })
    );
    assert_eq!(r.unwrap_err().code(), -1);
}

#[test]
fn sibling_with_common_prefix_is_denied() {
    let mut c = AcpClient::new();
    c.set_workspace("/w/proj".to_string());
    let r = c.ensure_in_workspace("/w/project2/a", &comps(&["/", "w", "project2", "a"]), &comps(&["/", "w", "proj"]));
    assert!(r.is_err());
}

#[test]
fn access_inside_workspace_is_allowed() {
    let mut c = AcpClient::new();
    c.set_workspace("/w".to_string());
    assert_eq!(c.ensure_in_workspace("/w/a/b.txt", &comps(&["/", "w", "a", "b.txt"]), &comps(&["/", "w"])), Ok(()));
    assert_eq!(c.ensure_in_workspace("/w", &comps(&["/", "w"]), &comps(&["/", "w"])), Ok(()));
}

#[test]
fn unresolvable_paths_skip_the_check() {
    let mut c = AcpClient::new();
    c.set_workspace("/w".to_string());
    assert_eq!(c.ensure_in_workspace("/x/new.txt", &None, &comps(&["/", "w"])), Ok(()));
    assert_eq!(c.ensure_in_workspace("/x/a", &comps(&["/", "x", "a"]), &None), Ok(()));
}

#[test]
fn no_workspace_allows_everything() {
    let c = AcpClient::new();
    assert_eq!(c.ensure_in_workspace("/etc/passwd", &comps(&["/", "etc", "passwd"]), &comps(&["/", "w"])), Ok(()));
}

#[test]
fn file_access_publishes_status_and_verdict() {
    let mut c = AcpClient::new();
    c.set_workspace("/w".to_string());
    c.set_current_session_id(Some("s".to_string()));
    let a = c.file_access(FileOp::Write, "/w/a.txt", &comps(&["/", "w", "a.txt"]), &comps(&["/", "w"]));
    assert_eq!(
        a.status,
        Some(AgentEvent::Status { session_id: "s".to_string(), status: "Writing file: /w/a.txt".to_string() })
    );
    assert_eq!(a.verdict, Ok(()));
    let a = c.file_access(FileOp::Read, "/o/b", &comps(&["/", "o", "b"]), &comps(&["/", "w"]));
    assert_eq!(
        a.status,
        Some(AgentEvent::Status { session_id: "s".to_string(), status: "Reading file: /o/b".to_string() })
    );
    assert!(matches!(a.verdict, Err(ClientError::AccessDenied { .. })));
}

#[test]
fn status_needs_a_session() {
    let c = AcpClient::new();
    assert_eq!(c.emit_status("x".to_string()), None);
}

#[test]
fn unsupported_callbacks_are_not_implemented() {
    let c = AcpClient::new();
    for r in [
        c.create_terminal(),
        c.terminal_output(),
        c.release_terminal(),
        c.wait_for_terminal_exit(),
        c.kill_terminal_command(),
        c.ext_method(),
        c.ext_notification(),
    ] {
        assert_eq!(r, Err(ClientError::MethodNotFound));
        assert_eq!(r.unwrap_err().code(), -32601);
    }
}

#[test]
fn error_codes_are_distinct() {
    assert_eq!(ClientError::DirectoryCreationFailed("e".to_string()).code(), -2);
    assert_eq!(ClientError::WriteFailed("e".to_string()).code(), -3);
    assert_eq!(ClientError::ReadFailed("e".to_string()).code(), -4);
}

#[test]
fn error_messages_name_the_cause() {
    let e = ClientError::AccessDenied { path: "/etc/x".to_string(), workspace: "/w".to_string() };
    assert_eq!(e.message(), "Access denied: /etc/x is outside workspace /w");
    assert_eq!(ClientError::DirectoryCreationFailed("denied".to_string()).message(), "Failed to create directory: denied");
    assert_eq!(ClientError::WriteFailed("full".to_string()).message(), "Failed to write file: full");
    assert_eq!(ClientError::ReadFailed("bad utf-8".to_string()).message(), "Failed to read file: bad utf-8");
    assert_eq!(ClientError::MethodNotFound.message(), "Method not found");
}

#[test]
fn begin_turn_empties_output_and_tags_session() {
    let mut c = AcpClient::new();
    c.session_notification(text_update("old"), UpdateKind::AgentMessageChunk(ContentKind::Text("old".to_string())));
    c.begin_turn("s9".to_string());
    let evs = c.session_notification(text_update("new"), UpdateKind::AgentMessageChunk(ContentKind::Text("new".to_string())));
    assert_eq!(evs.len(), 2);
    assert_eq!(evs[1], chunk("s9", "new"));
    assert_eq!(c.take_output(), "new");
}

#[test]
fn resource_links_show_one_placeholder() {
    let mut c = AcpClient::new();
    c.session_notification(text_update("a"), UpdateKind::AgentMessageChunk(ContentKind::ResourceLink));
    c.session_notification(text_update("b"), UpdateKind::AgentMessageChunk(ContentKind::ResourceLink));
    assert_eq!(c.take_output(), "<resource_link>\n<resource_link>");
}
