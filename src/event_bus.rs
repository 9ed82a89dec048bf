use vstd::prelude::*;

verus! {

/// The protocol's session update record, carried through events unread.
#[verifier::external_type_specification]
#[verifier::external_body]
pub struct ExSessionUpdate(agent_client_protocol::schema::SessionUpdate);

/// A notification for observers of an agent session, tagged with its session id.
#[derive(Debug, PartialEq)]
pub enum AgentEvent {
    Status { session_id: String, status: String },
    Chunk { session_id: String, content: String },
    ThoughtChunk { session_id: String, content: String },
    Update { session_id: String, update: agent_client_protocol::schema::SessionUpdate },
}

/// `e` is a status event for session `sid` with text `text`.
pub open spec fn is_status(e: AgentEvent, sid: Seq<char>, text: Seq<char>) -> bool {
    match e {
        AgentEvent::Status { session_id, status } => session_id@ == sid && status@ == text,
        _ => false,
    }
}

/// `e` is a message chunk event for session `sid` with text `text`.
pub open spec fn is_chunk(e: AgentEvent, sid: Seq<char>, text: Seq<char>) -> bool {
    match e {
        AgentEvent::Chunk { session_id, content } => session_id@ == sid && content@ == text,
        _ => false,
    }
}

/// `e` is a thought chunk event for session `sid` with text `text`.
pub open spec fn is_thought_chunk(e: AgentEvent, sid: Seq<char>, text: Seq<char>) -> bool {
    match e {
        AgentEvent::ThoughtChunk { session_id, content } => session_id@ == sid && content@
            == text,
        _ => false,
    }
}

/// `e` re-publishes `u` for session `sid`.
pub open spec fn is_update(
    e: AgentEvent,
    sid: Seq<char>,
    u: agent_client_protocol::schema::SessionUpdate,
) -> bool {
    match e {
        AgentEvent::Update { session_id, update } => session_id@ == sid && update == u,
        _ => false,
    }
}

} // verus!
