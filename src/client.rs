use vstd::prelude::*;
use vstd::string::StringExecFns;
use crate::content::{content_text, display_text, ContentKind, UpdateKind};
use crate::event_bus::{is_chunk, is_status, is_thought_chunk, is_update, AgentEvent};

verus! {

/// Errors that the host returns to the agent from a callback.
#[derive(Debug, Clone, PartialEq, Eq)]
pub enum ClientError {
    /// The file lies outside the configured workspace.
    AccessDenied { path: String, workspace: String },
    /// A missing parent directory could not be created.
    DirectoryCreationFailed(String),
    /// The file could not be written.
    WriteFailed(String),
    /// The file could not be read as text.
    ReadFailed(String),
    /// The callback is not supported by this host.
    MethodNotFound,
}

/// The JSON-RPC code of "method not found".
pub const METHOD_NOT_FOUND_CODE: i32 = -32601;

impl ClientError {
    pub open spec fn spec_code(&self) -> int {
        match self {
            ClientError::AccessDenied { .. } => -1,
            ClientError::DirectoryCreationFailed(_) => -2,
            ClientError::WriteFailed(_) => -3,
            ClientError::ReadFailed(_) => -4,
            ClientError::MethodNotFound => METHOD_NOT_FOUND_CODE as int,
        }
    }

    pub open spec fn spec_message(&self) -> Seq<char> {
        match self {
            ClientError::AccessDenied { path, workspace } => "Access denied: "@ + path@
                + " is outside workspace "@ + workspace@,
            ClientError::DirectoryCreationFailed(m) => "Failed to create directory: "@ + m@,
            ClientError::WriteFailed(m) => "Failed to write file: "@ + m@,
            ClientError::ReadFailed(m) => "Failed to read file: "@ + m@,
            ClientError::MethodNotFound => "Method not found"@,
        }
    }

    /// The error message sent to the agent.
    pub fn message(&self) -> (r: String)
        ensures
            r@ == self.spec_message(),
    {
        match self {
            ClientError::AccessDenied { path, workspace } => {
                let mut r = String::from_str("Access denied: ");
                r.append(path.as_str());
                r.append(" is outside workspace ");
                r.append(workspace.as_str());
                r
            },
            ClientError::DirectoryCreationFailed(m) => {
                let mut r = String::from_str("Failed to create directory: ");
                r.append(m.as_str());
                r
            },
            ClientError::WriteFailed(m) => {
                let mut r = String::from_str("Failed to write file: ");
                r.append(m.as_str());
                r
            },
            ClientError::ReadFailed(m) => {
                let mut r = String::from_str("Failed to read file: ");
                r.append(m.as_str());
                r
            },
            ClientError::MethodNotFound => String::from_str("Method not found"),
        }
    }

    /// The error code sent to the agent; each kind has its own.
    pub fn code(&self) -> (r: i32)
        ensures
            r as int == self.spec_code(),
    {
        match self {
            ClientError::AccessDenied { .. } => -1,
            ClientError::DirectoryCreationFailed(_) => -2,
            ClientError::WriteFailed(_) => -3,
            ClientError::ReadFailed(_) => -4,
            ClientError::MethodNotFound => METHOD_NOT_FOUND_CODE,
        }
    }
}

/// How a permission request is answered.
#[derive(Debug, Clone, PartialEq, Eq)]
pub enum PermissionOutcome {
    Selected(String),
    Cancelled,
}

/// The kind of file access the agent asks for.
#[derive(Debug, Clone, Copy, PartialEq, Eq)]
pub enum FileOp {
    Write,
    Read,
}

/// The host's side of a file callback before the file is touched: the status
/// event to publish, and whether the access may go ahead.
#[derive(Debug)]
pub struct FileAccess {
    pub status: Option<AgentEvent>,
    pub verdict: Result<(), ClientError>,
}

/// `base` is a leading run of the components of `p`.
pub open spec fn is_component_prefix(base: Seq<String>, p: Seq<String>) -> bool {
    base.len() <= p.len() && forall|i: int| 0 <= i < base.len() ==> (#[trigger] base[i])@ == p[i]@
}

/// Appends one agent message chunk to the accumulated output, with a newline
/// between it and what is already there.
pub open spec fn append_chunk(buf: Seq<char>, text: Seq<char>) -> Seq<char> {
    if buf.len() == 0 {
        text
    } else {
        buf + seq!['\n'] + text
    }
}

/// The status line published before a file access.
pub open spec fn file_status_text(op: FileOp, path: Seq<char>) -> Seq<char> {
    match op {
        FileOp::Write => "Writing file: "@ + path,
        FileOp::Read => "Reading file: "@ + path,
    }
}

/// The accumulated output after one session update: only agent message
/// chunks add to it.
pub open spec fn notification_output(buf: Seq<char>, kind: UpdateKind) -> Seq<char> {
    match kind {
        UpdateKind::AgentMessageChunk(c) => append_chunk(buf, content_text(c)),
        _ => buf,
    }
}

/// The events published for one session update `u` of kind `kind`, with
/// current session `sid` and accumulated output `buf` before it: the update
/// itself, then for an agent message chunk a newline chunk when `buf` was not
/// empty and the text chunk, for a thought chunk its text. Nothing without a
/// current session.
pub open spec fn notification_events(
    sid: Option<Seq<char>>,
    buf: Seq<char>,
    u: agent_client_protocol::schema::SessionUpdate,
    kind: UpdateKind,
    evs: Seq<AgentEvent>,
) -> bool {
    match sid {
        None => evs.len() == 0,
        Some(s) => evs.len() >= 1 && is_update(evs[0], s, u) && match kind {
            UpdateKind::AgentMessageChunk(c) => if buf.len() == 0 {
                evs.len() == 2 && is_chunk(evs[1], s, content_text(c))
            } else {
                evs.len() == 3 && is_chunk(evs[1], s, seq!['\n']) && is_chunk(
                    evs[2],
                    s,
                    content_text(c),
                )
            },
            UpdateKind::AgentThoughtChunk(c) => evs.len() == 2 && is_thought_chunk(
                evs[1],
                s,
                content_text(c),
            ),
            _ => evs.len() == 1,
        },
    }
}

/// The callback handler's state: the output accumulated during a prompt turn,
/// the workspace that bounds file access, and the session events are tagged with.
#[derive(Debug)]
pub struct AcpClient {
    output: String,
    workspace: Option<String>,
    current_session_id: Option<String>,
}

impl AcpClient {
    pub closed spec fn output_view(&self) -> Seq<char> {
        self.output@
    }

    pub closed spec fn workspace_view(&self) -> Option<Seq<char>> {
        match self.workspace {
            Some(w) => Some(w@),
            None => None,
        }
    }

    pub closed spec fn session_view(&self) -> Option<Seq<char>> {
        match self.current_session_id {
            Some(s) => Some(s@),
            None => None,
        }
    }

    /// A handler with empty output, no workspace and no current session.
    pub fn new() -> (r: Self)
        ensures
            r.output_view() == Seq::<char>::empty(),
            r.workspace_view() == None::<Seq<char>>,
            r.session_view() == None::<Seq<char>>,
    {
        AcpClient { output: String::new(), workspace: None, current_session_id: None }
    }

    pub fn set_current_session_id(&mut self, session_id: Option<String>)
        ensures
            final(self).session_view() == match session_id {
                Some(s) => Some(s@),
                None => None::<Seq<char>>,
            },
            final(self).output_view() == old(self).output_view(),
            final(self).workspace_view() == old(self).workspace_view(),
    {
        self.current_session_id = session_id;
    }

    pub fn set_workspace(&mut self, path: String)
        ensures
            final(self).workspace_view() == Some(path@),
            final(self).output_view() == old(self).output_view(),
            final(self).session_view() == old(self).session_view(),
    {
        self.workspace = Some(path);
    }

    /// The configured workspace, as it was set.
    pub fn workspace(&self) -> (r: Option<String>)
        ensures
            match r {
                Some(w) => self.workspace_view() == Some(w@),
                None => self.workspace_view() == None::<Seq<char>>,
            },
    {
        match &self.workspace {
            Some(w) => Some(w.clone()),
            None => None,
        }
    }

    /// Starts a prompt turn in `session_id`: the output is emptied and events
    /// are tagged with that session from now on.
    pub fn begin_turn(&mut self, session_id: String)
        ensures
            final(self).output_view() == Seq::<char>::empty(),
            final(self).session_view() == Some(session_id@),
            final(self).workspace_view() == old(self).workspace_view(),
    {
        self.output = String::new();
        self.current_session_id = Some(session_id);
    }

    /// Hands out the accumulated output and leaves it empty.
    pub fn take_output(&mut self) -> (r: String)
        ensures
            r@ == old(self).output_view(),
            final(self).output_view() == Seq::<char>::empty(),
            final(self).workspace_view() == old(self).workspace_view(),
            final(self).session_view() == old(self).session_view(),
    {
        let mut r = String::new();
        std::mem::swap(&mut r, &mut self.output);
        r
    }

    /// Sandbox check on a file path. `file_abs` and `workspace_abs` are the
    /// canonical component lists of the file and of the workspace, `None` where
    /// canonicalization failed, in which case the check is skipped. Without a
    /// workspace every path is allowed.
    pub fn ensure_in_workspace(
        &self,
        path: &str,
        file_abs: &Option<Vec<String>>,
        workspace_abs: &Option<Vec<String>>,
    ) -> (r: Result<(), ClientError>)
        ensures
            r is Err <==> (self.workspace_view() is Some && file_abs is Some && workspace_abs is Some
                && !is_component_prefix(workspace_abs->Some_0@, file_abs->Some_0@)),
            r matches Err(e) ==> (e matches ClientError::AccessDenied { path: p, workspace: w }
                && p@ == path@ && Some(w@) == self.workspace_view()),
    {
        match (&self.workspace, file_abs, workspace_abs) {
            (Some(w), Some(f), Some(base)) => {
                if component_prefix(base, f) {
                    Ok(())
                } else {
                    Err(ClientError::AccessDenied { path: String::from_str(path), workspace: w.clone() })
                }
            },
            _ => Ok(()),
        }
    }

    /// The status event for `status`, tagged with the current session; none
    /// without a current session.
    pub fn emit_status(&self, status: String) -> (r: Option<AgentEvent>)
        ensures
            match self.session_view() {
                Some(sid) => r matches Some(e) && is_status(e, sid, status@),
                None => r is None,
            },
    {
        match &self.current_session_id {
            Some(sid) => Some(AgentEvent::Status { session_id: sid.clone(), status }),
            None => None,
        }
    }

    /// The host's first half of a file callback: a status line naming the
    /// file, then the sandbox check.
    pub fn file_access(
        &self,
        op: FileOp,
        path: &str,
        file_abs: &Option<Vec<String>>,
        workspace_abs: &Option<Vec<String>>,
    ) -> (r: FileAccess)
        ensures
            match self.session_view() {
                Some(sid) => r.status matches Some(e) && is_status(e, sid, file_status_text(op, path@)),
                None => r.status is None,
            },
            r.verdict is Err <==> (self.workspace_view() is Some && file_abs is Some
                && workspace_abs is Some && !is_component_prefix(
                workspace_abs->Some_0@,
                file_abs->Some_0@,
            )),
            r.verdict matches Err(e) ==> (e matches ClientError::AccessDenied { path: p, workspace: w }
                && p@ == path@ && Some(w@) == self.workspace_view()),
    {
        let ghost op_copy = op;
        let mut line = match op {
            FileOp::Write => String::from_str("Writing file: "),
            FileOp::Read => String::from_str("Reading file: "),
        };
        line.append(path);
        assert(line@ == file_status_text(op_copy, path@));
        let status = self.emit_status(line);
        let verdict = self.ensure_in_workspace(path, file_abs, workspace_abs);
        FileAccess { status, verdict }
    }

    /// Permission policy: approve the first option offered, or cancel when
    /// none is. There is no interactive prompt on this path.
    pub fn request_permission(&self, options: &Vec<String>) -> (r: PermissionOutcome)
        ensures
            options@.len() == 0 ==> r is Cancelled,
            options@.len() > 0 ==> (r matches PermissionOutcome::Selected(id) && id@
                == options@[0]@),
    {
        if options.len() > 0 {
            PermissionOutcome::Selected(options[0].clone())
        } else {
            PermissionOutcome::Cancelled
        }
    }

    /// Handles a streamed session update: re-publishes it, accumulates agent
    /// message text, and publishes message and thought chunks.
    pub fn session_notification(
        &mut self,
        update: agent_client_protocol::schema::SessionUpdate,
        kind: UpdateKind,
    ) -> (r: Vec<AgentEvent>)
        ensures
            final(self).output_view() == notification_output(old(self).output_view(), kind),
            final(self).workspace_view() == old(self).workspace_view(),
            final(self).session_view() == old(self).session_view(),
            notification_events(old(self).session_view(), old(self).output_view(), update, kind, r@),
    {
        let ghost kind_copy = kind;
        let mut events: Vec<AgentEvent> = Vec::new();
        match &self.current_session_id {
            Some(sid) => {
                events.push(AgentEvent::Update { session_id: sid.clone(), update });
            },
            None => {},
        }
        match kind {
            UpdateKind::AgentMessageChunk(c) => {
                let text = display_text(c);
                if !self.output.as_str().is_empty() {
                    self.output.append("\n");
                    proof {
                        reveal_strlit("\n");
                        assert("\n"@ =~= seq!['\n']);
                    }
                    match &self.current_session_id {
                        Some(sid) => {
                            events.push(
                                AgentEvent::Chunk {
                                    session_id: sid.clone(),
                                    content: String::from_str("\n"),
                                },
                            );
                        },
                        None => {},
                    }
                }
                self.output.append(text.as_str());
                match &self.current_session_id {
                    Some(sid) => {
                        events.push(AgentEvent::Chunk { session_id: sid.clone(), content: text });
                    },
                    None => {},
                }
            },
            UpdateKind::AgentThoughtChunk(c) => {
                let text = display_text(c);
                match &self.current_session_id {
                    Some(sid) => {
                        events.push(
                            AgentEvent::ThoughtChunk { session_id: sid.clone(), content: text },
                        );
                    },
                    None => {},
                }
            },
            _ => {},
        }
        proof {
            assert(kind == kind_copy);
        }
        events
    }

    /// Terminals are not supported.
    pub fn create_terminal(&self) -> (r: Result<(), ClientError>)
        ensures
            r matches Err(ClientError::MethodNotFound),
    {
        Err(ClientError::MethodNotFound)
    }

    /// Terminals are not supported.
    pub fn terminal_output(&self) -> (r: Result<(), ClientError>)
        ensures
            r matches Err(ClientError::MethodNotFound),
    {
        Err(ClientError::MethodNotFound)
    }

    /// Terminals are not supported.
    pub fn release_terminal(&self) -> (r: Result<(), ClientError>)
        ensures
            r matches Err(ClientError::MethodNotFound),
    {
        Err(ClientError::MethodNotFound)
    }

    /// Terminals are not supported.
    pub fn wait_for_terminal_exit(&self) -> (r: Result<(), ClientError>)
        ensures
            r matches Err(ClientError::MethodNotFound),
    {
        Err(ClientError::MethodNotFound)
    }

    /// Terminals are not supported.
    pub fn kill_terminal_command(&self) -> (r: Result<(), ClientError>)
        ensures
            r matches Err(ClientError::MethodNotFound),
    {
        Err(ClientError::MethodNotFound)
    }

    /// Extension methods are not supported.
    pub fn ext_method(&self) -> (r: Result<(), ClientError>)
        ensures
            r matches Err(ClientError::MethodNotFound),
    {
        Err(ClientError::MethodNotFound)
    }

    /// Extension notifications are not supported.
    pub fn ext_notification(&self) -> (r: Result<(), ClientError>)
        ensures
            r matches Err(ClientError::MethodNotFound),
    {
        Err(ClientError::MethodNotFound)
    }
}

/// Whether every component of `base` matches the leading components of `p`.
fn component_prefix(base: &Vec<String>, p: &Vec<String>) -> (r: bool)
    ensures
        r == is_component_prefix(base@, p@),
{
    if base.len() > p.len() {
        return false;
    }
    let mut i: usize = 0;
    while i < base.len()
        invariant
            base@.len() <= p@.len(),
            0 <= i <= base@.len(),
            forall|j: int| 0 <= j < i ==> (#[trigger] base@[j])@ == p@[j]@,
        decreases base@.len() - i,
    {
        if base[i] != p[i] {
            return false;
        }
        i = i + 1;
    }
    true
}

} // verus!

verus! {

/// The output accumulated from an emptied buffer over a turn's updates.
pub open spec fn turn_output(kinds: Seq<UpdateKind>) -> Seq<char>
    decreases kinds.len(),
{
    if kinds.len() == 0 {
        Seq::<char>::empty()
    } else {
        notification_output(turn_output(kinds.drop_last()), kinds.last())
    }
}

/// The texts of the agent message chunks among `kinds`, in order.
pub open spec fn message_texts(kinds: Seq<UpdateKind>) -> Seq<Seq<char>>
    decreases kinds.len(),
{
    if kinds.len() == 0 {
        Seq::<Seq<char>>::empty()
    } else {
        let prev = message_texts(kinds.drop_last());
        match kinds.last() {
            UpdateKind::AgentMessageChunk(c) => prev.push(content_text(c)),
            _ => prev,
        }
    }
}

/// `ts` joined by single newlines.
pub open spec fn join_lines(ts: Seq<Seq<char>>) -> Seq<char>
    decreases ts.len(),
{
    if ts.len() == 0 {
        Seq::<char>::empty()
    } else if ts.len() == 1 {
        ts[0]
    } else {
        join_lines(ts.drop_last()) + seq!['\n'] + ts.last()
    }
}

/// The output of a turn is the agent message chunk texts joined by single
/// newlines; thought chunks and other updates add nothing. Chunks are taken to
/// carry some text: an empty one adds no line.
pub proof fn lemma_turn_output_joins_messages(kinds: Seq<UpdateKind>)
    requires
        forall|i: int| 0 <= i < message_texts(kinds).len() ==> #[trigger] message_texts(kinds)[i].len() > 0,
    ensures
        turn_output(kinds) == join_lines(message_texts(kinds)),
    decreases kinds.len(),
{
    if kinds.len() > 0 {
        let prev = kinds.drop_last();
        assert forall|i: int| 0 <= i < message_texts(prev).len() implies #[trigger] message_texts(prev)[i].len() > 0 by {
            assert(message_texts(kinds)[i] == message_texts(prev)[i]);
        }
        lemma_turn_output_joins_messages(prev);
        lemma_join_empty(message_texts(prev));
        match kinds.last() {
            UpdateKind::AgentMessageChunk(c) => {
                let ts = message_texts(kinds);
                assert(ts.drop_last() =~= message_texts(prev));
                assert(ts.last() == content_text(c));
            },
            _ => {},
        }
    }
}

/// Non-empty texts join to an empty text only when there are none.
pub proof fn lemma_join_empty(ts: Seq<Seq<char>>)
    requires
        forall|i: int| 0 <= i < ts.len() ==> #[trigger] ts[i].len() > 0,
    ensures
        join_lines(ts).len() == 0 <==> ts.len() == 0,
    decreases ts.len(),
{
    if ts.len() > 1 {
        assert(ts.last() == ts[ts.len() - 1]);
    } else if ts.len() == 1 {
        assert(ts[0].len() > 0);
    }
}

} // verus!
