use vstd::prelude::*;
use vstd::string::StringExecFns;
use crate::client::{join_lines, lemma_join_empty, lemma_turn_output_joins_messages, message_texts, turn_output};
use crate::content::UpdateKind;
use crate::text::{is_blank, is_blank_text};

verus! {

/// A caller's request to the session worker.
#[derive(Debug, Clone, PartialEq, Eq)]
pub enum WorkerRequest {
    NewSession,
    Prompt { session_id: Option<String>, message: String },
}

/// What the worker asks its driver to do next.
#[derive(Debug, PartialEq, Eq)]
pub enum WorkerAction {
    /// Ask the agent for a new session and report the outcome with
    /// `session_created`.
    CreateSession,
    /// Start a turn in `session_id` on the callback handler
    /// (`AcpClient::begin_turn`, which empties the output buffer and tags
    /// events with that session), send `message` into it, and report the
    /// outcome with `prompt_finished`.
    SendPrompt { session_id: String, message: String },
    /// Read the output buffer back (after the settling delay when `settle`)
    /// and hand it over with `output_collected`.
    CollectOutput { settle: bool },
    /// Send this reply to the caller of the current request.
    Reply(Result<String, String>),
}

enum Phase {
    Ready,
    CreatingSession,
    CreatingSessionForPrompt(String),
    Prompting,
    Collecting(Result<(), String>),
}

pub enum RequestView {
    NewSession,
    Prompt(Option<Seq<char>>, Seq<char>),
}

pub enum ActionView {
    CreateSession,
    SendPrompt(Seq<char>, Seq<char>),
    CollectOutput(bool),
    Reply(Result<Seq<char>, Seq<char>>),
}

/// Where the worker stands in serving a request.
pub enum PhaseView {
    Ready,
    CreatingSession,
    CreatingSessionForPrompt(Seq<char>),
    Prompting,
    Collecting(Result<(), Seq<char>>),
}

/// The worker's state: its default session, its phase, and every session it
/// has seen created, oldest first.
pub struct WorkerView {
    pub default_session: Option<Seq<char>>,
    pub phase: PhaseView,
    pub created: Seq<Seq<char>>,
}

pub open spec fn opt_view(o: Option<String>) -> Option<Seq<char>> {
    match o {
        Some(s) => Some(s@),
        None => None,
    }
}

pub open spec fn result_view(r: Result<String, String>) -> Result<Seq<char>, Seq<char>> {
    match r {
        Ok(s) => Ok(s@),
        Err(e) => Err(e@),
    }
}

pub open spec fn unit_result_view(r: Result<(), String>) -> Result<(), Seq<char>> {
    match r {
        Ok(_) => Ok(()),
        Err(e) => Err(e@),
    }
}

impl View for WorkerRequest {
    type V = RequestView;

    open spec fn view(&self) -> RequestView {
        match self {
            WorkerRequest::NewSession => RequestView::NewSession,
            WorkerRequest::Prompt { session_id, message } => RequestView::Prompt(
                opt_view(*session_id),
                message@,
            ),
        }
    }
}

impl View for WorkerAction {
    type V = ActionView;

    open spec fn view(&self) -> ActionView {
        match self {
            WorkerAction::CreateSession => ActionView::CreateSession,
            WorkerAction::SendPrompt { session_id, message } => ActionView::SendPrompt(
                session_id@,
                message@,
            ),
            WorkerAction::CollectOutput { settle } => ActionView::CollectOutput(*settle),
            WorkerAction::Reply(r) => ActionView::Reply(result_view(*r)),
        }
    }
}

/// The default session is the most recently created one.
pub open spec fn worker_wf(w: WorkerView) -> bool {
    w.created.len() > 0 ==> w.default_session == Some(w.created.last())
}

/// A request arrives at a ready worker. An explicit session id is used as
/// given; otherwise the default session; and with none, one is created first.
pub open spec fn on_request(w: WorkerView, req: RequestView) -> (WorkerView, ActionView) {
    match req {
        RequestView::NewSession => (
            WorkerView { phase: PhaseView::CreatingSession, ..w },
            ActionView::CreateSession,
        ),
        RequestView::Prompt(Some(id), m) => (
            WorkerView { phase: PhaseView::Prompting, ..w },
            ActionView::SendPrompt(id, m),
        ),
        RequestView::Prompt(None, m) => match w.default_session {
            Some(d) => (
                WorkerView { phase: PhaseView::Prompting, ..w },
                ActionView::SendPrompt(d, m),
            ),
            None => (
                WorkerView { phase: PhaseView::CreatingSessionForPrompt(m), ..w },
                ActionView::CreateSession,
            ),
        },
    }
}

/// The agent answered a session creation. A new session becomes the default;
/// a failure is replied and leaves the default as it was.
pub open spec fn on_session_created(w: WorkerView, r: Result<Seq<char>, Seq<char>>) -> (
    WorkerView,
    ActionView,
) {
    match r {
        Ok(id) => {
            let w2 = WorkerView { default_session: Some(id), created: w.created.push(id), ..w };
            match w.phase {
                PhaseView::CreatingSessionForPrompt(m) => (
                    WorkerView { phase: PhaseView::Prompting, ..w2 },
                    ActionView::SendPrompt(id, m),
                ),
                _ => (WorkerView { phase: PhaseView::Ready, ..w2 }, ActionView::Reply(Ok(id))),
            }
        },
        Err(e) => (WorkerView { phase: PhaseView::Ready, ..w }, ActionView::Reply(Err(e))),
    }
}

/// The agent answered a prompt: the output is collected, after the settling
/// delay when the prompt succeeded.
pub open spec fn on_prompt_finished(w: WorkerView, r: Result<(), Seq<char>>) -> (
    WorkerView,
    ActionView,
) {
    (WorkerView { phase: PhaseView::Collecting(r), ..w }, ActionView::CollectOutput(r is Ok))
}

/// The output of the turn was read back: the reply is that text, or the
/// prompt's error.
pub open spec fn on_output_collected(w: WorkerView, text: Seq<char>) -> (WorkerView, ActionView) {
    let reply = match w.phase {
        PhaseView::Collecting(Err(e)) => Err(e),
        _ => Ok(text),
    };
    (WorkerView { phase: PhaseView::Ready, ..w }, ActionView::Reply(reply))
}

/// Rejects a message that is empty or holds only white space, before any
/// worker is involved.
pub fn validate_message(message: &str) -> (r: Result<(), String>)
    ensures
        r is Err <==> is_blank(message@),
        r matches Err(e) ==> e@ == "Message cannot be empty"@,
{
    if is_blank_text(message) {
        Err(String::from_str("Message cannot be empty"))
    } else {
        Ok(())
    }
}

/// The one-time start of the worker: empty until the start is recorded, then
/// fixed for good, whether the start succeeded or failed.
pub struct WorkerSlot<H> {
    state: Option<Result<H, String>>,
}

/// The slot's state after a start outcome is offered to it: only the first
/// one is kept.
pub open spec fn after_start<H>(state: Option<Result<H, String>>, outcome: Result<H, String>) -> Option<
    Result<H, String>,
> {
    match state {
        None => Some(outcome),
        Some(_) => state,
    }
}

impl<H> WorkerSlot<H> {
    pub closed spec fn state(&self) -> Option<Result<H, String>> {
        self.state
    }

    /// A slot with nothing started.
    pub fn new() -> (r: Self)
        ensures
            r.state() is None,
    {
        WorkerSlot { state: None }
    }

    /// Whether a start has been recorded.
    pub fn is_started(&self) -> (r: bool)
        ensures
            r == (self.state() is Some),
    {
        self.state.is_some()
    }

    /// Records the outcome of starting the worker, unless one is recorded
    /// already: a start is never retried.
    pub fn record_start(&mut self, outcome: Result<H, String>)
        ensures
            final(self).state() == after_start(old(self).state(), outcome),
    {
        if self.state.is_none() {
            self.state = Some(outcome);
        }
    }

    /// The running worker, or the cached start failure.
    pub fn worker(&self) -> (r: Result<&H, String>)
        requires
            self.state() is Some,
        ensures
            match self.state() {
                Some(Ok(h)) => r == Ok::<&H, String>(&h),
                Some(Err(e)) => r matches Err(e2) && e2@ == e@,
                None => false,
            },
    {
        match &self.state {
            Some(Ok(h)) => Ok(h),
            Some(Err(e)) => Err(e.clone()),
            None => Err(String::new()),
        }
    }
}

/// A failed start is replayed to every later call: whatever is offered
/// afterwards, the slot keeps the first failure.
pub proof fn lemma_start_failure_cached<H>(e: String, later: Seq<Result<H, String>>)
    ensures
        later.fold_left(after_start(None, Err::<H, String>(e)), |st: Option<Result<H, String>>, o: Result<H, String>| after_start(st, o))
            == Some(Err::<H, String>(e)),
    decreases later.len(),
{
    if later.len() > 0 {
        lemma_start_failure_cached(e, later.drop_last());
    }
}

/// Every step of the worker keeps the default session equal to the most
/// recently created one.
pub proof fn lemma_steps_keep_default_latest(
    w: WorkerView,
    req: RequestView,
    created: Result<Seq<char>, Seq<char>>,
    prompted: Result<(), Seq<char>>,
    text: Seq<char>,
)
    requires
        worker_wf(w),
    ensures
        worker_wf(on_request(w, req).0),
        worker_wf(on_session_created(w, created).0),
        worker_wf(on_prompt_finished(w, prompted).0),
        worker_wf(on_output_collected(w, text).0),
{
}

/// Serves one new-session request that the agent answers with `id`.
pub open spec fn serve_new_session(w: WorkerView, id: Seq<char>) -> (WorkerView, ActionView) {
    on_session_created(on_request(w, RequestView::NewSession).0, Ok(id))
}

/// Serves a run of new-session requests, the agent answering with `ids` in turn.
pub open spec fn serve_new_sessions(w: WorkerView, ids: Seq<Seq<char>>) -> WorkerView
    decreases ids.len(),
{
    if ids.len() == 0 {
        w
    } else {
        serve_new_session(serve_new_sessions(w, ids.drop_last()), ids.last()).0
    }
}

/// Each new-session request replies with the id the agent gave, and after any
/// run of them the default session is the one created last, the worker ready.
pub proof fn lemma_new_sessions_track_latest(w: WorkerView, ids: Seq<Seq<char>>)
    requires
        w.phase is Ready,
    ensures
        forall|v: WorkerView, id: Seq<char>|
            v.phase is Ready ==> #[trigger] serve_new_session(v, id).1 == ActionView::Reply(
                Ok(id),
            ),
        serve_new_sessions(w, ids).phase is Ready,
        serve_new_sessions(w, ids).created == w.created + ids,
        ids.len() > 0 ==> serve_new_sessions(w, ids).default_session == Some(ids.last()),
        ids.len() == 0 ==> serve_new_sessions(w, ids).default_session == w.default_session,
    decreases ids.len(),
{
    if ids.len() > 0 {
        lemma_new_sessions_track_latest(w, ids.drop_last());
        assert(w.created + ids =~= (w.created + ids.drop_last()).push(ids.last()));
    } else {
        assert(w.created + ids =~= w.created);
    }
}

/// Serves a whole prompt request for `msg` to completion, the agent answering
/// a session creation, if one is asked for, with `new_id`, the prompt with
/// `prompted`, and the output reading `text`.
pub open spec fn serve_prompt(
    w: WorkerView,
    requested: Option<Seq<char>>,
    msg: Seq<char>,
    new_id: Seq<char>,
    prompted: Result<(), Seq<char>>,
    text: Seq<char>,
) -> WorkerView {
    let w1 = on_request(w, RequestView::Prompt(requested, msg)).0;
    let w2 = if w1.phase is CreatingSessionForPrompt {
        on_session_created(w1, Ok(new_id)).0
    } else {
        w1
    };
    on_output_collected(on_prompt_finished(w2, prompted).0, text).0
}

/// A prompt with an explicit session id goes to that session and leaves the
/// default session and the created sessions as they were.
pub proof fn lemma_explicit_prompt_keeps_default(
    w: WorkerView,
    id: Seq<char>,
    msg: Seq<char>,
    new_id: Seq<char>,
    prompted: Result<(), Seq<char>>,
    text: Seq<char>,
)
    requires
        w.phase is Ready,
    ensures
        on_request(w, RequestView::Prompt(Some(id), msg)).1 == ActionView::SendPrompt(id, msg),
        serve_prompt(w, Some(id), msg, new_id, prompted, text).default_session
            == w.default_session,
        serve_prompt(w, Some(id), msg, new_id, prompted, text).created == w.created,
        serve_prompt(w, Some(id), msg, new_id, prompted, text).phase is Ready,
{
}

/// A prompt without a session id on a worker without a default session creates
/// exactly one session and prompts it; a second such prompt reuses it and
/// creates none.
pub proof fn lemma_implicit_session_created_once(
    w: WorkerView,
    msg1: Seq<char>,
    msg2: Seq<char>,
    id: Seq<char>,
    other_id: Seq<char>,
    prompted: Result<(), Seq<char>>,
    text: Seq<char>,
)
    requires
        w.phase is Ready,
        w.default_session is None,
    ensures
        on_request(w, RequestView::Prompt(None, msg1)).1 == ActionView::CreateSession,
        on_session_created(on_request(w, RequestView::Prompt(None, msg1)).0, Ok(id)).1
            == ActionView::SendPrompt(id, msg1),
        serve_prompt(w, None, msg1, id, prompted, text).created == w.created.push(id),
        serve_prompt(w, None, msg1, id, prompted, text).default_session == Some(id),
        on_request(serve_prompt(w, None, msg1, id, prompted, text), RequestView::Prompt(None, msg2)).1
            == ActionView::SendPrompt(id, msg2),
        serve_prompt(serve_prompt(w, None, msg1, id, prompted, text), None, msg2, other_id, prompted, text).created
            == w.created.push(id),
{
}

/// The accumulated output of a turn is the reply of a successful prompt; a
/// failed prompt replies its error.
pub proof fn lemma_prompt_reply(w: WorkerView, prompted: Result<(), Seq<char>>, text: Seq<char>)
    requires
        w.phase is Prompting,
    ensures
        on_prompt_finished(w, prompted).1 == ActionView::CollectOutput(prompted is Ok),
        on_output_collected(on_prompt_finished(w, prompted).0, text).1 == ActionView::Reply(
            match prompted {
                Ok(_) => Ok(text),
                Err(e) => Err(e),
            },
        ),
{
}

/// The reply to a whole prompt request, served as in `serve_prompt`.
pub open spec fn prompt_reply(
    w: WorkerView,
    requested: Option<Seq<char>>,
    msg: Seq<char>,
    new_id: Seq<char>,
    prompted: Result<(), Seq<char>>,
    text: Seq<char>,
) -> ActionView {
    let w1 = on_request(w, RequestView::Prompt(requested, msg)).0;
    let w2 = if w1.phase is CreatingSessionForPrompt {
        on_session_created(w1, Ok(new_id)).0
    } else {
        w1
    };
    on_output_collected(on_prompt_finished(w2, prompted).0, text).1
}

/// Every agent message chunk of `kinds` carries some text.
pub open spec fn chunks_non_empty(kinds: Seq<UpdateKind>) -> bool {
    forall|i: int| 0 <= i < message_texts(kinds).len() ==> #[trigger] message_texts(kinds)[i].len() > 0
}

/// A successful prompt whose turn brought the updates `kinds` (into an output
/// buffer emptied when the turn began) replies with the texts of the agent
/// message chunks joined by single newlines; thought chunks and other updates
/// add nothing.
pub proof fn lemma_prompt_reply_joins_messages(w: WorkerView, kinds: Seq<UpdateKind>)
    requires
        w.phase is Prompting,
        chunks_non_empty(kinds),
    ensures
        on_prompt_finished(w, Ok(())).1 == ActionView::CollectOutput(true),
        on_output_collected(on_prompt_finished(w, Ok(())).0, turn_output(kinds)).1
            == ActionView::Reply(Ok(join_lines(message_texts(kinds)))),
{
    lemma_turn_output_joins_messages(kinds);
}

/// Two prompts without a session id, served in turn on a worker without a
/// default session, each answered by the agent with at least one non-empty
/// message chunk: exactly one session is created, both prompts go to it, and
/// both reply with non-empty text.
pub proof fn lemma_two_prompts_one_session(
    w: WorkerView,
    msg1: Seq<char>,
    msg2: Seq<char>,
    id: Seq<char>,
    other_id: Seq<char>,
    kinds1: Seq<UpdateKind>,
    kinds2: Seq<UpdateKind>,
)
    requires
        w.phase is Ready,
        w.default_session is None,
        chunks_non_empty(kinds1),
        chunks_non_empty(kinds2),
        message_texts(kinds1).len() > 0,
        message_texts(kinds2).len() > 0,
    ensures
        on_request(w, RequestView::Prompt(None, msg1)).1 == ActionView::CreateSession,
        on_session_created(on_request(w, RequestView::Prompt(None, msg1)).0, Ok(id)).1
            == ActionView::SendPrompt(id, msg1),
        prompt_reply(w, None, msg1, id, Ok(()), turn_output(kinds1)) == ActionView::Reply(
            Ok(join_lines(message_texts(kinds1))),
        ),
        join_lines(message_texts(kinds1)).len() > 0,
        on_request(
            serve_prompt(w, None, msg1, id, Ok(()), turn_output(kinds1)),
            RequestView::Prompt(None, msg2),
        ).1 == ActionView::SendPrompt(id, msg2),
        prompt_reply(
            serve_prompt(w, None, msg1, id, Ok(()), turn_output(kinds1)),
            None,
            msg2,
            other_id,
            Ok(()),
            turn_output(kinds2),
        ) == ActionView::Reply(Ok(join_lines(message_texts(kinds2)))),
        join_lines(message_texts(kinds2)).len() > 0,
        serve_prompt(
            serve_prompt(w, None, msg1, id, Ok(()), turn_output(kinds1)),
            None,
            msg2,
            other_id,
            Ok(()),
            turn_output(kinds2),
        ).created == w.created.push(id),
        serve_prompt(
            serve_prompt(w, None, msg1, id, Ok(()), turn_output(kinds1)),
            None,
            msg2,
            other_id,
            Ok(()),
            turn_output(kinds2),
        ).default_session == Some(id),
{
    lemma_turn_output_joins_messages(kinds1);
    lemma_turn_output_joins_messages(kinds2);
    lemma_join_empty(message_texts(kinds1));
    lemma_join_empty(message_texts(kinds2));
}

/// The decision logic of the session worker, one request at a time.
pub struct SessionWorker {
    default_session: Option<String>,
    phase: Phase,
    created: Ghost<Seq<Seq<char>>>,
}

impl View for SessionWorker {
    type V = WorkerView;

    closed spec fn view(&self) -> WorkerView {
        WorkerView {
            default_session: opt_view(self.default_session),
            phase: match self.phase {
                Phase::Ready => PhaseView::Ready,
                Phase::CreatingSession => PhaseView::CreatingSession,
                Phase::CreatingSessionForPrompt(m) => PhaseView::CreatingSessionForPrompt(m@),
                Phase::Prompting => PhaseView::Prompting,
                Phase::Collecting(r) => PhaseView::Collecting(unit_result_view(r)),
            },
            created: self.created@,
        }
    }
}

impl SessionWorker {
    /// A ready worker whose default session, if any, is `initial_session`.
    pub fn new(initial_session: Option<String>) -> (r: Self)
        ensures
            r@.default_session == opt_view(initial_session),
            r@.phase == PhaseView::Ready,
            r@.created == match initial_session {
                Some(s) => seq![s@],
                None => Seq::<Seq<char>>::empty(),
            },
            worker_wf(r@),
    {
        let ghost created = match opt_view(initial_session) {
            Some(s) => seq![s],
            None => Seq::<Seq<char>>::empty(),
        };
        SessionWorker { default_session: initial_session, phase: Phase::Ready, created: Ghost(created) }
    }

    /// The session a prompt without an explicit id goes to.
    pub fn default_session(&self) -> (r: Option<String>)
        ensures
            opt_view(r) == self@.default_session,
    {
        match &self.default_session {
            Some(s) => Some(s.clone()),
            None => None,
        }
    }

    pub fn is_ready(&self) -> (r: bool)
        ensures
            r == (self@.phase is Ready),
    {
        match self.phase {
            Phase::Ready => true,
            _ => false,
        }
    }

    pub fn is_creating_session(&self) -> (r: bool)
        ensures
            r == (self@.phase is CreatingSession || self@.phase is CreatingSessionForPrompt),
    {
        match self.phase {
            Phase::CreatingSession => true,
            Phase::CreatingSessionForPrompt(_) => true,
            _ => false,
        }
    }

    pub fn is_prompting(&self) -> (r: bool)
        ensures
            r == (self@.phase is Prompting),
    {
        match self.phase {
            Phase::Prompting => true,
            _ => false,
        }
    }

    pub fn is_collecting(&self) -> (r: bool)
        ensures
            r == (self@.phase is Collecting),
    {
        match self.phase {
            Phase::Collecting(_) => true,
            _ => false,
        }
    }

    /// Starts serving a request; see `on_request`.
    pub fn handle_request(&mut self, req: WorkerRequest) -> (r: WorkerAction)
        requires
            old(self)@.phase is Ready,
        ensures
            (final(self)@, r@) == on_request(old(self)@, req@),
    {
        match req {
            WorkerRequest::NewSession => {
                self.phase = Phase::CreatingSession;
                WorkerAction::CreateSession
            },
            WorkerRequest::Prompt { session_id, message } => match session_id {
                Some(id) => {
                    self.phase = Phase::Prompting;
                    WorkerAction::SendPrompt { session_id: id, message }
                },
                None => match &self.default_session {
                    Some(d) => {
                        let d = d.clone();
                        self.phase = Phase::Prompting;
                        WorkerAction::SendPrompt { session_id: d, message }
                    },
                    None => {
                        self.phase = Phase::CreatingSessionForPrompt(message);
                        WorkerAction::CreateSession
                    },
                },
            },
        }
    }

    /// Takes the agent's answer to a session creation; see `on_session_created`.
    pub fn session_created(&mut self, result: Result<String, String>) -> (r: WorkerAction)
        requires
            old(self)@.phase is CreatingSession || old(self)@.phase is CreatingSessionForPrompt,
        ensures
            (final(self)@, r@) == on_session_created(old(self)@, result_view(result)),
    {
        match result {
            Ok(id) => {
                proof {
                    self.created@ = self.created@.push(id@);
                }
                self.default_session = Some(id.clone());
                let mut phase = Phase::Ready;
                std::mem::swap(&mut phase, &mut self.phase);
                match phase {
                    Phase::CreatingSessionForPrompt(message) => {
                        self.phase = Phase::Prompting;
                        WorkerAction::SendPrompt { session_id: id, message }
                    },
                    _ => WorkerAction::Reply(Ok(id)),
                }
            },
            Err(e) => {
                self.phase = Phase::Ready;
                WorkerAction::Reply(Err(e))
            },
        }
    }

    /// Takes the agent's answer to a prompt; see `on_prompt_finished`.
    pub fn prompt_finished(&mut self, result: Result<(), String>) -> (r: WorkerAction)
        requires
            old(self)@.phase is Prompting,
        ensures
            (final(self)@, r@) == on_prompt_finished(old(self)@, unit_result_view(result)),
    {
        let settle = result.is_ok();
        self.phase = Phase::Collecting(result);
        WorkerAction::CollectOutput { settle }
    }

    /// Takes the output read back after a prompt; see `on_output_collected`.
    pub fn output_collected(&mut self, text: String) -> (r: WorkerAction)
        requires
            old(self)@.phase is Collecting,
        ensures
            (final(self)@, r@) == on_output_collected(old(self)@, text@),
    {
        let mut phase = Phase::Ready;
        std::mem::swap(&mut phase, &mut self.phase);
        match phase {
            Phase::Collecting(Err(e)) => WorkerAction::Reply(Err(e)),
            _ => WorkerAction::Reply(Ok(text)),
        }
    }
}

} // verus!
