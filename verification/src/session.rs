//! The session driver: a state machine over the updates of one session, and
//! the single-assignment cell that holds the session's result.

use crate::error::{Error, ErrorView};
use crate::permission::{
    decide, select_permission_outcome, PermissionOption, PermissionOptionView, PermissionOutcome,
    PermissionOutcomeView,
};
use crate::registry::{ToolEntryView, ToolRegistry};
use vstd::prelude::*;

verus! {

/// Why the agent ended its turn. The driver records the reason and never
/// judges by it.
#[derive(Clone, Copy, Debug, PartialEq, Eq, Structural)]
pub enum StopReason {
    /// The turn ended of itself.
    EndTurn,
    /// The agent reached its token limit.
    MaxTokens,
    /// The agent reached its limit of requests within one turn.
    MaxTurnRequests,
    /// The agent refused to go on.
    Refusal,
    /// The turn was cancelled.
    Cancelled,
    /// A reason this library does not know.
    Other,
}

/// Where the driver stands.
#[derive(Clone, Copy, Debug, PartialEq, Eq, Structural)]
pub enum Phase {
    /// The prompt is being handed to the transport.
    Sending,
    /// The driver waits for the next update.
    AwaitingUpdate,
    /// A notification is being noted.
    ProcessingNotification,
    /// The answer to a permission request is being sent.
    ProcessingRequest,
    /// The session stopped for the given reason. Terminal.
    Stopped(StopReason),
    /// The transport failed. Terminal.
    Failed,
}

impl Phase {
    /// Whether the driver has come to rest.
    pub open spec fn terminal(self) -> bool {
        self is Stopped || self is Failed
    }

    /// Whether the driver has come to rest.
    pub fn is_terminal(&self) -> (r: bool)
        ensures
            r == self.terminal(),
    {
        match self {
            Phase::Stopped(_) => true,
            Phase::Failed => true,
            _ => false,
        }
    }
}

/// One message read from the driven session.
#[derive(Debug)]
pub enum SessionUpdate {
    /// The termination signal, with the agent's reason.
    Stop(StopReason),
    /// An informational event.
    Notification,
    /// The agent asks for approval and offers these options.
    PermissionRequest(Vec<PermissionOption>),
    /// Any other kind of event.
    Other,
}

/// The mathematical value of a [`SessionUpdate`].
pub enum SessionUpdateView {
    Stop(StopReason),
    Notification,
    PermissionRequest(Seq<PermissionOptionView>),
    Other,
}

impl View for SessionUpdate {
    type V = SessionUpdateView;

    open spec fn view(&self) -> SessionUpdateView {
        match self {
            SessionUpdate::Stop(reason) => SessionUpdateView::Stop(*reason),
            SessionUpdate::Notification => SessionUpdateView::Notification,
            SessionUpdate::PermissionRequest(options) => SessionUpdateView::PermissionRequest(
                options.deep_view(),
            ),
            SessionUpdate::Other => SessionUpdateView::Other,
        }
    }
}

/// What the caller reports to the driver.
#[derive(Debug)]
pub enum SessionEvent {
    /// The prompt was handed to the transport.
    PromptSent,
    /// This update was read from the session.
    Update(SessionUpdate),
    /// What the driver asked for on the update in hand has been done.
    Done,
    /// Sending or reading failed; the text is the failure as reported.
    TransportFailed(String),
}

/// The mathematical value of a [`SessionEvent`].
pub enum SessionEventView {
    PromptSent,
    Update(SessionUpdateView),
    Done,
    TransportFailed(Seq<char>),
}

impl View for SessionEvent {
    type V = SessionEventView;

    open spec fn view(&self) -> SessionEventView {
        match self {
            SessionEvent::PromptSent => SessionEventView::PromptSent,
            SessionEvent::Update(update) => SessionEventView::Update(update@),
            SessionEvent::Done => SessionEventView::Done,
            SessionEvent::TransportFailed(msg) => SessionEventView::TransportFailed(msg@),
        }
    }
}

/// What the driver asks the caller to do next.
#[derive(Debug)]
pub enum Action<T> {
    /// Read the next update and report it.
    ReadUpdate,
    /// Note the notification, then report `Done`.
    Note,
    /// Send this answer to the permission request, then report `Done`.
    Respond(PermissionOutcome),
    /// The invocation is over and resolves to this.
    Finish(Result<T, Error>),
    /// The event came out of turn or after the end; nothing is to be done.
    Ignored,
}

/// The mathematical value of an [`Action`].
pub enum ActionView<T> {
    ReadUpdate,
    Note,
    Respond(PermissionOutcomeView),
    Finish(Result<T, ErrorView>),
    Ignored,
}

impl<T> View for Action<T> {
    type V = ActionView<T>;

    open spec fn view(&self) -> ActionView<T> {
        match self {
            Action::ReadUpdate => ActionView::ReadUpdate,
            Action::Note => ActionView::Note,
            Action::Respond(outcome) => ActionView::Respond(outcome@),
            Action::Finish(Ok(value)) => ActionView::Finish(Ok(*value)),
            Action::Finish(Err(e)) => ActionView::Finish(Err(e@)),
            Action::Ignored => ActionView::Ignored,
        }
    }
}

/// What the agent hands to the completion tool.
#[derive(Debug)]
pub struct ReturnResultInput<T> {
    /// The result value to return.
    pub result: T,
}

/// What the completion tool answers.
#[derive(Clone, Copy, Debug, PartialEq, Eq, Structural)]
pub struct ReturnResultOutput {
    /// Whether the result was recorded.
    pub success: bool,
}

/// The mathematical value of a [`ThinkSession`].
pub struct SessionView<T> {
    /// The rendered prompt.
    pub prompt: Seq<char>,
    /// The tools offered to the agent, the completion tool last.
    pub tools: Seq<ToolEntryView>,
    /// Where the driver stands.
    pub phase: Phase,
    /// The result cell.
    pub output: Option<T>,
}

/// The session as it starts: the prompt still to be sent, the cell empty.
pub open spec fn initial_session<T>(prompt: Seq<char>, tools: Seq<ToolEntryView>) -> SessionView<T> {
    SessionView { prompt, tools, phase: Phase::Sending, output: None }
}

/// What the invocation resolves to when the session stops with this cell.
pub open spec fn resolution<T>(output: Option<T>) -> Result<T, ErrorView> {
    match output {
        Some(value) => Ok(value),
        None => Err(ErrorView::NoResult),
    }
}

/// The driver's transition: the state after `event` and the action asked for.
///
/// A transport failure ends any session that is still running and discards
/// the cell. The stop signal ends it and reads the cell. A notification and a
/// permission request are each worked off in a phase of their own, the
/// request with exactly one answer, chosen by the permission policy. Any
/// other update is passed over. An event that the current phase does not
/// wait for changes nothing.
pub open spec fn step_spec<T>(s: SessionView<T>, event: SessionEventView) -> (
    SessionView<T>,
    ActionView<T>,
) {
    if s.phase.terminal() {
        (s, ActionView::Ignored)
    } else {
        match event {
            SessionEventView::TransportFailed(msg) => (
                SessionView { phase: Phase::Failed, output: None, ..s },
                ActionView::Finish(Err(ErrorView::Transport(msg))),
            ),
            SessionEventView::PromptSent => if s.phase == Phase::Sending {
                (SessionView { phase: Phase::AwaitingUpdate, ..s }, ActionView::ReadUpdate)
            } else {
                (s, ActionView::Ignored)
            },
            SessionEventView::Done => if s.phase == Phase::ProcessingNotification || s.phase
                == Phase::ProcessingRequest {
                (SessionView { phase: Phase::AwaitingUpdate, ..s }, ActionView::ReadUpdate)
            } else {
                (s, ActionView::Ignored)
            },
            SessionEventView::Update(update) => if s.phase == Phase::AwaitingUpdate {
                match update {
                    SessionUpdateView::Stop(reason) => (
                        SessionView { phase: Phase::Stopped(reason), output: None, ..s },
                        ActionView::Finish(resolution(s.output)),
                    ),
                    SessionUpdateView::Notification => (
                        SessionView { phase: Phase::ProcessingNotification, ..s },
                        ActionView::Note,
                    ),
                    SessionUpdateView::PermissionRequest(options) => (
                        SessionView { phase: Phase::ProcessingRequest, ..s },
                        ActionView::Respond(decide(options)),
                    ),
                    SessionUpdateView::Other => (s, ActionView::ReadUpdate),
                }
            } else {
                (s, ActionView::Ignored)
            },
        }
    }
}

/// The completion tool's effect: the first value handed in while the session
/// runs is kept; a later one, or one that comes after the end, is not.
pub open spec fn record_spec<T>(s: SessionView<T>, value: T) -> (SessionView<T>, bool) {
    if s.output is None && !s.phase.terminal() {
        (SessionView { output: Some(value), ..s }, true)
    } else {
        (s, false)
    }
}

/// One session in progress: the rendered prompt, the tools on offer, the
/// driver's phase and the result cell.
pub struct ThinkSession<T> {
    prompt: String,
    tools: ToolRegistry,
    phase: Phase,
    output: Option<T>,
}

impl<T> View for ThinkSession<T> {
    type V = SessionView<T>;

    closed spec fn view(&self) -> SessionView<T> {
        SessionView {
            prompt: self.prompt@,
            tools: self.tools@,
            phase: self.phase,
            output: self.output,
        }
    }
}

impl<T> ThinkSession<T> {
    /// A session that is about to send `prompt` and offers `tools`.
    pub(crate) fn start(prompt: String, tools: ToolRegistry) -> (r: Self)
        ensures
            r@ == initial_session::<T>(prompt@, tools@),
    {
        ThinkSession { prompt, tools, phase: Phase::Sending, output: None }
    }

    /// The prompt to send.
    pub fn prompt(&self) -> (r: &String)
        ensures
            r@ == self@.prompt,
    {
        &self.prompt
    }

    /// The tools to offer, the completion tool among them.
    pub fn tools(&self) -> (r: &ToolRegistry)
        ensures
            r@ == self@.tools,
    {
        &self.tools
    }

    /// Where the driver stands.
    pub fn phase(&self) -> (r: Phase)
        ensures
            r == self@.phase,
    {
        self.phase
    }

    /// Whether the result cell has been written and not yet read.
    pub fn has_result(&self) -> (r: bool)
        ensures
            r == (self@.output is Some),
    {
        self.output.is_some()
    }

    /// Takes one event and says what to do next.
    pub fn step(&mut self, event: SessionEvent) -> (r: Action<T>)
        ensures
            (final(self)@, r@) == step_spec(old(self)@, event@),
    {
        if self.phase.is_terminal() {
            return Action::Ignored;
        }
        match event {
            SessionEvent::TransportFailed(msg) => {
                self.phase = Phase::Failed;
                self.output = None;
                Action::Finish(Err(Error::Transport(msg)))
            },
            SessionEvent::PromptSent => {
                match self.phase {
                    Phase::Sending => {
                        self.phase = Phase::AwaitingUpdate;
                        Action::ReadUpdate
                    },
                    _ => Action::Ignored,
                }
            },
            SessionEvent::Done => {
                match self.phase {
                    Phase::ProcessingNotification => {
                        self.phase = Phase::AwaitingUpdate;
                        Action::ReadUpdate
                    },
                    Phase::ProcessingRequest => {
                        self.phase = Phase::AwaitingUpdate;
                        Action::ReadUpdate
                    },
                    _ => Action::Ignored,
                }
            },
            SessionEvent::Update(update) => {
                match self.phase {
                    Phase::AwaitingUpdate => {
                        match update {
                            SessionUpdate::Stop(reason) => {
                                self.phase = Phase::Stopped(reason);
                                match self.output.take() {
                                    Some(value) => Action::Finish(Ok(value)),
                                    None => Action::Finish(Err(Error::NoResult)),
                                }
                            },
                            SessionUpdate::Notification => {
                                self.phase = Phase::ProcessingNotification;
                                Action::Note
                            },
                            SessionUpdate::PermissionRequest(options) => {
                                self.phase = Phase::ProcessingRequest;
                                Action::Respond(select_permission_outcome(&options))
                            },
                            SessionUpdate::Other => Action::ReadUpdate,
                        }
                    },
                    _ => Action::Ignored,
                }
            },
        }
    }

    /// The completion tool's handler: stores the value if it is the first to
    /// come while the session runs, and says whether it was stored.
    pub fn return_result(&mut self, input: ReturnResultInput<T>) -> (r: ReturnResultOutput)
        ensures
            (final(self)@, r.success) == record_spec(old(self)@, input.result),
    {
        if self.output.is_none() && !self.phase.is_terminal() {
            self.output = Some(input.result);
            ReturnResultOutput { success: true }
        } else {
            ReturnResultOutput { success: false }
        }
    }
}

} // verus!
