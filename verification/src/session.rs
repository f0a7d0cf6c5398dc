//! A session, as a state machine. The caller owns the terminal and the child
//! process: it performs each [`Action`] and reports what happened as an
//! [`Event`]. What to do next is decided here.
//!
//! | phase              | event                 | action                | next phase         |
//! |--------------------|-----------------------|-----------------------|--------------------|
//! | `Ready`            | `Start`               | `Prompt`              | `AwaitingPassword` |
//! | `AwaitingPassword` | `PasswordEntered`     | `Spawn`               | `AwaitingExit`     |
//! | `AwaitingPassword` | `PasswordEntered`     | `Abort`, no method    | `Finished`         |
//! | `AwaitingPassword` | `PasswordUnavailable` | `Abort`               | `Finished`         |
//! | `AwaitingExit`     | `Exited`              | `Complete` or `Abort` | `Finished`         |
//! | `AwaitingExit`     | `SpawnFailed`         | `Abort`               | `Finished`         |
//!
//! No other event is taken.

use vstd::prelude::*;
use crate::environment::Environment;
use crate::error::{ConnectError, ConnectErrorView};
use crate::invocation::{ssh_invocation, Invocation, InvocationView};
use crate::target::{ServiceTarget, ServiceTargetView};

verus! {

/// What the user asked for: an environment, and optionally a pod behind it.
#[derive(Debug, PartialEq, Eq)]
pub struct Request {
    pub environment: Environment,
    pub target: Option<ServiceTarget>,
}

/// The mathematical value of a [`Request`].
pub struct RequestView {
    pub environment: Environment,
    pub target: Option<ServiceTargetView>,
}

impl View for Request {
    type V = RequestView;

    open spec fn view(&self) -> RequestView {
        RequestView {
            environment: self.environment,
            target: match self.target {
                Some(target) => Some(target@),
                None => None,
            },
        }
    }
}

/// How far a session has come.
#[derive(Clone, Copy, Debug, PartialEq, Eq, Structural)]
pub enum Phase {
    /// Nothing has happened yet.
    Ready,
    /// The user has been asked for the password.
    AwaitingPassword,
    /// The child process has been handed to the caller to run.
    AwaitingExit,
    /// The session is over, well or badly.
    Finished,
}

/// What the caller reports.
#[derive(Debug, PartialEq, Eq)]
pub enum Event {
    /// The session is to begin.
    Start,
    /// The user typed this password.
    PasswordEntered(String),
    /// The password could not be read, for the reason given.
    PasswordUnavailable(String),
    /// The child process ran and ended, with this exit code if it had one.
    Exited(Option<i32>),
    /// The child process could not be started, for the reason given.
    SpawnFailed(String),
}

/// The mathematical value of an [`Event`].
pub enum EventView {
    Start,
    PasswordEntered(Seq<char>),
    PasswordUnavailable(Seq<char>),
    Exited(Option<i32>),
    SpawnFailed(Seq<char>),
}

impl View for Event {
    type V = EventView;

    open spec fn view(&self) -> EventView {
        match self {
            Event::Start => EventView::Start,
            Event::PasswordEntered(password) => EventView::PasswordEntered(password@),
            Event::PasswordUnavailable(detail) => EventView::PasswordUnavailable(detail@),
            Event::Exited(code) => EventView::Exited(*code),
            Event::SpawnFailed(detail) => EventView::SpawnFailed(detail@),
        }
    }
}

/// What the caller is to do next.
#[derive(Debug, PartialEq, Eq)]
pub enum Action {
    /// Show this text and read a password without echo.
    Prompt(String),
    /// Run this child process and wait for it.
    Spawn(Invocation),
    /// Tell the user this; the session ended well.
    Complete(String),
    /// Give up with this error.
    Abort(ConnectError),
}

/// The mathematical value of an [`Action`].
pub enum ActionView {
    Prompt(Seq<char>),
    Spawn(InvocationView),
    Complete(Seq<char>),
    Abort(ConnectErrorView),
}

impl View for Action {
    type V = ActionView;

    open spec fn view(&self) -> ActionView {
        match self {
            Action::Prompt(text) => ActionView::Prompt(text@),
            Action::Spawn(invocation) => ActionView::Spawn(invocation@),
            Action::Complete(notice) => ActionView::Complete(notice@),
            Action::Abort(error) => ActionView::Abort(error@),
        }
    }
}

impl ActionView {
    /// Whether `event` is something the caller can report after performing
    /// the action. The two actions that end a session have no answer.
    pub open spec fn answered_by(self, event: EventView) -> bool {
        match self {
            ActionView::Prompt(_) => event is PasswordEntered || event is PasswordUnavailable,
            ActionView::Spawn(_) => event is Exited || event is SpawnFailed,
            ActionView::Complete(_) => false,
            ActionView::Abort(_) => false,
        }
    }
}

/// The text that asks for the password of `environment`.
pub open spec fn password_prompt(environment: Environment) -> Seq<char> {
    "Enter SSH password for "@ + environment.display_name() + ": "@
}

/// The text that reports a clean end.
pub open spec fn completion_notice() -> Seq<char> {
    "Session ended."@
}

impl RequestView {
    /// Whether a connection method exists. Prod has none for a service target.
    pub open spec fn supported(self) -> bool {
        !(self.environment == Environment::Prod && self.target is Some)
    }

    /// The command that the jump host is to run, if any.
    pub open spec fn inner_command(self) -> Option<Seq<char>> {
        match self.target {
            Some(target) => Some(target.inner_command()),
            None => None,
        }
    }

    /// The name of the pod aimed at, if any.
    pub open spec fn service(self) -> Option<Seq<char>> {
        match self.target {
            Some(target) => Some(target.pod_name()),
            None => None,
        }
    }

    /// What follows once the password is known: the child process, or the
    /// refusal of a request that has no connection method.
    pub open spec fn launch(self, password: Seq<char>) -> (Phase, ActionView) {
        if self.supported() {
            (
                Phase::AwaitingExit,
                ActionView::Spawn(ssh_invocation(self.environment, password, self.inner_command())),
            )
        } else {
            (Phase::Finished, ActionView::Abort(ConnectErrorView::Unimplemented))
        }
    }

    /// What an exit code means: zero is a clean end, anything else, or no
    /// code at all, a failed connection.
    pub open spec fn verdict(self, code: Option<i32>) -> ActionView {
        if code == Some(0i32) {
            ActionView::Complete(completion_notice())
        } else {
            ActionView::Abort(
                ConnectErrorView::ConnectionFailed {
                    environment: self.environment,
                    service: self.service(),
                },
            )
        }
    }

    /// The transition relation: the next phase and the action that `event`
    /// calls for in `phase`, or `None` where `phase` is not waiting for it.
    pub open spec fn transition(self, phase: Phase, event: EventView) -> Option<(Phase, ActionView)> {
        match (phase, event) {
            (Phase::Ready, EventView::Start) => Some(
                (Phase::AwaitingPassword, ActionView::Prompt(password_prompt(self.environment))),
            ),
            (Phase::AwaitingPassword, EventView::PasswordEntered(password)) => Some(
                self.launch(password),
            ),
            (Phase::AwaitingPassword, EventView::PasswordUnavailable(detail)) => Some(
                (Phase::Finished, ActionView::Abort(ConnectErrorView::PasswordRead(detail))),
            ),
            (Phase::AwaitingExit, EventView::Exited(code)) => Some(
                (Phase::Finished, self.verdict(code)),
            ),
            (Phase::AwaitingExit, EventView::SpawnFailed(detail)) => Some(
                (Phase::Finished, ActionView::Abort(ConnectErrorView::Spawn(detail))),
            ),
            _ => None,
        }
    }

    /// The actions that `events`, reported in order, draw from a session in
    /// `phase`. An event that the session is not waiting for draws none and
    /// leaves the session where it was.
    pub open spec fn actions(self, phase: Phase, events: Seq<EventView>) -> Seq<ActionView>
        decreases events.len(),
    {
        if events.len() == 0 {
            Seq::empty()
        } else {
            match self.transition(phase, events.first()) {
                Some((next, action)) => seq![action] + self.actions(next, events.drop_first()),
                None => self.actions(phase, events.drop_first()),
            }
        }
    }
}

impl Request {
    /// A request for a session against `environment`, inside the pod
    /// `target` if there is one, else on the jump host itself.
    pub fn new(environment: Environment, target: Option<ServiceTarget>) -> (request: Request)
        ensures
            request.environment == environment,
            request.target == target,
    {
        Request { environment, target }
    }

    /// Builds the text that asks for the password.
    pub fn password_prompt(&self) -> (text: String)
        ensures
            text@ == password_prompt(self.environment),
    {
        let (_, _, display_name) = self.environment.get_ssh_details();
        let mut text = String::from_str("Enter SSH password for ");
        text.append(display_name);
        text.append(": ");
        text
    }

    /// Decides what follows once the password is known.
    pub fn launch(&self, password: String) -> (next: (Phase, Action))
        ensures
            (next.0, next.1@) == self@.launch(password@),
    {
        match &self.target {
            Some(target) => {
                match self.environment {
                    Environment::Prod => (Phase::Finished, Action::Abort(ConnectError::Unimplemented)),
                    _ => {
                        let command = target.inner_command();
                        (
                            Phase::AwaitingExit,
                            Action::Spawn(Invocation::ssh(self.environment, password, Some(command))),
                        )
                    },
                }
            },
            None => (
                Phase::AwaitingExit,
                Action::Spawn(Invocation::ssh(self.environment, password, None)),
            ),
        }
    }

    /// Decides what the child's exit means.
    pub fn verdict(&self, code: Option<i32>) -> (action: Action)
        ensures
            action@ == self@.verdict(code),
    {
        let clean = match code {
            Some(value) => value == 0,
            None => false,
        };
        if clean {
            Action::Complete(String::from_str("Session ended."))
        } else {
            let service = match &self.target {
                Some(target) => Some(target.pod_name()),
                None => None,
            };
            Action::Abort(ConnectError::ConnectionFailed { environment: self.environment, service })
        }
    }

    /// Advances the session by one event.
    ///
    /// Returns the next phase and the action to perform, or `None` where
    /// `phase` is not waiting for `event`; the session is then where it was.
    pub fn step(&self, phase: Phase, event: Event) -> (next: Option<(Phase, Action)>)
        ensures
            match next {
                Some((phase_after, action)) => self@.transition(phase, event@) == Some(
                    (phase_after, action@),
                ),
                None => self@.transition(phase, event@) is None,
            },
    {
        match phase {
            Phase::Ready => match event {
                Event::Start => Some(
                    (Phase::AwaitingPassword, Action::Prompt(self.password_prompt())),
                ),
                _ => None,
            },
            Phase::AwaitingPassword => match event {
                Event::PasswordEntered(password) => Some(self.launch(password)),
                Event::PasswordUnavailable(detail) => Some(
                    (Phase::Finished, Action::Abort(ConnectError::PasswordRead(detail))),
                ),
                _ => None,
            },
            Phase::AwaitingExit => match event {
                Event::Exited(code) => Some((Phase::Finished, self.verdict(code))),
                Event::SpawnFailed(detail) => Some(
                    (Phase::Finished, Action::Abort(ConnectError::Spawn(detail))),
                ),
                _ => None,
            },
            Phase::Finished => None,
        }
    }
}

/// The action tells the phase that follows it, and whatever the caller can
/// report after performing an action is taken: a caller that answers each
/// action in turn is never turned away, and is done once it is told to
/// complete or to abort.
pub proof fn lemma_answers_are_taken(
    request: RequestView,
    phase: Phase,
    event: EventView,
    answer: EventView,
)
    requires
        request.transition(phase, event) is Some,
    ensures
        ({
            let (next, action) = request.transition(phase, event)->0;
            &&& action is Prompt <==> next == Phase::AwaitingPassword
            &&& action is Spawn <==> next == Phase::AwaitingExit
            &&& action is Complete || action is Abort <==> next == Phase::Finished
            &&& action.answered_by(answer) <==> request.transition(next, answer) is Some
        }),
{
}

/// A request against Prod with a service target is refused as soon as the
/// password is known: the session ends with [`ConnectError::Unimplemented`],
/// whatever the password.
pub proof fn lemma_prod_target_is_refused(request: RequestView, password: Seq<char>)
    requires
        request.environment == Environment::Prod,
        request.target is Some,
    ensures
        request.transition(Phase::AwaitingPassword, EventView::PasswordEntered(password)) == Some(
            (Phase::Finished, ActionView::Abort(ConnectErrorView::Unimplemented)),
        ),
        request.actions(
            Phase::Ready,
            seq![EventView::Start, EventView::PasswordEntered(password)],
        ) == seq![
            ActionView::Prompt(password_prompt(Environment::Prod)),
            ActionView::Abort(ConnectErrorView::Unimplemented),
        ],
{
    reveal_with_fuel(RequestView::actions, 3);
}

/// A request without a connection method draws neither a child process nor
/// a clean end from any phase that is not already waiting for a child.
proof fn lemma_unsupported_never_launches(
    request: RequestView,
    phase: Phase,
    events: Seq<EventView>,
)
    requires
        !request.supported(),
        phase != Phase::AwaitingExit,
    ensures
        forall|i: int|
            0 <= i < request.actions(phase, events).len() ==> {
                let action = #[trigger] request.actions(phase, events)[i];
                !(action is Spawn) && !(action is Complete)
            },
    decreases events.len(),
{
    if events.len() > 0 {
        match request.transition(phase, events.first()) {
            Some((next, _)) => {
                lemma_unsupported_never_launches(request, next, events.drop_first());
            },
            None => {
                lemma_unsupported_never_launches(request, phase, events.drop_first());
            },
        }
    }
}

/// A session against Prod with a service target never asks for a child
/// process and never ends well, whatever is reported to it and in whatever
/// order.
pub proof fn lemma_prod_target_never_spawns(request: RequestView, events: Seq<EventView>)
    requires
        request.environment == Environment::Prod,
        request.target is Some,
    ensures
        forall|i: int|
            0 <= i < request.actions(Phase::Ready, events).len() ==> {
                let action = #[trigger] request.actions(Phase::Ready, events)[i];
                !(action is Spawn) && !(action is Complete)
            },
{
    lemma_unsupported_never_launches(request, Phase::Ready, events);
}

/// A zero exit code ends the session well, with the completion notice. Any
/// other outcome of the child ends it with a failure that names the
/// environment and, where there is one, the service.
pub proof fn lemma_exit_code_decides(request: RequestView, code: Option<i32>)
    ensures
        code == Some(0i32) ==> request.transition(Phase::AwaitingExit, EventView::Exited(code))
            == Some((Phase::Finished, ActionView::Complete("Session ended."@))),
        code != Some(0i32) ==> request.transition(Phase::AwaitingExit, EventView::Exited(code))
            == Some(
            (
                Phase::Finished,
                ActionView::Abort(
                    ConnectErrorView::ConnectionFailed {
                        environment: request.environment,
                        service: request.service(),
                    },
                ),
            ),
        ),
        request.target matches Some(target) ==> (ConnectErrorView::ConnectionFailed {
            environment: request.environment,
            service: request.service(),
        }).message() == "Connection to "@ + request.environment.display_name() + " or service "@
            + target.service_type + "-"@ + target.version + " failed"@,
        request.target is None ==> (ConnectErrorView::ConnectionFailed {
            environment: request.environment,
            service: request.service(),
        }).message() == "Connection to "@ + request.environment.display_name() + " failed"@,
{
}

/// Wherever a child process is asked for, with or without a service target,
/// the client is pointed at the port of the environment's jump host: 7777
/// for QA and RFS, 22 for Prod.
pub proof fn lemma_port_selection(request: RequestView, password: Seq<char>)
    requires
        request.supported(),
    ensures
        request.launch(password).1 matches ActionView::Spawn(invocation) && invocation.args[6]
            == "-p"@ && invocation.args[7] == request.environment.port(),
        request.environment.port() == if request.environment == Environment::Prod {
            "22"@
        } else {
            "7777"@
        },
{
}

} // verus!
