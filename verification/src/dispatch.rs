//! The timed sequence of remote commands that follows one detected event.
//!
//! A dispatch is a small state machine. The caller performs what a step asks
//! for (a pause, a remote command) and reports back with the next event; the
//! machine decides what comes next from the configuration as it stands at
//! that moment. The machine never waits and never sends anything itself.

use crate::marker::EventKind;
use crate::pishock_client::Command;
use crate::pishock_client::CommandRequest;
use crate::pishock_client::CommandRequestView;
use crate::pishock_client::PiShockClient;
use crate::pishock_client::PiShockClientView;
use crate::pishock_client::request_for;
use crate::settings::LiveSettings;
use crate::settings::SyncedSettings;
use crate::span::Span;
use crate::span::NANOS_PER_SECOND;
use std::sync::Arc;
use vstd::prelude::*;

verus! {

/// Intensity of the warning pulse.
pub const WARNING_INTENSITY: u8 = 25;

/// Duration, in seconds, of every command that a dispatch issues.
pub const COMMAND_SECONDS: u8 = 1;

/// What the primary action of a dispatch carries: the intensity in force
/// when it is sent, and the kind of event it answers.
#[derive(Clone, Copy, Debug, PartialEq, Eq, Structural)]
pub struct ActionRequest {
    pub intensity: u8,
    pub is_major_event: bool,
}

impl ActionRequest {
    pub open spec fn spec_for_event(kind: EventKind, settings: LiveSettings) -> ActionRequest {
        match kind {
            EventKind::Minor => ActionRequest {
                intensity: settings.minor_intensity,
                is_major_event: false,
            },
            EventKind::Major => ActionRequest {
                intensity: settings.major_intensity,
                is_major_event: true,
            },
        }
    }

    /// The request for an event of this kind under this configuration.
    #[verifier::when_used_as_spec(spec_for_event)]
    pub fn for_event(kind: EventKind, settings: LiveSettings) -> (r: ActionRequest)
        ensures
            r == ActionRequest::spec_for_event(kind, settings),
    {
        match kind {
            EventKind::Minor => ActionRequest {
                intensity: settings.minor_intensity,
                is_major_event: false,
            },
            EventKind::Major => ActionRequest {
                intensity: settings.major_intensity,
                is_major_event: true,
            },
        }
    }
}

/// How a dispatch ended.
#[derive(Clone, Copy, Debug, PartialEq, Eq, Structural)]
pub enum Outcome {
    /// The primary action was sent and the service accepted it.
    Completed,
    /// The warning pulse failed; the primary action was not sent.
    WarningFailed,
    /// The primary action was sent and failed.
    PrimaryFailed,
}

/// Where a dispatch stands.
#[derive(Clone, Copy, Debug, PartialEq, Eq, Structural)]
pub enum DispatchState {
    /// Nothing has been asked for yet.
    Pending,
    /// The pause before a major event's warning is running.
    PreDelay { seconds: u64 },
    /// The warning pulse is on its way.
    Warning,
    /// The pause that fills the second after the warning is running.
    Compensating { remainder: Span },
    /// The primary action is on its way.
    Primary,
    /// The dispatch is over.
    Finished(Outcome),
}

/// What the caller reports to a dispatch.
#[derive(Clone, Copy, Debug, PartialEq, Eq, Structural)]
pub enum DispatchEvent {
    /// The dispatch is to start.
    Begin,
    /// The pause last asked for is over.
    Elapsed,
    /// The command last asked for came back: whether it succeeded, and how
    /// long the round trip took.
    Replied { ok: bool, latency: Span },
}

/// What a dispatch asks its caller to do next.
#[derive(Clone, Copy, Debug, PartialEq, Eq)]
pub enum Plan {
    /// Pause for this long, then report `Elapsed`.
    Sleep(Span),
    /// Send this command, then report `Replied`.
    Issue(Command),
    /// Report how the dispatch ended; nothing follows.
    Finish(Outcome),
    /// Nothing: the event does not belong to the state.
    Idle,
}

/// The seconds to pause before the warning: the configured delay for a major
/// event, none for a minor one.
pub open spec fn pre_delay_seconds(kind: EventKind, settings: LiveSettings) -> u64 {
    match kind {
        EventKind::Major => settings.major_event_delay_seconds,
        EventKind::Minor => 0,
    }
}

/// The warning pulse.
pub open spec fn warning_command() -> Command {
    Command::spec_vibrate(WARNING_INTENSITY, COMMAND_SECONDS)
}

/// The primary action, at the intensity that `settings` gives for `kind`.
pub open spec fn primary_command(kind: EventKind, settings: LiveSettings) -> Command {
    Command::spec_shock(ActionRequest::spec_for_event(kind, settings).intensity, COMMAND_SECONDS)
}

/// Going on to the primary action.
pub open spec fn enter_primary(kind: EventKind, settings: LiveSettings) -> (DispatchState, Plan) {
    (DispatchState::Primary, Plan::Issue(primary_command(kind, settings)))
}

/// Going on to the warning pulse, or past it where it is switched off.
pub open spec fn enter_warning(kind: EventKind, settings: LiveSettings) -> (DispatchState, Plan) {
    if settings.warning_pulse_enabled {
        (DispatchState::Warning, Plan::Issue(warning_command()))
    } else {
        enter_primary(kind, settings)
    }
}

/// How a finished command is recorded.
pub open spec fn primary_outcome(ok: bool) -> Outcome {
    if ok {
        Outcome::Completed
    } else {
        Outcome::PrimaryFailed
    }
}

/// One step of a dispatch for an event of `kind`: the state that follows
/// `state` on `event` under the configuration `settings`, and what the caller
/// is asked to do. An event that the state does not wait for changes nothing.
pub open spec fn next(
    kind: EventKind,
    state: DispatchState,
    event: DispatchEvent,
    settings: LiveSettings,
) -> (DispatchState, Plan) {
    match (state, event) {
        (DispatchState::Pending, DispatchEvent::Begin) => {
            let seconds = pre_delay_seconds(kind, settings);
            if seconds > 0 {
                (DispatchState::PreDelay { seconds }, Plan::Sleep(Span::spec_from_secs(seconds)))
            } else {
                enter_warning(kind, settings)
            }
        },
        (DispatchState::PreDelay { .. }, DispatchEvent::Elapsed) => enter_warning(kind, settings),
        (DispatchState::Warning, DispatchEvent::Replied { ok, latency }) => {
            if !ok {
                (
                    DispatchState::Finished(Outcome::WarningFailed),
                    Plan::Finish(Outcome::WarningFailed),
                )
            } else if latency.total_nanos() < NANOS_PER_SECOND {
                let remainder = latency.spec_rest_of_second();
                (DispatchState::Compensating { remainder }, Plan::Sleep(remainder))
            } else {
                enter_primary(kind, settings)
            }
        },
        (DispatchState::Compensating { .. }, DispatchEvent::Elapsed) => enter_primary(
            kind,
            settings,
        ),
        (DispatchState::Primary, DispatchEvent::Replied { ok, .. }) => (
            DispatchState::Finished(primary_outcome(ok)),
            Plan::Finish(primary_outcome(ok)),
        ),
        _ => (state, Plan::Idle),
    }
}

fn step_into_primary(kind: EventKind, settings: LiveSettings) -> (r: (DispatchState, Plan))
    ensures
        r == enter_primary(kind, settings),
{
    let request = ActionRequest::for_event(kind, settings);
    (DispatchState::Primary, Plan::Issue(Command::shock(request.intensity, COMMAND_SECONDS)))
}

fn step_into_warning(kind: EventKind, settings: LiveSettings) -> (r: (DispatchState, Plan))
    ensures
        r == enter_warning(kind, settings),
{
    if settings.warning_pulse_enabled {
        (
            DispatchState::Warning,
            Plan::Issue(Command::vibrate(WARNING_INTENSITY, COMMAND_SECONDS)),
        )
    } else {
        step_into_primary(kind, settings)
    }
}

/// Computes one step of a dispatch.
pub fn next_step(
    kind: EventKind,
    state: DispatchState,
    event: DispatchEvent,
    settings: LiveSettings,
) -> (r: (DispatchState, Plan))
    ensures
        r == next(kind, state, event, settings),
{
    match state {
        DispatchState::Pending => match event {
            DispatchEvent::Begin => {
                let seconds: u64 = match kind {
                    EventKind::Major => settings.major_event_delay_seconds,
                    EventKind::Minor => 0,
                };
                if seconds > 0 {
                    (DispatchState::PreDelay { seconds }, Plan::Sleep(Span::from_secs(seconds)))
                } else {
                    step_into_warning(kind, settings)
                }
            },
            _ => (state, Plan::Idle),
        },
        DispatchState::PreDelay { .. } => match event {
            DispatchEvent::Elapsed => step_into_warning(kind, settings),
            _ => (state, Plan::Idle),
        },
        DispatchState::Warning => match event {
            DispatchEvent::Replied { ok, latency } => {
                if !ok {
                    (
                        DispatchState::Finished(Outcome::WarningFailed),
                        Plan::Finish(Outcome::WarningFailed),
                    )
                } else if latency.under_a_second() {
                    let remainder = latency.rest_of_second();
                    (DispatchState::Compensating { remainder }, Plan::Sleep(remainder))
                } else {
                    step_into_primary(kind, settings)
                }
            },
            _ => (state, Plan::Idle),
        },
        DispatchState::Compensating { .. } => match event {
            DispatchEvent::Elapsed => step_into_primary(kind, settings),
            _ => (state, Plan::Idle),
        },
        DispatchState::Primary => match event {
            DispatchEvent::Replied { ok, .. } => {
                let outcome = if ok {
                    Outcome::Completed
                } else {
                    Outcome::PrimaryFailed
                };
                (DispatchState::Finished(outcome), Plan::Finish(outcome))
            },
            _ => (state, Plan::Idle),
        },
        DispatchState::Finished(_) => (state, Plan::Idle),
    }
}

/// What a dispatch holds, as mathematical values.
pub struct DispatchTaskView {
    /// The account and device that the dispatch sends for.
    pub client: PiShockClientView,
    /// The shared configuration that the dispatch reads.
    pub settings: Arc<SyncedSettings>,
    pub kind: EventKind,
    pub state: DispatchState,
}

/// What a dispatch asks of its caller, as mathematical values.
pub enum DispatchActionView {
    Sleep(Span),
    Send(CommandRequestView),
    Finish(Outcome),
    Idle,
}

/// What a dispatch asks its caller to do next, ready to be carried out.
#[derive(Debug, PartialEq, Eq)]
pub enum DispatchAction {
    /// Pause for this long, without holding up anything else, then report
    /// `Elapsed`.
    Sleep(Span),
    /// Send this request, measure how long the round trip takes, then report
    /// `Replied`.
    Send(CommandRequest),
    /// Report how the dispatch ended; nothing follows.
    Finish(Outcome),
    /// Nothing: the event does not belong to the state.
    Idle,
}

impl View for DispatchAction {
    type V = DispatchActionView;

    open spec fn view(&self) -> DispatchActionView {
        match self {
            DispatchAction::Sleep(span) => DispatchActionView::Sleep(*span),
            DispatchAction::Send(request) => DispatchActionView::Send(request@),
            DispatchAction::Finish(outcome) => DispatchActionView::Finish(*outcome),
            DispatchAction::Idle => DispatchActionView::Idle,
        }
    }
}

/// The action that carries out `plan` for the account and device `client`.
pub open spec fn carry_out(plan: Plan, client: PiShockClientView) -> DispatchActionView {
    match plan {
        Plan::Sleep(span) => DispatchActionView::Sleep(span),
        Plan::Issue(command) => DispatchActionView::Send(request_for(client, command)),
        Plan::Finish(outcome) => DispatchActionView::Finish(outcome),
        Plan::Idle => DispatchActionView::Idle,
    }
}

/// A dispatch after one step on `event` under `settings`, and the action
/// that the step asks for.
pub open spec fn stepped(task: DispatchTaskView, event: DispatchEvent, settings: LiveSettings) -> (
    DispatchTaskView,
    DispatchActionView,
) {
    let (state, plan) = next(task.kind, task.state, event, settings);
    (
        DispatchTaskView { client: task.client, settings: task.settings, kind: task.kind, state },
        carry_out(plan, task.client),
    )
}

/// One dispatch in flight: the sequence of commands that answers one
/// detected event. It has its own handle on the remote account and on the
/// shared configuration, and no tie to whatever started it.
#[derive(Debug)]
pub struct DispatchTask {
    client: PiShockClient,
    settings: Arc<SyncedSettings>,
    kind: EventKind,
    state: DispatchState,
}

impl View for DispatchTask {
    type V = DispatchTaskView;

    closed spec fn view(&self) -> DispatchTaskView {
        DispatchTaskView {
            client: self.client@,
            settings: self.settings,
            kind: self.kind,
            state: self.state,
        }
    }
}

impl DispatchTask {
    /// A dispatch for an event of `kind` that has not begun.
    pub fn new(client: PiShockClient, settings: Arc<SyncedSettings>, kind: EventKind) -> (r: Self)
        ensures
            r@ == (DispatchTaskView {
                client: client@,
                settings,
                kind,
                state: DispatchState::Pending,
            }),
    {
        DispatchTask { client, settings, kind, state: DispatchState::Pending }
    }

    /// The kind of event that the dispatch answers.
    pub fn kind(&self) -> (r: EventKind)
        ensures
            r == self@.kind,
    {
        self.kind
    }

    /// Where the dispatch stands.
    pub fn state(&self) -> (r: DispatchState)
        ensures
            r == self@.state,
    {
        self.state
    }

    /// Takes one step on `event` under the configuration `settings`, which
    /// the caller read just now.
    pub fn step(&mut self, event: DispatchEvent, settings: LiveSettings) -> (r: DispatchAction)
        ensures
            (final(self)@, r@) == stepped(old(self)@, event, settings),
    {
        let (state, plan) = next_step(self.kind, self.state, event, settings);
        self.state = state;
        match plan {
            Plan::Sleep(span) => DispatchAction::Sleep(span),
            Plan::Issue(command) => DispatchAction::Send(self.client.make_request(command)),
            Plan::Finish(outcome) => DispatchAction::Finish(outcome),
            Plan::Idle => DispatchAction::Idle,
        }
    }

    /// Takes one step on `event` under the shared configuration as it stands
    /// at this moment. Whatever is read there, the step is the one that
    /// `stepped` gives for it.
    pub fn advance(&mut self, event: DispatchEvent) -> (r: DispatchAction)
        ensures
            exists|settings: LiveSettings|
                (final(self)@, r@) == #[trigger] stepped(old(self)@, event, settings),
    {
        let settings = self.settings.snapshot();
        let action = self.step(event, settings);
        assert((self@, action@) == stepped(old(self)@, event, settings));
        action
    }
}

} // verus!
