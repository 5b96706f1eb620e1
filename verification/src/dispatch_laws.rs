//! What holds of every run of a dispatch.
//!
//! A run is the sequence of observations that a dispatch is stepped on, each
//! an event together with the configuration read at that moment. The laws
//! below are stated over every such sequence, whatever its events and
//! whatever the configuration held at each step.

use crate::dispatch::enter_primary;
use crate::dispatch::next;
use crate::dispatch::pre_delay_seconds;
use crate::dispatch::primary_command;
use crate::dispatch::warning_command;
use crate::dispatch::ActionRequest;
use crate::dispatch::DispatchEvent;
use crate::dispatch::DispatchState;
use crate::dispatch::Plan;
use crate::marker::EventKind;
use crate::pishock_client::OperationType;
use crate::settings::LiveSettings;
use crate::span::NANOS_PER_SECOND;
use vstd::prelude::*;

verus! {

/// What a dispatch sees at one step.
pub struct Observation {
    pub event: DispatchEvent,
    pub settings: LiveSettings,
}

/// The state of a dispatch for `kind` after the observations `run`.
pub open spec fn state_after(kind: EventKind, run: Seq<Observation>) -> DispatchState
    decreases run.len(),
{
    if run.len() == 0 {
        DispatchState::Pending
    } else {
        next(kind, state_after(kind, run.drop_last()), run.last().event, run.last().settings).0
    }
}

/// What the dispatch asks for at step `k` of `run`.
pub open spec fn plan_at(kind: EventKind, run: Seq<Observation>, k: int) -> Plan {
    next(kind, state_after(kind, run.take(k)), run[k].event, run[k].settings).1
}

/// Whether `plan` sends the primary action.
pub open spec fn is_primary_action(plan: Plan) -> bool {
    plan matches Plan::Issue(command) && command.op == OperationType::Shock
}

/// How far along a state is in the sequence of a dispatch.
pub open spec fn rank(state: DispatchState) -> nat {
    match state {
        DispatchState::Pending => 0,
        DispatchState::PreDelay { .. } => 1,
        DispatchState::Warning => 2,
        DispatchState::Compensating { .. } => 3,
        DispatchState::Primary => 4,
        DispatchState::Finished(_) => 5,
    }
}

/// The time that has gone by when `event` arrives in `state`: the pause that
/// the state was waiting out, or the round trip of the warning pulse.
pub open spec fn time_passed(state: DispatchState, event: DispatchEvent) -> nat {
    match (state, event) {
        (DispatchState::PreDelay { seconds }, DispatchEvent::Elapsed) => (seconds
            * NANOS_PER_SECOND) as nat,
        (DispatchState::Compensating { remainder }, DispatchEvent::Elapsed) => remainder.total_nanos(),
        (DispatchState::Warning, DispatchEvent::Replied { latency, .. }) => latency.total_nanos(),
        _ => 0,
    }
}

/// The least time, in nanoseconds, that has gone by since the dispatch began
/// when the last observation of `run` arrives.
pub open spec fn waited(kind: EventKind, run: Seq<Observation>) -> nat
    decreases run.len(),
{
    if run.len() == 0 {
        0
    } else {
        waited(kind, run.drop_last()) + time_passed(
            state_after(kind, run.drop_last()),
            run.last().event,
        )
    }
}

/// The states of a dispatch follow one another in one order: a step keeps
/// the state, with nothing asked for, or moves to a later one.
pub proof fn law_states_are_sequential(
    kind: EventKind,
    state: DispatchState,
    event: DispatchEvent,
    settings: LiveSettings,
)
    ensures
        next(kind, state, event, settings).0 == state || rank(
            next(kind, state, event, settings).0,
        ) > rank(state),
        next(kind, state, event, settings).0 == state ==> next(kind, state, event, settings).1
            == Plan::Idle,
        state is Finished ==> next(kind, state, event, settings) == (state, Plan::Idle),
{
}

/// The primary action is asked for by the very step that enters the state
/// `Primary`, and by no other.
pub proof fn lemma_primary_action_enters_primary(
    kind: EventKind,
    state: DispatchState,
    event: DispatchEvent,
    settings: LiveSettings,
)
    requires
        is_primary_action(next(kind, state, event, settings).1),
    ensures
        next(kind, state, event, settings) == enter_primary(kind, settings),
        rank(state) < 4,
{
}

proof fn lemma_take_step(run: Seq<Observation>, n: int)
    requires
        0 < n <= run.len(),
    ensures
        run.take(n).drop_last() == run.take(n - 1),
        run.take(n).last() == run[n - 1],
{
    assert(run.take(n).drop_last() =~= run.take(n - 1));
}

/// Along a run, the state never goes back.
pub proof fn lemma_rank_grows_along_run(kind: EventKind, run: Seq<Observation>, a: int, b: int)
    requires
        0 <= a <= b <= run.len(),
    ensures
        rank(state_after(kind, run.take(a))) <= rank(state_after(kind, run.take(b))),
    decreases b - a,
{
    if a < b {
        lemma_rank_grows_along_run(kind, run, a, b - 1);
        lemma_take_step(run, b);
        law_states_are_sequential(
            kind,
            state_after(kind, run.take(b - 1)),
            run[b - 1].event,
            run[b - 1].settings,
        );
    }
}

/// Where the warning pulse fails, the primary action is never sent: not
/// before the failure, not in answer to it, and not at any later step.
pub proof fn law_failed_warning_forbids_primary(
    kind: EventKind,
    run: Seq<Observation>,
    j: int,
    k: int,
)
    requires
        0 <= j < run.len(),
        0 <= k < run.len(),
        state_after(kind, run.take(j)) == DispatchState::Warning,
        run[j].event matches DispatchEvent::Replied { ok, .. } && !ok,
    ensures
        !is_primary_action(plan_at(kind, run, k)),
{
    if is_primary_action(plan_at(kind, run, k)) {
        lemma_primary_action_enters_primary(
            kind,
            state_after(kind, run.take(k)),
            run[k].event,
            run[k].settings,
        );
        lemma_take_step(run, k + 1);
        assert(state_after(kind, run.take(k + 1)) == DispatchState::Primary);
        if k < j {
            lemma_rank_grows_along_run(kind, run, k + 1, j);
        } else if k > j {
            lemma_take_step(run, j + 1);
            assert(state_after(kind, run.take(j + 1)) is Finished);
            lemma_rank_grows_along_run(kind, run, j + 1, k);
        }
    }
}

/// A dispatch sends the primary action at most once.
pub proof fn law_primary_is_sent_at_most_once(
    kind: EventKind,
    run: Seq<Observation>,
    j: int,
    k: int,
)
    requires
        0 <= j < run.len(),
        0 <= k < run.len(),
        is_primary_action(plan_at(kind, run, j)),
        is_primary_action(plan_at(kind, run, k)),
    ensures
        j == k,
{
    lemma_primary_action_enters_primary(
        kind,
        state_after(kind, run.take(j)),
        run[j].event,
        run[j].settings,
    );
    lemma_primary_action_enters_primary(
        kind,
        state_after(kind, run.take(k)),
        run[k].event,
        run[k].settings,
    );
    lemma_take_step(run, j + 1);
    lemma_take_step(run, k + 1);
    if j < k {
        lemma_rank_grows_along_run(kind, run, j + 1, k);
    } else if k < j {
        lemma_rank_grows_along_run(kind, run, k + 1, j);
    }
}

/// The primary action carries the intensity of the configuration read at
/// the step that sends it, whatever the configuration held at any earlier
/// step of the run, and acts for one second.
pub proof fn law_intensity_is_read_when_sent(kind: EventKind, run: Seq<Observation>, k: int)
    requires
        0 <= k < run.len(),
        is_primary_action(plan_at(kind, run, k)),
    ensures
        plan_at(kind, run, k) == Plan::Issue(primary_command(kind, run[k].settings)),
        plan_at(kind, run, k)->Issue_0.intensity == Some(
            ActionRequest::spec_for_event(kind, run[k].settings).intensity,
        ),
        kind == EventKind::Minor ==> plan_at(kind, run, k)->Issue_0.intensity == Some(
            run[k].settings.minor_intensity,
        ),
        kind == EventKind::Major ==> plan_at(kind, run, k)->Issue_0.intensity == Some(
            run[k].settings.major_intensity,
        ),
{
    lemma_primary_action_enters_primary(
        kind,
        state_after(kind, run.take(k)),
        run[k].event,
        run[k].settings,
    );
}

/// What the time gone by is at least, state by state, in a run along which
/// the warning pulse is switched on and the delay before it is `delay`
/// seconds.
pub open spec fn waited_enough(state: DispatchState, waited: nat, delay: u64) -> bool {
    match state {
        DispatchState::Pending => true,
        DispatchState::PreDelay { seconds } => seconds == delay,
        DispatchState::Warning => waited >= delay * NANOS_PER_SECOND,
        DispatchState::Compensating { remainder } => waited + remainder.total_nanos() >= (delay
            + 1) * NANOS_PER_SECOND,
        DispatchState::Primary => waited >= (delay + 1) * NANOS_PER_SECOND,
        DispatchState::Finished(_) => true,
    }
}

proof fn lemma_waited_enough_along_run(
    kind: EventKind,
    run: Seq<Observation>,
    n: int,
    delay: u64,
)
    requires
        0 <= n <= run.len(),
        forall|i: int|
            0 <= i < n ==> (#[trigger] run[i]).settings.warning_pulse_enabled && pre_delay_seconds(
                kind,
                run[i].settings,
            ) == delay,
    ensures
        waited_enough(state_after(kind, run.take(n)), waited(kind, run.take(n)), delay),
    decreases n,
{
    if n > 0 {
        lemma_waited_enough_along_run(kind, run, n - 1, delay);
        lemma_take_step(run, n);
        let before = state_after(kind, run.take(n - 1));
        let seen = run[n - 1];
        assert(seen.settings.warning_pulse_enabled);
        assert(pre_delay_seconds(kind, seen.settings) == delay);
        assert(state_after(kind, run.take(n)) == next(kind, before, seen.event, seen.settings).0);
        assert(waited(kind, run.take(n)) == waited(kind, run.take(n - 1)) + time_passed(
            before,
            seen.event,
        ));
    }
}

/// With the warning pulse switched on, the primary action is sent no sooner
/// than the delay before the warning and one full second after it: `delay`
/// seconds for a major event, none for a minor one, then the round trip of
/// the warning pulse filled up to a second.
pub proof fn law_primary_waits_for_delay_and_warning(
    kind: EventKind,
    run: Seq<Observation>,
    k: int,
    delay: u64,
)
    requires
        0 <= k < run.len(),
        forall|i: int|
            0 <= i <= k ==> (#[trigger] run[i]).settings.warning_pulse_enabled && pre_delay_seconds(
                kind,
                run[i].settings,
            ) == delay,
        is_primary_action(plan_at(kind, run, k)),
    ensures
        waited(kind, run.take(k + 1)) >= (delay + 1) * NANOS_PER_SECOND,
{
    lemma_waited_enough_along_run(kind, run, k + 1, delay);
    lemma_primary_action_enters_primary(
        kind,
        state_after(kind, run.take(k)),
        run[k].event,
        run[k].settings,
    );
    lemma_take_step(run, k + 1);
}

/// Every pause that a dispatch asks for is well formed and lasts some time:
/// its nanoseconds stay below a second, and it is not empty.
pub proof fn law_pauses_are_well_formed(
    kind: EventKind,
    state: DispatchState,
    event: DispatchEvent,
    settings: LiveSettings,
)
    ensures
        next(kind, state, event, settings).1 matches Plan::Sleep(span) ==> span.wf()
            && span.total_nanos() > 0,
{
}

/// Every command that a dispatch issues is the warning pulse or the primary
/// action, and acts for one second.
pub proof fn law_commands_are_warning_or_primary(
    kind: EventKind,
    state: DispatchState,
    event: DispatchEvent,
    settings: LiveSettings,
)
    ensures
        next(kind, state, event, settings).1 matches Plan::Issue(command) ==> {
            ||| command == warning_command() && settings.warning_pulse_enabled
            ||| command == primary_command(kind, settings)
        },
{
}

} // verus!
