use prompt_or_shock::dispatch::next_step;
use prompt_or_shock::dispatch::ActionRequest;
use prompt_or_shock::dispatch::DispatchAction;
use prompt_or_shock::dispatch::DispatchEvent;
use prompt_or_shock::dispatch::DispatchState;
use prompt_or_shock::dispatch::DispatchTask;
use prompt_or_shock::dispatch::Outcome;
use prompt_or_shock::dispatch::Plan;
use prompt_or_shock::dispatch::COMMAND_SECONDS;
use prompt_or_shock::dispatch::WARNING_INTENSITY;
use prompt_or_shock::marker::EventKind;
use prompt_or_shock::pishock_client::Command;
use prompt_or_shock::pishock_client::PiShockClient;
use prompt_or_shock::settings::LiveSettings;
use prompt_or_shock::settings::SyncedSettings;
use prompt_or_shock::span::Span;
use prompt_or_shock::span::NANOS_PER_SECOND;

fn settings(minor: u8, major: u8, delay: u64, warning: bool) -> LiveSettings {
    LiveSettings {
        minor_intensity: minor,
        major_intensity: major,
        major_event_delay_seconds: delay,
        warning_pulse_enabled: warning,
    }
}

fn millis(ms: u32) -> Span {
    Span { secs: (ms / 1000) as u64, nanos: (ms % 1000) * 1_000_000 }
}

fn replied(ok: bool, ms: u32) -> DispatchEvent {
    DispatchEvent::Replied { ok, latency: millis(ms) }
}

fn nanos(span: Span) -> u128 {
    span.secs as u128 * 1_000_000_000 + span.nanos as u128
}

/// Runs a dispatch over `events` under one configuration and returns the
/// plans it gives, with the state it ends in.
fn run(kind: EventKind, config: LiveSettings, events: &[DispatchEvent]) -> (Vec<Plan>, DispatchState) {
    let mut state = DispatchState::Pending;
    let mut plans = Vec::new();
    for event in events {
        let (next, plan) = next_step(kind, state, *event, config);
        state = next;
        plans.push(plan);
    }
    (plans, state)
}

#[test]
fn constants_are_those_of_the_warning_pulse() {
    assert_eq!(WARNING_INTENSITY, 25);
    assert_eq!(COMMAND_SECONDS, 1);
    assert_eq!(NANOS_PER_SECOND, 1_000_000_000);
}

#[test]
fn major_event_waits_warns_fills_the_second_and_shocks() {
    let config = settings(10, 80, 2, true);
    let events = [
        DispatchEvent::Begin,
        DispatchEvent::Elapsed,
        replied(true, 300),
        DispatchEvent::Elapsed,
        replied(true, 250),
    ];
    let (plans, state) = run(EventKind::Major, config, &events);
    assert_eq!(
        plans,
        vec![
            Plan::Sleep(Span { secs: 2, nanos: 0 }),
            Plan::Issue(Command::vibrate(25, 1)),
            Plan::Sleep(Span { secs: 0, nanos: 700_000_000 }),
            Plan::Issue(Command::shock(80, 1)),
            Plan::Finish(Outcome::Completed),
        ]
    );
    assert_eq!(state, DispatchState::Finished(Outcome::Completed));
}

#[test]
fn primary_action_comes_no_sooner_than_delay_plus_one_second() {
    for delay in [0u64, 2, 7] {
        for latency in [0u32, 1, 300, 999, 1000, 1001, 4500] {
            let config = settings(10, 80, delay, true);
            let mut state = DispatchState::Pending;
            let mut event = DispatchEvent::Begin;
            let mut waited: u128 = 0;
            let mut sent = false;
            for _ in 0..6 {
                let (next, plan) = next_step(EventKind::Major, state, event, config);
                state = next;
                match plan {
                    Plan::Sleep(span) => {
                        waited += nanos(span);
                        event = DispatchEvent::Elapsed;
                    }
                    Plan::Issue(command) if command == Command::vibrate(25, 1) => {
                        waited += nanos(millis(latency));
                        event = replied(true, latency);
                    }
                    Plan::Issue(command) => {
                        assert_eq!(command, Command::shock(80, 1));
                        sent = true;
                        break;
                    }
                    other => panic!("unexpected plan {:?}", other),
                }
            }
            assert!(sent);
            let least = (delay as u128 + 1) * 1_000_000_000;
            assert!(waited >= least);
            if latency < 1000 {
                assert_eq!(waited, least);
            }
        }
    }
}

#[test]
fn zero_delay_goes_straight_to_the_warning() {
    let (state, plan) =
        next_step(EventKind::Major, DispatchState::Pending, DispatchEvent::Begin, settings(10, 80, 0, true));
    assert_eq!(state, DispatchState::Warning);
    assert_eq!(plan, Plan::Issue(Command::vibrate(25, 1)));
}

#[test]
fn minor_event_skips_the_delay() {
    let config = settings(10, 80, 30, true);
    let (plans, state) = run(
        EventKind::Minor,
        config,
        &[DispatchEvent::Begin, replied(true, 400), DispatchEvent::Elapsed],
    );
    assert_eq!(
        plans,
        vec![
            Plan::Issue(Command::vibrate(25, 1)),
            Plan::Sleep(Span { secs: 0, nanos: 600_000_000 }),
            Plan::Issue(Command::shock(10, 1)),
        ]
    );
    assert_eq!(state, DispatchState::Primary);
}

#[test]
fn without_warning_the_primary_action_follows_at_once() {
    let config = settings(10, 80, 5, false);
    let (state, plan) =
        next_step(EventKind::Minor, DispatchState::Pending, DispatchEvent::Begin, config);
    assert_eq!((state, plan), (DispatchState::Primary, Plan::Issue(Command::shock(10, 1))));

    let (plans, state) = run(EventKind::Major, config, &[DispatchEvent::Begin, DispatchEvent::Elapsed]);
    assert_eq!(
        plans,
        vec![Plan::Sleep(Span { secs: 5, nanos: 0 }), Plan::Issue(Command::shock(80, 1))]
    );
    assert_eq!(state, DispatchState::Primary);
}

#[test]
fn rest_of_the_second_is_exact() {
    assert_eq!(Span { secs: 0, nanos: 0 }.rest_of_second(), Span { secs: 1, nanos: 0 });
    assert_eq!(Span { secs: 0, nanos: 1 }.rest_of_second(), Span { secs: 0, nanos: 999_999_999 });
    assert_eq!(
        Span { secs: 0, nanos: 999_999_999 }.rest_of_second(),
        Span { secs: 0, nanos: 1 }
    );
    assert_eq!(
        Span { secs: 0, nanos: 123_456_789 }.rest_of_second(),
        Span { secs: 0, nanos: 876_543_211 }
    );
    assert!(Span { secs: 0, nanos: 999_999_999 }.under_a_second());
    assert!(!Span { secs: 1, nanos: 0 }.under_a_second());
    assert!(!Span { secs: 0, nanos: 1_000_000_000 }.under_a_second());
    assert_eq!(Span::from_secs(9), Span { secs: 9, nanos: 0 });
}

#[test]
fn warning_round_trip_decides_the_pause() {
    let config = settings(10, 80, 0, true);
    let warned = DispatchState::Warning;
    assert_eq!(
        next_step(EventKind::Minor, warned, replied(true, 0), config),
        (
            DispatchState::Compensating { remainder: Span { secs: 1, nanos: 0 } },
            Plan::Sleep(Span { secs: 1, nanos: 0 })
        )
    );
    let almost = DispatchEvent::Replied { ok: true, latency: Span { secs: 0, nanos: 999_999_999 } };
    assert_eq!(
        next_step(EventKind::Minor, warned, almost, config),
        (
            DispatchState::Compensating { remainder: Span { secs: 0, nanos: 1 } },
            Plan::Sleep(Span { secs: 0, nanos: 1 })
        )
    );
    assert_eq!(
        next_step(EventKind::Minor, warned, replied(true, 1000), config),
        (DispatchState::Primary, Plan::Issue(Command::shock(10, 1)))
    );
    assert_eq!(
        next_step(EventKind::Minor, warned, replied(true, 2500), config),
        (DispatchState::Primary, Plan::Issue(Command::shock(10, 1)))
    );
}

#[test]
fn failed_warning_ends_the_dispatch_without_a_shock() {
    let config = settings(10, 80, 2, true);
    let events = [
        DispatchEvent::Begin,
        DispatchEvent::Elapsed,
        replied(false, 120),
        DispatchEvent::Elapsed,
        replied(true, 10),
        DispatchEvent::Begin,
        DispatchEvent::Elapsed,
    ];
    for kind in [EventKind::Minor, EventKind::Major] {
        let (plans, state) = run(kind, config, &events);
        assert_eq!(state, DispatchState::Finished(Outcome::WarningFailed));
        assert!(plans.contains(&Plan::Finish(Outcome::WarningFailed)));
        for plan in plans {
            if let Plan::Issue(command) = plan {
                assert_eq!(command, Command::vibrate(25, 1));
            }
        }
    }
}

#[test]
fn failed_primary_action_is_reported_and_not_retried() {
    let config = settings(10, 80, 0, false);
    let (plans, state) =
        run(EventKind::Major, config, &[DispatchEvent::Begin, replied(false, 40), replied(true, 40)]);
    assert_eq!(
        plans,
        vec![Plan::Issue(Command::shock(80, 1)), Plan::Finish(Outcome::PrimaryFailed), Plan::Idle]
    );
    assert_eq!(state, DispatchState::Finished(Outcome::PrimaryFailed));
}

#[test]
fn events_that_a_state_does_not_wait_for_change_nothing() {
    let config = settings(10, 80, 2, true);
    let cases = [
        (DispatchState::Pending, DispatchEvent::Elapsed),
        (DispatchState::Pending, replied(true, 1)),
        (DispatchState::PreDelay { seconds: 2 }, DispatchEvent::Begin),
        (DispatchState::PreDelay { seconds: 2 }, replied(true, 1)),
        (DispatchState::Warning, DispatchEvent::Begin),
        (DispatchState::Warning, DispatchEvent::Elapsed),
        (DispatchState::Compensating { remainder: millis(5) }, DispatchEvent::Begin),
        (DispatchState::Compensating { remainder: millis(5) }, replied(false, 1)),
        (DispatchState::Primary, DispatchEvent::Begin),
        (DispatchState::Primary, DispatchEvent::Elapsed),
        (DispatchState::Finished(Outcome::Completed), DispatchEvent::Begin),
        (DispatchState::Finished(Outcome::Completed), DispatchEvent::Elapsed),
        (DispatchState::Finished(Outcome::WarningFailed), replied(true, 1)),
    ];
    for (state, event) in cases {
        assert_eq!(next_step(EventKind::Major, state, event, config), (state, Plan::Idle));
    }
}

#[test]
fn intensity_is_the_one_in_force_when_the_shock_is_sent() {
    let at_detection = settings(10, 80, 0, true);
    let at_send = settings(55, 80, 0, true);
    let (state, plan) =
        next_step(EventKind::Minor, DispatchState::Pending, DispatchEvent::Begin, at_detection);
    assert_eq!(plan, Plan::Issue(Command::vibrate(25, 1)));
    let (state, plan) = next_step(EventKind::Minor, state, replied(true, 200), at_detection);
    assert_eq!(plan, Plan::Sleep(Span { secs: 0, nanos: 800_000_000 }));
    let (state, plan) = next_step(EventKind::Minor, state, DispatchEvent::Elapsed, at_send);
    assert_eq!(plan, Plan::Issue(Command::shock(55, 1)));
    assert_eq!(state, DispatchState::Primary);
}

#[test]
fn action_request_follows_the_kind_of_event() {
    let config = settings(10, 80, 2, true);
    assert_eq!(
        ActionRequest::for_event(EventKind::Minor, config),
        ActionRequest { intensity: 10, is_major_event: false }
    );
    assert_eq!(
        ActionRequest::for_event(EventKind::Major, config),
        ActionRequest { intensity: 80, is_major_event: true }
    );
    let loud = settings(100, 0, 0, false);
    assert_eq!(ActionRequest::for_event(EventKind::Minor, loud).intensity, 100);
    assert_eq!(ActionRequest::for_event(EventKind::Major, loud).intensity, 0);
}

#[test]
fn task_turns_plans_into_requests_of_its_client() {
    let client = PiShockClient::new("account".to_string(), "key".to_string(), "code".to_string());
    let shared = SyncedSettings::from_settings(settings(10, 80, 0, true));
    let mut task = DispatchTask::new(client.clone(), shared, EventKind::Major);
    assert_eq!(task.kind(), EventKind::Major);
    assert_eq!(task.state(), DispatchState::Pending);

    let config = settings(10, 80, 1, true);
    assert_eq!(
        task.step(DispatchEvent::Begin, config),
        DispatchAction::Sleep(Span { secs: 1, nanos: 0 })
    );
    assert_eq!(task.state(), DispatchState::PreDelay { seconds: 1 });
    assert_eq!(task.step(DispatchEvent::Elapsed, config), DispatchAction::Send(client.vibrate(25, 1)));
    assert_eq!(task.step(DispatchEvent::Begin, config), DispatchAction::Idle);
    assert_eq!(task.step(replied(true, 1500), config), DispatchAction::Send(client.shock(80, 1)));
    assert_eq!(task.step(replied(true, 90), config), DispatchAction::Finish(Outcome::Completed));
    assert_eq!(task.state(), DispatchState::Finished(Outcome::Completed));
    assert_eq!(task.step(DispatchEvent::Elapsed, config), DispatchAction::Idle);
}

#[test]
fn task_reads_the_shared_settings_at_every_step() {
    let client = PiShockClient::new("account".to_string(), "key".to_string(), "code".to_string());
    let shared = SyncedSettings::from_settings(settings(10, 80, 0, true));
    let mut task = DispatchTask::new(client.clone(), shared.clone(), EventKind::Minor);

    assert_eq!(task.advance(DispatchEvent::Begin), DispatchAction::Send(client.vibrate(25, 1)));
    shared.set_life_loss_shock(35);
    assert_eq!(
        task.advance(replied(true, 100)),
        DispatchAction::Sleep(Span { secs: 0, nanos: 900_000_000 })
    );
    shared.set_life_loss_shock(70);
    assert_eq!(task.advance(DispatchEvent::Elapsed), DispatchAction::Send(client.shock(70, 1)));
    shared.set_life_loss_shock(5);
    assert_eq!(task.advance(replied(false, 100)), DispatchAction::Finish(Outcome::PrimaryFailed));
}

#[test]
fn task_for_a_major_event_reads_delay_and_warning_when_it_gets_there() {
    let client = PiShockClient::new("account".to_string(), "key".to_string(), "code".to_string());
    let shared = SyncedSettings::from_settings(settings(10, 80, 4, true));
    let mut task = DispatchTask::new(client.clone(), shared.clone(), EventKind::Major);
    assert_eq!(task.advance(DispatchEvent::Begin), DispatchAction::Sleep(Span { secs: 4, nanos: 0 }));
    shared.set_enable_warning_vibrate(false);
    shared.set_death_shock(99);
    shared.set_death_shock_delay(60);
    assert_eq!(task.advance(DispatchEvent::Elapsed), DispatchAction::Send(client.shock(99, 1)));
}
