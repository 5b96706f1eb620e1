use prompt_or_shock::dispatch::DispatchState;
use prompt_or_shock::dispatch::DispatchTask;
use prompt_or_shock::log_file_debounce_handler::LogFileDebounceHandler;
use prompt_or_shock::log_file_debounce_handler::QUIESCENCE_MILLIS;
use prompt_or_shock::log_file_reader::LogFileReader;
use prompt_or_shock::marker::expected_marker;
use prompt_or_shock::marker::EventKind;
use prompt_or_shock::pishock_client::PiShockClient;
use prompt_or_shock::settings::LiveSettings;
use prompt_or_shock::settings::SyncedSettings;

fn handler(offset: u64) -> LogFileDebounceHandler {
    let client = PiShockClient::new("account".to_string(), "key".to_string(), "code".to_string());
    let reader = LogFileReader::new("output_log_1.txt".to_string(), offset);
    let shared = SyncedSettings::from_settings(LiveSettings {
        minor_intensity: 20,
        major_intensity: 90,
        major_event_delay_seconds: 0,
        warning_pulse_enabled: false,
    });
    LogFileDebounceHandler::new(client, reader, expected_marker("alice"), shared)
}

fn kinds(tasks: &[DispatchTask]) -> Vec<EventKind> {
    tasks.iter().map(|task| task.kind()).collect()
}

#[test]
fn quiescence_window_is_a_tenth_of_a_second() {
    assert_eq!(QUIESCENCE_MILLIS, 100);
}

#[test]
fn every_marked_line_of_a_pass_gets_its_own_dispatch() {
    let mut handler = handler(500);
    let unread: &[u8] = b"12:00 Log - Shocked: alice\r\n\
        12:01 Log - Shocked: bob\r\n\
        12:02 Log - Local Death\r\n\
        12:03 Log - Local Death Reported\r\n\
        12:04 Log - Shocked: alice\r\n\
        12:05 Log - Local";
    let handled = handler.handle_event(unread);
    let tasks = handled.tasks;
    assert_eq!(handled.given_up, 0);
    assert_eq!(kinds(&tasks), vec![EventKind::Minor, EventKind::Major, EventKind::Minor]);
    for task in &tasks {
        assert_eq!(task.state(), DispatchState::Pending);
    }
    assert_eq!(handler.reader().offset(), 500 + unread.len() as u64 - 17);
}

#[test]
fn line_split_over_two_reports_is_detected_once() {
    let mut handler = handler(0);
    let first: &[u8] = b"12:00 Log - Local De";
    assert!(handler.handle_event(first).tasks.is_empty());
    assert_eq!(handler.reader().offset(), 0);
    let second: &[u8] = b"12:00 Log - Local Death\n12:01 Log - Shoc";
    assert_eq!(kinds(&handler.handle_event(second).tasks), vec![EventKind::Major]);
    assert_eq!(handler.reader().offset(), 24);
    let third: &[u8] = b"12:01 Log - Shocked: alice\n";
    assert_eq!(kinds(&handler.handle_event(third).tasks), vec![EventKind::Minor]);
    assert_eq!(handler.reader().offset(), 51);
    assert!(handler.handle_event(b"").tasks.is_empty());
    assert_eq!(handler.reader().offset(), 51);
}

#[test]
fn report_without_new_lines_starts_nothing() {
    let mut handler = handler(7);
    assert!(handler.handle_event(b"").tasks.is_empty());
    assert!(handler.handle_event(b"nothing of note\n").tasks.is_empty());
    assert_eq!(handler.reader().offset(), 23);
}

#[test]
fn bytes_that_are_not_text_are_reported_and_end_the_pass() {
    let mut handler = handler(0);
    let unread: &[u8] = b"a Local Death\n\xff\xfe\nb Local Death\n";
    let handled = handler.handle_event(unread);
    assert_eq!(kinds(&handled.tasks), vec![EventKind::Major]);
    assert_eq!(handled.given_up, 3);
    assert_eq!(handler.reader().offset(), 17);
    let handled = handler.handle_event(&unread[17..]);
    assert_eq!(kinds(&handled.tasks), vec![EventKind::Major]);
    assert_eq!(handled.given_up, 0);
    assert_eq!(handler.reader().offset(), 31);
}

#[test]
fn dispatch_is_made_for_the_kind_asked_for() {
    let handler = handler(0);
    let task = handler.shock_with_delay(EventKind::Major);
    assert_eq!(task.kind(), EventKind::Major);
    assert_eq!(task.state(), DispatchState::Pending);
    let task = handler.shock_with_delay(EventKind::Minor);
    assert_eq!(task.kind(), EventKind::Minor);
    assert_eq!(task.state(), DispatchState::Pending);
}
