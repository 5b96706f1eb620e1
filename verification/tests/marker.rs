use prompt_or_shock::marker::classify;
use prompt_or_shock::marker::expected_marker;
use prompt_or_shock::marker::EventKind;

#[test]
fn marker_is_built_from_the_player_name() {
    assert_eq!(expected_marker("alice"), "Shocked: alice");
    assert_eq!(expected_marker(""), "Shocked: ");
    assert_eq!(expected_marker("J\u{f6}rg 2"), "Shocked: J\u{f6}rg 2");
}

#[test]
fn line_naming_the_player_is_a_minor_event() {
    let expected = expected_marker("alice");
    assert_eq!(classify("... Shocked: alice", &expected), Some(EventKind::Minor));
}

#[test]
fn line_naming_another_player_is_ignored() {
    let expected = expected_marker("alice");
    assert_eq!(classify("... Shocked: bob", &expected), None);
}

#[test]
fn line_ending_in_local_death_is_a_major_event() {
    let expected = expected_marker("alice");
    assert_eq!(
        classify("2024.05.01 12:00:00 Log        -  Local Death", &expected),
        Some(EventKind::Major)
    );
    assert_eq!(classify("Local Death", &expected), Some(EventKind::Major));
}

#[test]
fn marker_inside_a_line_is_ignored() {
    let expected = expected_marker("alice");
    assert_eq!(classify("Local Death Reported", &expected), None);
    assert_eq!(classify("Shocked: alice again", &expected), None);
    assert_eq!(classify("Shocked: alice ", &expected), None);
}

#[test]
fn matching_is_case_sensitive() {
    let expected = expected_marker("alice");
    assert_eq!(classify("... shocked: alice", &expected), None);
    assert_eq!(classify("... Shocked: Alice", &expected), None);
    assert_eq!(classify("... local death", &expected), None);
    assert_eq!(classify("... LOCAL DEATH", &expected), None);
}

#[test]
fn minor_marker_is_looked_for_first() {
    assert_eq!(classify("x Local Death", "Local Death"), Some(EventKind::Minor));
    assert_eq!(classify("x Local Death", "Death"), Some(EventKind::Minor));
    assert_eq!(classify("x Local Death", "Life"), Some(EventKind::Major));
}

#[test]
fn short_and_empty_lines_are_ignored() {
    let expected = expected_marker("alice");
    assert_eq!(classify("", &expected), None);
    assert_eq!(classify("Death", &expected), None);
    assert_eq!(classify("alice", &expected), None);
}
