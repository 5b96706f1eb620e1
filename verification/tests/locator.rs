use prompt_or_shock::log_locator::is_log_file_name;
use prompt_or_shock::log_locator::locate;
use prompt_or_shock::log_locator::select_latest;
use prompt_or_shock::log_locator::DirectoryEntry;
use prompt_or_shock::log_locator::DirectoryListing;
use prompt_or_shock::log_locator::LocateError;

fn entry(name: &str, modified: i128) -> DirectoryEntry {
    DirectoryEntry { name: name.to_string(), modified }
}

#[test]
fn newer_log_file_is_selected() {
    let entries = vec![
        entry("output_log_A", 1_000),
        entry("output_log_B", 2_000),
        entry("notes.txt", 3_000),
    ];
    assert_eq!(select_latest(&entries), Ok(1));
}

#[test]
fn newer_log_file_is_selected_whatever_the_order() {
    let entries = vec![
        entry("notes.txt", 3_000),
        entry("output_log_B", 2_000),
        entry("output_log_A", 1_000),
    ];
    assert_eq!(select_latest(&entries), Ok(1));
}

#[test]
fn no_matching_entry_is_not_found() {
    let entries = vec![entry("notes.txt", 5), entry("Player.log", 9)];
    assert_eq!(select_latest(&entries), Err(LocateError::NotFound));
}

#[test]
fn empty_directory_is_not_found() {
    let entries: Vec<DirectoryEntry> = Vec::new();
    assert_eq!(select_latest(&entries), Err(LocateError::NotFound));
}

#[test]
fn unreadable_directory_is_not_found() {
    assert_eq!(locate(&DirectoryListing::Unreadable), Err(LocateError::NotFound));
}

#[test]
fn readable_directory_gives_its_latest_log() {
    let listing = DirectoryListing::Entries(vec![
        entry("output_log_2024-01-01_10-00-00.txt", 1_704_103_200_000_000_000),
        entry("output_log_2024-01-02_10-00-00.txt", 1_704_189_600_000_000_000),
    ]);
    assert_eq!(locate(&listing), Ok(1));
    let none = DirectoryListing::Entries(vec![entry("readme.md", 7)]);
    assert_eq!(locate(&none), Err(LocateError::NotFound));
}

#[test]
fn equal_times_go_to_the_first_seen() {
    let entries = vec![
        entry("output_log_A", 50),
        entry("output_log_B", 70),
        entry("output_log_C", 70),
        entry("output_log_D", 60),
    ];
    assert_eq!(select_latest(&entries), Ok(1));
}

#[test]
fn a_newer_file_that_is_no_log_does_not_count() {
    let entries = vec![entry("zzz", 900), entry("output_log_only", -5), entry("aaa", 901)];
    assert_eq!(select_latest(&entries), Ok(1));
}

#[test]
fn times_before_the_epoch_are_ordered_too() {
    let entries = vec![entry("output_log_old", -2_000), entry("output_log_less_old", -1_000)];
    assert_eq!(select_latest(&entries), Ok(1));
}

#[test]
fn log_file_names_begin_with_the_prefix() {
    assert!(is_log_file_name("output_log_"));
    assert!(is_log_file_name("output_log_2024-05-01_12-00-00.txt"));
    assert!(!is_log_file_name("output_log"));
    assert!(!is_log_file_name("Output_log_1"));
    assert!(!is_log_file_name("my_output_log_1"));
    assert!(!is_log_file_name(" output_log_1"));
    assert!(!is_log_file_name(""));
    assert!(!is_log_file_name("notes.txt"));
}
