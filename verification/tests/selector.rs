use evtr::error::Error;
use evtr::keys::{KeyCode, KeyEvent, KeyModifiers};
use evtr::selector::commands::{command_for, help_lines, SelectorCommand, SelectorMode};
use evtr::selector::devices::{
    catalog_parts_from_discovery, format_device_label, take_selected_item, DeviceCatalog,
};
use evtr::selector::filter::{filtered_indexes_by_query, selected_item_index, FilterState};
use evtr::selector::issue::{open_failure_issue, DiscoveryIssue, DiscoveryResult, OpenFailure};
use evtr::selector::state::{list_window, SelectorState, SelectorTransition};

fn key(code: KeyCode) -> KeyEvent {
    KeyEvent::new(code, KeyModifiers::none())
}

fn shifted_char(c: char) -> KeyEvent {
    KeyEvent::new(KeyCode::Char(c), KeyModifiers::shift())
}

fn ctrl_char(c: char) -> KeyEvent {
    KeyEvent::new(KeyCode::Char(c), KeyModifiers::ctrl())
}

fn labels(names: &[&str]) -> Vec<String> {
    names.iter().map(|name| (*name).to_string()).collect()
}

#[test]
fn command_for_ctrl_c_exits_from_any_mode() {
    for mode in [SelectorMode::Browsing, SelectorMode::Help] {
        assert_eq!(command_for(ctrl_char('c'), mode), SelectorCommand::Exit);
    }
}

#[test]
fn command_for_escape_depends_on_mode() {
    assert_eq!(command_for(key(KeyCode::Esc), SelectorMode::Browsing), SelectorCommand::Back);
    assert_eq!(
        command_for(key(KeyCode::Char('?')), SelectorMode::Help),
        SelectorCommand::ToggleHelp
    );
}

#[test]
fn command_for_maps_navigation_keys_to_explicit_variants() {
    assert_eq!(command_for(key(KeyCode::Up), SelectorMode::Browsing), SelectorCommand::MoveUp);
    assert_eq!(command_for(ctrl_char('p'), SelectorMode::Browsing), SelectorCommand::MoveUp);
    assert_eq!(command_for(key(KeyCode::Down), SelectorMode::Browsing), SelectorCommand::MoveDown);
    assert_eq!(command_for(ctrl_char('n'), SelectorMode::Browsing), SelectorCommand::MoveDown);
}

#[test]
fn command_for_only_adds_plain_and_shifted_characters() {
    assert_eq!(
        command_for(key(KeyCode::Char('a')), SelectorMode::Browsing),
        SelectorCommand::AddChar('a')
    );
    assert_eq!(
        command_for(shifted_char('A'), SelectorMode::Browsing),
        SelectorCommand::AddChar('A')
    );
    assert_eq!(
        command_for(KeyEvent::new(KeyCode::Char('a'), KeyModifiers::alt()), SelectorMode::Browsing),
        SelectorCommand::NoOp
    );
}

#[test]
fn commands_help_lines_reflect_default_bindings() {
    let lines = help_lines();
    assert!(lines.iter().any(|line| line == "Move up: Up, Ctrl-p"));
    assert!(lines.iter().any(|line| line == "Refresh: Ctrl-r"));
}

#[test]
fn command_for_in_help_ignores_navigation() {
    assert_eq!(command_for(key(KeyCode::Up), SelectorMode::Help), SelectorCommand::NoOp);
    assert_eq!(command_for(key(KeyCode::Char('a')), SelectorMode::Help), SelectorCommand::NoOp);
    assert_eq!(command_for(key(KeyCode::Enter), SelectorMode::Browsing), SelectorCommand::Select);
    assert_eq!(command_for(ctrl_char('u'), SelectorMode::Browsing), SelectorCommand::ClearSearch);
    assert_eq!(command_for(key(KeyCode::Backspace), SelectorMode::Browsing), SelectorCommand::DeleteChar);
}

#[test]
fn format_device_label_uses_structured_name_and_path() {
    assert_eq!(format_device_label("Gamepad", "/dev/input/event7"), "Gamepad (/dev/input/event7)");
}

#[test]
fn catalog_parts_from_discovery_suppresses_partial_errors_when_devices_exist() {
    let mut discovery = DiscoveryResult::new();
    discovery.record_read_dir_error("/dev/input", "read denied");
    discovery.push_device(("Pad A", "/dev/input/event3"));
    discovery.push_device(("Pad B", "/dev/input/event4"));

    let (devices, labels, error_message) =
        catalog_parts_from_discovery(discovery, |d: &(&str, &str)| format_device_label(d.0, d.1));

    assert_eq!(devices, vec![("Pad A", "/dev/input/event3"), ("Pad B", "/dev/input/event4")]);
    assert_eq!(
        labels,
        vec!["Pad A (/dev/input/event3)".to_string(), "Pad B (/dev/input/event4)".to_string()]
    );
    assert_eq!(error_message, None);
}

#[test]
fn catalog_parts_from_discovery_reports_the_issue_without_devices() {
    let mut discovery: DiscoveryResult<(&str, &str)> = DiscoveryResult::new();
    discovery.record_read_dir_error("/dev/input", "read denied");
    discovery.record_issue(DiscoveryIssue::PermissionDenied { skipped: 2 });

    let (devices, labels, error_message) =
        catalog_parts_from_discovery(discovery, |d: &(&str, &str)| format_device_label(d.0, d.1));

    assert!(devices.is_empty() && labels.is_empty());
    assert_eq!(error_message, Some("unable to read /dev/input: read denied".to_string()));

    let empty: DiscoveryResult<u8> = DiscoveryResult::new();
    assert_eq!(empty.error_message(), Some(Error::NoDevicesFound.message()));
}

#[test]
fn label_returns_some_for_valid_index() {
    let catalog: DeviceCatalog<u8> =
        DeviceCatalog::from_parts(vec![1], vec!["Pad A (/dev/input/event3)".to_string()]);

    assert_eq!(catalog.label(0), Some("Pad A (/dev/input/event3)"));
}

#[test]
fn label_returns_none_for_out_of_bounds_index() {
    let catalog: DeviceCatalog<u8> =
        DeviceCatalog::from_parts(vec![1], vec!["Pad A (/dev/input/event3)".to_string()]);

    assert_eq!(catalog.label(1), None);
}

#[test]
fn take_selected_item_returns_none_for_none_index() {
    let mut items = vec![10, 20];
    let mut labels = vec!["Pad A".to_string(), "Pad B".to_string()];

    assert_eq!(take_selected_item(&mut items, &mut labels, None), None);
    assert_eq!(items, vec![10, 20]);
    assert_eq!(labels, vec!["Pad A".to_string(), "Pad B".to_string()]);
}

#[test]
fn take_selected_item_returns_none_for_stale_index() {
    let mut items = vec![10];
    let mut labels = vec!["Pad A".to_string()];

    assert_eq!(take_selected_item(&mut items, &mut labels, Some(1)), None);
    assert_eq!(items, vec![10]);
    assert_eq!(labels, vec!["Pad A".to_string()]);
}

#[test]
fn take_selected_item_removes_matching_item_and_label() {
    let mut items = vec![10, 20, 30];
    let mut labels = vec!["Pad A".to_string(), "Pad B".to_string(), "Pad C".to_string()];

    assert_eq!(take_selected_item(&mut items, &mut labels, Some(1)), Some(20));
    assert_eq!(items.len(), 2);
    assert_eq!(labels.len(), 2);
    assert!(!items.contains(&20));
    assert!(!labels.iter().any(|label| label == "Pad B"));
    assert_eq!(items.len(), labels.len());
    assert_eq!(items, vec![10, 30]);
    assert_eq!(labels, vec!["Pad A".to_string(), "Pad C".to_string()]);
}

#[test]
fn formats_read_dir_issue_with_path_and_message() {
    let issue = DiscoveryIssue::ReadDir {
        path: "/dev/input".to_string(),
        message: "read denied".to_string(),
    };

    assert_eq!(issue.message(), "unable to read /dev/input: read denied");
}

#[test]
fn formats_permission_denied_issue_with_skipped_count() {
    let issue = DiscoveryIssue::PermissionDenied { skipped: 3 };

    assert_eq!(
        issue.message(),
        "found 3 input device node(s), but none were readable; check permissions for /dev/input/event*"
    );
}

#[test]
fn formats_open_failed_issue_with_path_and_message() {
    let issue = DiscoveryIssue::OpenFailed {
        skipped: 2,
        path: "/dev/input/event7".to_string(),
        message: "device busy".to_string(),
    };

    assert_eq!(
        issue.message(),
        "found 2 input device node(s), but none could be opened; first error: /dev/input/event7: device busy"
    );
}

#[test]
fn no_devices_issue_matches_error_display() {
    let issue = DiscoveryIssue::NoDevicesFound;

    assert_eq!(issue.message(), Error::NoDevicesFound.message());
}

#[test]
fn apply_discovery_resets_selection_and_updates_empty_state_error() {
    let initial = labels(&[]);
    let mut state = SelectorState::new(&initial, None);
    for c in "mouse".chars() {
        state.reduce(SelectorCommand::AddChar(c), &initial);
    }

    let refreshed = labels(&["usb mouse"]);
    state.apply_discovery(&refreshed, Some("unable to read /dev/input: read denied".to_string()));

    assert_eq!(state.filtered_indexes(), &[0]);
    assert_eq!(state.selected_filtered_index(), 0);
    assert_eq!(state.error_message(), Some("unable to read /dev/input: read denied"));
    assert_eq!(state.search_query(), "mouse");
}

#[test]
fn reduce_back_exits_only_when_search_is_empty() {
    let devices = labels(&["mouse"]);
    let mut state = SelectorState::new(&devices, None);
    state.reduce(SelectorCommand::AddChar('m'), &devices);

    assert_eq!(state.reduce(SelectorCommand::Back, &devices), SelectorTransition::Stay);
    assert_eq!(state.search_query(), "");

    assert_eq!(state.reduce(SelectorCommand::Back, &devices), SelectorTransition::Exit);
}

#[test]
fn reduce_select_refreshes_when_no_results_exist() {
    let devices = labels(&[]);
    let mut state = SelectorState::new(&devices, None);

    assert_eq!(state.reduce(SelectorCommand::Select, &devices), SelectorTransition::RefreshDevices);
}

#[test]
fn reduce_none_clears_error_while_browsing() {
    let devices = labels(&[]);
    let mut state = SelectorState::new(&devices, Some("unable to read /dev/input".to_string()));

    assert_eq!(state.reduce(SelectorCommand::NoOp, &devices), SelectorTransition::Stay);
    assert_eq!(state.error_message(), None);
}

#[test]
fn reduce_none_keeps_error_while_help_is_open() {
    let devices = labels(&[]);
    let mut state = SelectorState::new(&devices, Some("unable to read /dev/input".to_string()));

    assert_eq!(state.reduce(SelectorCommand::ToggleHelp, &devices), SelectorTransition::Stay);
    state.error_message = Some("unable to read /dev/input".to_string());

    assert_eq!(state.reduce(SelectorCommand::NoOp, &devices), SelectorTransition::Stay);
    assert_eq!(state.error_message(), Some("unable to read /dev/input"));
}

#[test]
fn reduce_select_opens_a_listed_device() {
    let devices = labels(&["pad", "mouse"]);
    let mut state = SelectorState::new(&devices, None);
    state.reduce(SelectorCommand::MoveDown, &devices);

    assert_eq!(state.reduce(SelectorCommand::Select, &devices), SelectorTransition::OpenSelection);
    assert_eq!(state.selected_device_index(), Some(1));
    assert_eq!(state.reduce(SelectorCommand::Select, &labels(&["pad"])), SelectorTransition::Stay);
    assert_eq!(state.reduce(SelectorCommand::Refresh, &devices), SelectorTransition::RefreshDevices);
    assert_eq!(state.reduce(SelectorCommand::Exit, &devices), SelectorTransition::Exit);
}

#[test]
fn filtered_indexes_by_query_returns_all_items_for_empty_query() {
    let identifiers = labels(&["usb mouse", "gamepad"]);

    let indexes = filtered_indexes_by_query(&identifiers, "");

    assert_eq!(indexes, vec![0, 1]);
}

#[test]
fn filtered_indexes_by_query_returns_empty_when_nothing_matches() {
    let identifiers = labels(&["usb mouse", "gamepad"]);

    let indexes = filtered_indexes_by_query(&identifiers, "keyboard");

    assert!(indexes.is_empty());
}

#[test]
fn filtered_indexes_by_query_lists_matches_best_first() {
    let identifiers = labels(&["gamepad", "usb mouse", "mouse", "keyboard"]);

    let indexes = filtered_indexes_by_query(&identifiers, "mouse");

    assert_eq!(indexes.len(), 2);
    assert!(indexes.contains(&1) && indexes.contains(&2));
}

#[test]
fn selected_item_index_uses_selected_filtered_index() {
    assert_eq!(selected_item_index(&[2, 5, 7], 1), Some(5));
    assert_eq!(selected_item_index(&[2, 5, 7], 4), None);
}

#[test]
fn move_selection_by_clamps_to_the_filtered_bounds() {
    let mut filter = FilterState::new(3, 10);

    filter.move_selection_by(10);
    assert_eq!(filter.selected_index(), 2);

    filter.move_selection_by(-10);
    assert_eq!(filter.selected_index(), 0);
}

#[test]
fn select_last_uses_the_last_filtered_match() {
    let mut filter = FilterState::new(4, 10);
    filter.select_last();

    assert_eq!(filter.selected_item_index(), Some(3));
}

#[test]
fn page_navigation_uses_the_shared_page_size() {
    let mut filter = FilterState::new(25, 10);

    filter.page_down();
    assert_eq!(filter.selected_index(), 10);

    filter.page_down();
    assert_eq!(filter.selected_index(), 20);

    filter.page_up();
    assert_eq!(filter.selected_index(), 10);
}

#[test]
fn query_editing_adds_removes_and_clears_characters() {
    let mut filter = FilterState::new(2, 10);
    filter.add_char('a');
    filter.add_char('é');
    assert_eq!(filter.search_query(), "aé");
    assert!(filter.has_query());
    filter.remove_char();
    assert_eq!(filter.search_query(), "a");
    filter.clear_search();
    assert_eq!(filter.search_query(), "");
    filter.remove_char();
    assert_eq!(filter.search_query(), "");
}

fn failure(path: &str, message: &str, permission_denied: bool) -> OpenFailure {
    OpenFailure { path: path.to_string(), message: message.to_string(), permission_denied }
}

#[test]
fn open_failure_issue_reports_nothing_without_failures() {
    assert_eq!(open_failure_issue(&[]), None);
}

#[test]
fn open_failure_issue_reports_permissions_when_every_node_was_refused() {
    let failures = [failure("/dev/input/event0", "denied", true), failure("/dev/input/event1", "denied", true)];

    assert_eq!(open_failure_issue(&failures), Some(DiscoveryIssue::PermissionDenied { skipped: 2 }));
}

#[test]
fn open_failure_issue_reports_the_first_other_failure_and_counts_all_nodes() {
    let failures = [
        failure("/dev/input/event0", "denied", true),
        failure("/dev/input/event3", "device busy", false),
        failure("/dev/input/event5", "no such device", false),
    ];

    assert_eq!(
        open_failure_issue(&failures),
        Some(DiscoveryIssue::OpenFailed {
            skipped: 3,
            path: "/dev/input/event3".to_string(),
            message: "device busy".to_string(),
        })
    );
}

#[test]
fn list_window_keeps_the_selection_on_screen() {
    assert_eq!(list_window(10, 2, 4), (0, 4));
    assert_eq!(list_window(10, 6, 4), (3, 4));
    assert_eq!(list_window(10, 9, 4), (6, 4));
    assert_eq!(list_window(3, 1, 5), (0, 3));
    assert_eq!(list_window(3, 1, 0), (0, 0));
}
