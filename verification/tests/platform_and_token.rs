use tpi::platform::{is_running_on_tpi_bmc, str_starts_with};
use tpi::token::{get_param, JsonField, ParamError};

#[test]
fn detects_the_board_from_the_device_tree_model() {
    assert!(is_running_on_tpi_bmc(true, "Turing Pi 2"));
    assert!(is_running_on_tpi_bmc(true, "Turing Pi"));
}

#[test]
fn other_hosts_are_not_the_board() {
    // Not Linux at all.
    assert!(!is_running_on_tpi_bmc(false, "Turing Pi 2"));
    // Another board's model string.
    assert!(!is_running_on_tpi_bmc(true, "Raspberry Pi 4 Model B"));
    // No device-tree model available.
    assert!(!is_running_on_tpi_bmc(true, ""));
    // The prefix must stand at the very beginning.
    assert!(!is_running_on_tpi_bmc(true, "A Turing Pi 2"));
}

#[test]
fn prefix_test_handles_edges() {
    assert!(str_starts_with("abc", ""));
    assert!(str_starts_with("abc", "abc"));
    assert!(!str_starts_with("ab", "abc"));
    assert!(!str_starts_with("abd", "abc"));
    assert!(str_starts_with("", ""));
}

#[test]
fn get_param_returns_the_string_attribute() {
    let field = JsonField::Text("deadbeef".to_owned());
    assert_eq!(get_param(field), Ok("deadbeef".to_owned()));
}

#[test]
fn get_param_reports_a_missing_attribute() {
    assert_eq!(get_param(JsonField::Absent), Err(ParamError::MissingAttribute));
}

#[test]
fn get_param_reports_a_non_string_attribute() {
    assert_eq!(get_param(JsonField::NonString), Err(ParamError::NotAString));
}
