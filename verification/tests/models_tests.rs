use driver_staging::models::{
    device_names, initial_selection_index, option_label, option_labels, shorten_software_name,
    AppState, SoftwareOption, SupportedDevice,
};

fn option(name: &str) -> SoftwareOption {
    SoftwareOption {
        name: name.to_string(),
        description: "desc".to_string(),
        url: "https://example.com/a".to_string(),
        filename: "a.exe".to_string(),
    }
}

fn device(name: &str, vid: u16, pid: u16, options: Vec<SoftwareOption>) -> SupportedDevice {
    SupportedDevice {
        name: name.to_string(),
        vid,
        pid,
        options,
    }
}

#[test]
fn the_one_long_internal_name_is_abbreviated() {
    assert_eq!(shorten_software_name("Onboard Memory Manager"), "OMM");
}

#[test]
fn other_names_pass_through_unchanged() {
    assert_eq!(shorten_software_name("Logitech G HUB"), "Logitech G HUB");
    assert_eq!(shorten_software_name(""), "");
}

#[test]
fn option_labels_carry_the_download_prefix() {
    assert_eq!(option_label("Razer Synapse"), "Download Razer Synapse");
    assert_eq!(option_label("Onboard Memory Manager"), "Download OMM");
    let d = device(
        "Mouse X",
        1,
        2,
        vec![option("Onboard Memory Manager"), option("Mouse X Suite")],
    );
    let labels = option_labels(&d);
    assert_eq!(labels, vec!["Download OMM", "Download Mouse X Suite"]);
}

#[test]
fn device_names_keep_scan_order() {
    let devices = vec![device("B", 2, 2, vec![]), device("A", 1, 1, vec![])];
    assert_eq!(device_names(&devices), vec!["B", "A"]);
}

#[test]
fn selection_index_is_zero_when_found_else_sentinel() {
    assert_eq!(initial_selection_index(3), 0);
    assert_eq!(initial_selection_index(1), 0);
    assert_eq!(initial_selection_index(0), -1);
}

#[test]
fn session_state_starts_empty_and_is_replaced_wholesale() {
    let mut state = AppState::new();
    assert!(state.found_devices.is_empty());
    state.replace_found_devices(vec![device("Mouse X", 1, 2, vec![option("S")])]);
    assert_eq!(state.found_devices.len(), 1);
    state.replace_found_devices(vec![device("Mouse Y", 3, 4, vec![])]);
    assert_eq!(state.found_devices.len(), 1);
    assert_eq!(state.found_devices[0].name, "Mouse Y");
}

#[test]
fn stale_indices_are_silently_ignored() {
    let mut state = AppState::new();
    state.replace_found_devices(vec![device("Mouse X", 1, 2, vec![option("S")])]);
    assert!(state.device_at(0).is_some());
    assert!(state.device_at(1).is_none());
    let o = state.option_at(0, 0).unwrap();
    assert_eq!(o.name, "S");
    assert!(state.option_at(0, 1).is_none());
    assert!(state.option_at(7, 0).is_none());
}
