use beatrice_lib::devices::resolve_devices;
use beatrice_lib::devices::stream_settings;
use beatrice_lib::devices::DeviceSelection;

fn names(list: &[&str]) -> Vec<String> {
    list.iter().map(|s| s.to_string()).collect()
}

#[test]
fn resolves_input_output_and_monitor() {
    let inputs = names(&["Mic A", "Mic B"]);
    let outputs = names(&["Speakers", "Headphones", "Cable"]);
    let r = resolve_devices(&inputs, &outputs, Some("Mic B"), Some("Cable"), Some("Headphones"));
    assert_eq!(r, Some(DeviceSelection { input: 1, output: 2, monitor: Some(1) }));
}

#[test]
fn monitor_is_optional() {
    let inputs = names(&["Mic"]);
    let outputs = names(&["Out"]);
    assert_eq!(
        resolve_devices(&inputs, &outputs, Some("Mic"), Some("Out"), None),
        Some(DeviceSelection { input: 0, output: 0, monitor: None })
    );
    assert_eq!(
        resolve_devices(&inputs, &outputs, Some("Mic"), Some("Out"), Some("None")),
        Some(DeviceSelection { input: 0, output: 0, monitor: None })
    );
}

#[test]
fn missing_names_or_devices_give_no_selection() {
    let inputs = names(&["Mic"]);
    let outputs = names(&["Out"]);
    assert_eq!(resolve_devices(&inputs, &outputs, None, Some("Out"), None), None);
    assert_eq!(resolve_devices(&inputs, &outputs, Some("Mic"), None, None), None);
    assert_eq!(resolve_devices(&inputs, &outputs, Some("Other"), Some("Out"), None), None);
    assert_eq!(resolve_devices(&inputs, &outputs, Some("Mic"), Some("Other"), None), None);
    assert_eq!(resolve_devices(&inputs, &outputs, Some("Mic"), Some("Out"), Some("Other")), None);
    assert_eq!(resolve_devices(&Vec::new(), &outputs, Some("Mic"), Some("Out"), None), None);
}

#[test]
fn first_device_of_a_name_wins() {
    let inputs = names(&["", "Mic", "Mic"]);
    let outputs = names(&["Out", "Out"]);
    assert_eq!(
        resolve_devices(&inputs, &outputs, Some("Mic"), Some("Out"), Some("Out")),
        Some(DeviceSelection { input: 1, output: 0, monitor: Some(0) })
    );
}

#[test]
fn streams_ask_for_fixed_buffers() {
    let s = stream_settings(2, 48000);
    assert_eq!(s.channels, 2);
    assert_eq!(s.sample_rate, 48000);
    assert_eq!(s.buffer_frames, 480);
}
