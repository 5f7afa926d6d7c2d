use audio_capture::device::{
    build_devices, format_index, parse_index, resolve_index, validate_selection, AudioDevice,
};
use audio_capture::error::AudioError;

#[test]
fn enumeration_ids_are_ordinals() {
    let names = vec![
        String::from("Microphone"),
        String::from("Speakers"),
        String::from("Headset"),
    ];
    let inputs = vec![true, false, true];
    let default_in = Some(String::from("Microphone"));
    let default_out = Some(String::from("Speakers"));
    let devices = build_devices(names, &inputs, &default_in, &default_out);

    assert_eq!(devices.len(), 3);
    assert_eq!(devices[0].id, "0");
    assert_eq!(devices[1].id, "1");
    assert_eq!(devices[2].id, "2");
    assert_eq!(devices[0].name, "Microphone");
    assert!(devices[0].is_input);
    assert!(!devices[1].is_input);
}

#[test]
fn default_flag_set_for_default_input_or_output() {
    let names = vec![
        String::from("Microphone"),
        String::from("Speakers"),
        String::from("Headset"),
    ];
    let inputs = vec![true, false, true];
    let default_in = Some(String::from("Microphone"));
    let default_out = Some(String::from("Speakers"));
    let devices = build_devices(names, &inputs, &default_in, &default_out);

    assert!(devices[0].is_default);
    assert!(devices[1].is_default);
    assert!(!devices[2].is_default);
}

#[test]
fn no_default_devices_means_no_default_flags() {
    let names = vec![String::from("A"), String::from("B")];
    let inputs = vec![true, true];
    let devices = build_devices(names, &inputs, &None, &None);
    assert!(!devices[0].is_default);
    assert!(!devices[1].is_default);
}

#[test]
fn empty_enumeration_is_empty() {
    let devices = build_devices(Vec::new(), &Vec::new(), &None, &None);
    assert!(devices.is_empty());
}

#[test]
fn format_index_renders_decimal() {
    assert_eq!(format_index(0), "0");
    assert_eq!(format_index(7), "7");
    assert_eq!(format_index(10), "10");
    assert_eq!(format_index(409), "409");
}

#[test]
fn parse_index_reads_decimal() {
    assert_eq!(parse_index("0"), Ok(0));
    assert_eq!(parse_index("12"), Ok(12));
    assert_eq!(parse_index("007"), Ok(7));
}

#[test]
fn parse_index_rejects_non_digits() {
    assert_eq!(parse_index(""), Err(AudioError::DeviceResolution));
    assert_eq!(parse_index("1a"), Err(AudioError::DeviceResolution));
    assert_eq!(parse_index("-1"), Err(AudioError::DeviceResolution));
    assert_eq!(parse_index(" 3"), Err(AudioError::DeviceResolution));
}

#[test]
fn parse_index_rejects_overflow() {
    assert_eq!(
        parse_index("999999999999999999999999999999"),
        Err(AudioError::DeviceResolution)
    );
}

#[test]
fn ids_round_trip_through_parse() {
    for n in [0usize, 9, 10, 99, 100, 12345] {
        assert_eq!(parse_index(format_index(n).as_str()), Ok(n));
    }
}

#[test]
fn resolve_index_requires_existing_ordinal() {
    assert_eq!(resolve_index("1", 2), Ok(1));
    assert_eq!(resolve_index("2", 2), Err(AudioError::DeviceResolution));
    assert_eq!(resolve_index("x", 2), Err(AudioError::DeviceResolution));
}

#[test]
fn validate_selection_resolves_all_or_aborts() {
    let dev = |id: &str| AudioDevice {
        is_default: false,
        is_input: true,
        id: String::from(id),
        name: String::from("d"),
    };
    let good = vec![dev("0"), dev("1")];
    assert_eq!(validate_selection(&good, 2), Ok(vec![0, 1]));

    let vanished = vec![dev("0"), dev("5")];
    assert_eq!(validate_selection(&vanished, 2), Err(AudioError::DeviceResolution));

    let garbled = vec![dev("zero")];
    assert_eq!(validate_selection(&garbled, 2), Err(AudioError::DeviceResolution));
}
