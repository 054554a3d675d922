use rhisper_core::audio::{
    capture_sources_from, device_label, parse_capture_sources, inspect_device, record_args, recording_pid,
    recording_target, CaptureSource, DeviceInfo, PwMetadataEntry, PwObject, RecordingTarget,
};

fn text(s: &str) -> Option<String> {
    Some(s.to_string())
}

fn node(id: i64, class: &str, name: &str, description: &str, serial: i64) -> PwObject {
    PwObject {
        kind: text("PipeWire:Interface:Node"),
        metadata_name: None,
        metadata: vec![],
        media_class: text(class),
        node_name: text(name),
        node_description: text(description),
        id: Some(id),
        serial: Some(serial),
    }
}

/// The objects of the dump the original tests read.
fn dump() -> Vec<PwObject> {
    vec![
        PwObject {
            kind: text("PipeWire:Interface:Metadata"),
            metadata_name: text("default"),
            metadata: vec![PwMetadataEntry {
                key: text("default.audio.source"),
                value_name: text("bluez_input.AA"),
            }],
            media_class: None,
            node_name: None,
            node_description: None,
            id: None,
            serial: None,
        },
        node(62, "Audio/Source", "alsa_input.builtin", "Built-in Analog Stereo", 301),
        node(147, "Audio/Source", "bluez_input.AA", "Headset", 412),
        node(61, "Audio/Sink", "alsa_output.builtin", "Speakers", 300),
    ]
}

const DUMP: &str = r#"[
  {"type":"PipeWire:Interface:Metadata","props":{"metadata.name":"default"},
   "metadata":[{"key":"default.audio.source","value":{"name":"bluez_input.AA"}}]},
  {"id":62,"type":"PipeWire:Interface:Node","info":{"props":{
    "media.class":"Audio/Source","node.name":"alsa_input.builtin",
    "node.description":"Built-in Analog Stereo","object.serial":301}}},
  {"id":147,"type":"PipeWire:Interface:Node","info":{"props":{
    "media.class":"Audio/Source","node.name":"bluez_input.AA",
    "node.description":"Headset","object.serial":412}}},
  {"id":61,"type":"PipeWire:Interface:Node","info":{"props":{
    "media.class":"Audio/Sink","node.name":"alsa_output.builtin",
    "node.description":"Speakers","object.serial":300}}}
]"#;

#[test]
fn parses_sources_and_marks_the_default() {
    let sources = parse_capture_sources(DUMP.as_bytes()).unwrap();
    let names: Vec<&str> = sources.iter().map(|s| s.name.as_str()).collect();
    // The sink is not a capture source and must not be offered.
    assert_eq!(names, ["alsa_input.builtin", "bluez_input.AA"]);
    assert_eq!(sources[0].description, "Built-in Analog Stereo");
    assert!(!sources[0].is_default);
    assert!(sources[1].is_default);
}

#[test]
fn sources_match_by_name_or_numeric_alias() {
    let sources = parse_capture_sources(DUMP.as_bytes()).unwrap();
    let builtin = &sources[0];
    assert!(builtin.matches("alsa_input.builtin"));
    assert!(builtin.matches("62"), "node id is a valid --target");
    assert!(builtin.matches("301"), "object.serial is a valid --target");
    assert!(!builtin.matches("bluez_input.AA"));
    assert!(
        !builtin.matches("412"),
        "another node's serial must not match"
    );
}

#[test]
fn malformed_dump_is_an_error_not_an_empty_list() {
    assert!(parse_capture_sources(b"not json").is_err());
}

#[test]
fn dump_records_list_the_same_sources_as_the_json() {
    assert_eq!(capture_sources_from(&dump()), parse_capture_sources(DUMP.as_bytes()).unwrap());
    assert!(parse_capture_sources(b"[]").unwrap().is_empty());
    assert!(parse_capture_sources(b"{}").is_err());
}

#[test]
fn records_list_sources_and_mark_the_default() {
    let sources = capture_sources_from(&dump());
    let names: Vec<&str> = sources.iter().map(|s| s.name.as_str()).collect();
    // The sink is not a capture source and must not be offered.
    assert_eq!(names, ["alsa_input.builtin", "bluez_input.AA"]);
    assert_eq!(sources[0].description, "Built-in Analog Stereo");
    assert!(!sources[0].is_default);
    assert!(sources[1].is_default);
    assert_eq!(sources[0].aliases, vec!["62", "301"]);
}


#[test]
fn a_node_without_description_is_described_by_its_name() {
    let mut o = node(-5, "Audio/Source", "mic", "", 7);
    o.node_description = None;
    o.serial = None;
    let sources = capture_sources_from(&vec![o]);
    assert_eq!(
        sources,
        vec![CaptureSource {
            name: "mic".to_string(),
            description: "mic".to_string(),
            is_default: false,
            aliases: vec!["-5".to_string()],
        }]
    );
}

#[test]
fn inspecting_devices() {
    let sources = parse_capture_sources(DUMP.as_bytes()).unwrap();
    assert_eq!(
        inspect_device("", Some(&sources)),
        DeviceInfo { available: Some(true), description: text("Headset") }
    );
    assert_eq!(
        inspect_device("301", Some(&sources)),
        DeviceInfo { available: Some(true), description: text("Built-in Analog Stereo") }
    );
    assert_eq!(
        inspect_device("usb-mic", Some(&sources)),
        DeviceInfo { available: Some(false), description: None }
    );
    assert_eq!(inspect_device("usb-mic", None), DeviceInfo::default());
    let none: Vec<CaptureSource> = vec![];
    assert_eq!(
        inspect_device("", Some(&none)),
        DeviceInfo { available: Some(true), description: None }
    );
}

#[test]
fn device_labels_and_targets() {
    let known = DeviceInfo { available: Some(true), description: text("Headset") };
    let missing = DeviceInfo { available: Some(false), description: None };
    let unknown = DeviceInfo::default();
    assert_eq!(device_label("bluez", &known), "Headset");
    assert_eq!(device_label("bluez", &unknown), "bluez");
    assert_eq!(device_label("", &unknown), "system default");
    assert_eq!(recording_target("", false, &missing), RecordingTarget::SystemDefault);
    assert_eq!(recording_target("usb", true, &missing), RecordingTarget::FallbackToDefault);
    assert_eq!(recording_target("usb", false, &missing), RecordingTarget::Refuse);
    assert_eq!(recording_target("usb", false, &unknown), RecordingTarget::Device("usb".to_string()));
}

#[test]
fn recorder_arguments() {
    assert_eq!(
        record_args(Some("alsa_input.usb")),
        vec!["--target=alsa_input.usb", "--channels=1", "--rate=16000", "/tmp/rhisper.wav"]
    );
    assert_eq!(record_args(None), vec!["--channels=1", "--rate=16000", "/tmp/rhisper.wav"]);
}

#[test]
fn pid_file_contents() {
    assert_eq!(recording_pid("1234\n"), Some(1234));
    assert_eq!(recording_pid(" +7 "), Some(7));
    assert_eq!(recording_pid("-2147483648"), Some(i32::MIN));
    assert_eq!(recording_pid("2147483647"), Some(i32::MAX));
    assert_eq!(recording_pid("2147483648"), None);
    assert_eq!(recording_pid("99999999999999999999"), None);
    assert_eq!(recording_pid(""), None);
    assert_eq!(recording_pid("-"), None);
    assert_eq!(recording_pid("12a"), None);
}
