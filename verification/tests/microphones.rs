use dji_live_bridge::audio::{
    input_devices_from_dshow, input_devices_from_profile, nonzero_value, ProfileValue,
};

fn device(name: &str, input: ProfileValue, transport: &str) -> ProfileValue {
    ProfileValue::Object(vec![
        ("_name".to_string(), ProfileValue::Text(name.to_string())),
        ("coreaudio_device_input".to_string(), input),
        ("coreaudio_device_manufacturer".to_string(), ProfileValue::Text("Acme".to_string())),
        ("coreaudio_device_transport".to_string(), ProfileValue::Text(transport.to_string())),
    ])
}

#[test]
fn device_flags_count_when_set() {
    assert!(nonzero_value(&ProfileValue::Bool(true)));
    assert!(!nonzero_value(&ProfileValue::Bool(false)));
    assert!(nonzero_value(&ProfileValue::Number(Some(2))));
    assert!(!nonzero_value(&ProfileValue::Number(Some(0))));
    assert!(!nonzero_value(&ProfileValue::Number(None)));
    assert!(nonzero_value(&ProfileValue::Text(" 1 ".into())));
    for text in ["", " 0", "No", "no "] {
        assert!(!nonzero_value(&ProfileValue::Text(text.into())), "{text:?}");
    }
    assert!(!nonzero_value(&ProfileValue::Null));
}

#[test]
fn system_profiler_inputs_are_found_at_any_depth_sorted_once_each() {
    let root = ProfileValue::Object(vec![(
        "SPAudioDataType".to_string(),
        ProfileValue::Array(vec![ProfileValue::Object(vec![(
            "_items".to_string(),
            ProfileValue::Array(vec![
                device("USB Mic", ProfileValue::Number(Some(1)), "coreaudio_device_type_usb"),
                device("Speakers", ProfileValue::Text("0".into()), "coreaudio_device_type_builtin"),
                device("MacBook Microphone", ProfileValue::Text("2".into()), "coreaudio_device_type_builtin"),
                device("USB Mic", ProfileValue::Bool(true), "coreaudio_device_type_virtual"),
            ]),
        )])]),
    )]);
    let devices = input_devices_from_profile(&root);
    let names: Vec<_> = devices.iter().map(|d| d.name.as_str()).collect();
    assert_eq!(names, vec!["MacBook Microphone", "USB Mic"]);
    assert_eq!(devices[1].transport.as_deref(), Some("coreaudio_device_type_usb"));
    assert_eq!(devices[0].manufacturer.as_deref(), Some("Acme"));
}

#[test]
fn dshow_microphones_are_sorted_once_each() {
    let listing = "[in#0] \"Zeta Mic\" (audio)\n[in#0] \"Alpha Mic\" (audio)\n[in#0] \"Zeta Mic\" (audio)\n[in#0] \"Cam\" (video)\n";
    let names: Vec<_> = input_devices_from_dshow(listing).into_iter().map(|d| d.name).collect();
    assert_eq!(names, vec!["Alpha Mic", "Zeta Mic"]);
}
