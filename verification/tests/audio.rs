use dji_live_bridge::audio::{parse_dshow_inputs, routing_notice, sort_dedup_by_name, AudioInputDevice};

const LISTING: &str = r#"[in#0 @ 0000024] "USB Video Aygıtı" (video)
[in#0 @ 0000024]   Alternative name "@device_pnp_\\?\usb#vid_174f"
[in#0 @ 0000024] "Mikrofon (Realtek(R) Audio)" (audio)
[in#0 @ 0000024]   Alternative name "@device_cm_{33D9A762}"
Error opening input file dummy.
"#;

#[test]
fn reads_only_the_audio_devices() {
    let devices = parse_dshow_inputs(LISTING);
    assert_eq!(devices.len(), 1);
    assert_eq!(devices[0].name, "Mikrofon (Realtek(R) Audio)");
}

#[test]
fn a_listing_without_devices_yields_nothing() {
    assert!(parse_dshow_inputs("Error opening input file dummy.\n").is_empty());
}

#[test]
fn dshow_names_need_both_quotes_and_a_name() {
    let devices = parse_dshow_inputs("[x] \"\" (audio)\n[x] \"Line In\"   (audio)  \r\n[x] Mic\" (audio)\n");
    assert_eq!(devices.len(), 1);
    assert_eq!(devices[0].name, "Line In");
    assert_eq!(devices[0].transport.as_deref(), Some("DirectShow"));
    assert_eq!(devices[0].manufacturer, None);
}

fn device(name: &str, transport: &str) -> AudioInputDevice {
    AudioInputDevice { name: name.into(), manufacturer: None, transport: Some(transport.into()) }
}

#[test]
fn devices_are_sorted_by_name_keeping_the_first_of_each() {
    let devices = vec![device("USB", "first"), device("Built-in", "a"), device("USB", "second"), device("AirPods", "b")];
    let sorted = sort_dedup_by_name(&devices);
    let names: Vec<&str> = sorted.iter().map(|d| d.name.as_str()).collect();
    assert_eq!(names, ["AirPods", "Built-in", "USB"]);
    assert_eq!(sorted[2].transport.as_deref(), Some("first"));
}

#[test]
fn the_camera_carries_no_audio() {
    let notice = routing_notice();
    assert!(!notice.virtual_camera_carries_audio);
    assert!(notice.physical_microphone_guidance.starts_with("DJI Live Bridge Camera carries video only."));
    assert!(notice.virtual_audio_automation.starts_with("UnsupportedAutomation:"));
}
