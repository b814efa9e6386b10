use dji_live_bridge::diagnostics::{collect, DiagnosticLevel};
use dji_live_bridge::ffmpeg::{listed_capabilities, Platform};
use dji_live_bridge::state::{BridgeSnapshot, ServiceStatus};

#[test]
fn a_fresh_bridge_without_ffmpeg_lists_every_check() {
    let snapshot = BridgeSnapshot::default();
    let ffmpeg = listed_capabilities(Platform::MacOs, None, None, None, None, None, None);
    let items = collect(&snapshot, &ffmpeg, "aarch64", false);
    let names: Vec<_> = items.iter().map(|i| i.name.as_str()).collect();
    assert_eq!(
        names,
        vec![
            "macOS / architecture",
            "LAN interface",
            "MediaMTX",
            "/drone publisher",
            "FFmpeg / ffprobe",
            "Built-in production",
            "Production route",
            "DJI Live Bridge Camera",
            "OBS WebSocket",
            "Commentary microphone",
            "TikTok LIVE Studio",
        ]
    );
    assert_eq!(items[0].detail, "macOS aarch64");
    assert_eq!(items[1].level, DiagnosticLevel::Fail);
    assert_eq!(items[1].detail, "No eligible IPv4 LAN interface detected");
    assert_eq!(items[2].detail, "Sidecar is not ready");
    assert_eq!(items[3].level, DiagnosticLevel::Warning);
    assert_eq!(items[4].detail, "External FFmpeg tools are unavailable");
    assert_eq!(items[5].level, DiagnosticLevel::Fail);
    assert_eq!(items[6].detail, "Built-in production is stopped");
    assert_eq!(items[8].detail, "Not connected");
    assert_eq!(items[10].level, DiagnosticLevel::Warning);
}

#[test]
fn a_ready_bridge_passes_its_checks() {
    let mut snapshot = BridgeSnapshot::default();
    snapshot.selected_interface = Some("en0".into());
    snapshot.lan_ipv4 = Some("192.168.1.20".into());
    snapshot.media_mtx = ServiceStatus::Ready;
    snapshot.publisher_present = true;
    snapshot.production.active = true;
    snapshot.production.path_status = ServiceStatus::Ready;
    snapshot.production.forward_state = Some("forwarding".into());
    snapshot.production.outbound_bytes = 1234;
    let ffmpeg = listed_capabilities(
        Platform::MacOs,
        Some("/opt/homebrew/bin/ffmpeg".into()),
        Some("/opt/homebrew/bin/ffprobe".into()),
        Some("ffmpeg version 7.1\n".into()),
        Some(" V....D h264_videotoolbox\n A....D aac  AAC (Advanced Audio Coding)\n".into()),
        Some(("AVFoundation input device: avfoundation\n".into(), String::new())),
        None,
    );
    let items = collect(&snapshot, &ffmpeg, "x86_64", true);
    assert_eq!(items[1].detail, "en0 · 192.168.1.20");
    assert_eq!(items[1].level, DiagnosticLevel::Pass);
    assert_eq!(items[2].detail, "Process and loopback Control API are ready");
    assert_eq!(items[4].detail, "ffmpeg version 7.1");
    assert_eq!(
        items[5].detail,
        "H.264 encoder: VideoToolbox · AAC: available · AVFoundation microphone input: available"
    );
    assert_eq!(items[6].level, DiagnosticLevel::Pass);
    assert_eq!(items[6].detail, "/production: Ready · forward: forwarding · outbound: 1234 bytes");
    assert_eq!(items[6].action, None);
    assert_eq!(items[10].level, DiagnosticLevel::Pass);
}
