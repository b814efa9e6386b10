use dji_live_bridge::error::ErrorKind;
use dji_live_bridge::process::{ProcessSnapshot, ProcessStatus, RestartPolicy};
use dji_live_bridge::state::ServiceStatus;
use dji_live_bridge::virtual_camera::{
    bundle_build_version, feed_active, inspect_macos, inspect_windows, macos_feed_plan,
    request_activation_macos, request_activation_windows, system_extension_build_version,
    windows_feed_plan, FrameBridge, VirtualCameraState, FRAME_BYTES, FRAME_FPS, FRAME_HEIGHT,
    FRAME_MAGIC, FRAME_WIDTH,
};

const ACTIVE: &str = "1 extension(s)\n--- com.apple.system_extension.cmio\nenabled\tactive\tteamID\tbundleID (version)\tname\t[state]\n*\t*\tABCDE12345\tcom.djilivebridge.desktop.camera (1.2/7)\tDJI Live Bridge Camera\t[activated enabled]\n";
const WAITING: &str = "--- com.apple.system_extension.cmio\n\t\tABCDE12345\tcom.djilivebridge.desktop.camera (1.2/7)\tDJI Live Bridge Camera\t[activated waiting for user]\n";

#[test]
fn the_build_is_read_from_the_extension_line() {
    assert_eq!(
        system_extension_build_version("*\t*\tTEAM\tcom.djilivebridge.desktop.camera (1.2/7)\tname\t[activated enabled]")
            .as_deref(),
        Some("7")
    );
    assert_eq!(system_extension_build_version("no version here").as_deref(), None);
    assert_eq!(system_extension_build_version("x (1.2) y").as_deref(), None);
    assert_eq!(bundle_build_version(true, " 8\n").as_deref(), Some("8"));
    assert_eq!(bundle_build_version(true, "  \n").as_deref(), None);
    assert_eq!(bundle_build_version(false, "8").as_deref(), None);
}

#[test]
fn an_enabled_extension_of_the_bundled_build_is_ready() {
    let state = inspect_macos(true, Some("7".into()), true, ACTIVE, false);
    assert_eq!(state.status, ServiceStatus::Ready);
    assert_eq!(state.detail.as_deref(), Some("DJI Live Bridge Camera is enabled by macOS"));
    assert_eq!((state.width, state.height, state.fps), (1080, 1920, 30));
}

#[test]
fn a_newer_bundled_build_asks_for_the_update() {
    let state = inspect_macos(true, Some("8".into()), true, ACTIVE, false);
    assert_eq!(state.status, ServiceStatus::Unavailable);
    assert_eq!(
        state.detail.as_deref(),
        Some("A camera extension update is ready. Enable it to replace the active version.")
    );
}

#[test]
fn pending_approval_missing_bundle_and_wrong_folder_are_told_apart() {
    let state = inspect_macos(true, None, true, WAITING, false);
    assert_eq!(state.status, ServiceStatus::Starting);
    assert_eq!(state.detail.as_deref(), Some("Camera extension activation is waiting for macOS approval"));
    let state = inspect_macos(false, None, true, "", false);
    assert_eq!(state.detail.as_deref(), Some("This app bundle does not contain the camera extension"));
    let state = inspect_macos(true, None, false, "", true);
    assert_eq!(
        state.detail.as_deref(),
        Some("Move DJI Live Bridge.app to /Applications before enabling the camera")
    );
    assert!(state.feed_active);
    let state = inspect_macos(true, None, true, "", false);
    assert_eq!(state.detail.as_deref(), Some("Camera extension is bundled but not enabled"));
}

#[test]
fn activation_needs_the_bundle_in_applications() {
    let mut state = VirtualCameraState::default();
    assert_eq!(
        request_activation_macos(&state).unwrap_err().detail(),
        "Camera extension is missing from the application bundle"
    );
    state.bundled = true;
    assert_eq!(
        request_activation_macos(&state).unwrap_err().detail(),
        "DJI Live Bridge.app must run from /Applications before the camera extension can be enabled"
    );
    state.app_installed = true;
    assert!(request_activation_macos(&state).is_ok());
}

#[test]
fn macos_feed_starts_only_when_the_camera_is_ready() {
    let mut state = inspect_macos(true, Some("7".into()), true, ACTIVE, false);
    let spec = macos_feed_plan(&state, Some("/opt/ffmpeg".into())).unwrap();
    assert_eq!(spec.name, "virtual-camera-feed");
    assert_eq!(spec.executable, "/opt/ffmpeg");
    assert_eq!(spec.restart_policy, RestartPolicy::OnFailure);
    assert_eq!(spec.args.last().map(String::as_str), Some("tcp://127.0.0.1:49213?listen=1"));
    assert!(spec.args.iter().any(|a| a.contains("format=nv12")));
    let error = macos_feed_plan(&state, None).unwrap_err();
    assert_eq!(error.kind(), ErrorKind::Ffmpeg);
    state.status = ServiceStatus::Unavailable;
    state.detail = None;
    let error = macos_feed_plan(&state, Some("/opt/ffmpeg".into())).unwrap_err();
    assert_eq!(error.kind(), ErrorKind::VirtualCamera);
    assert_eq!(error.detail(), "Camera extension is not enabled");
}

#[test]
fn windows_camera_depends_on_the_registered_filter() {
    let state = inspect_windows(true, false);
    assert_eq!(state.status, ServiceStatus::Ready);
    assert_eq!(state.detail_key, "camera.detail.windowsReady");
    let state = inspect_windows(false, false);
    assert_eq!(state.status, ServiceStatus::Unavailable);
    assert_eq!(state.detail_key, "camera.detail.windowsNotRegistered");
    assert!(request_activation_windows(true).is_ok());
    assert_eq!(request_activation_windows(false).unwrap_err().kind(), ErrorKind::VirtualCamera);

    let (program, args) = windows_feed_plan(true, Some("C:\\ffmpeg.exe".into())).unwrap();
    assert_eq!(program, "C:\\ffmpeg.exe");
    assert_eq!(args.last().map(String::as_str), Some("-"));
    assert_eq!(windows_feed_plan(true, None).unwrap_err().detail(), "FFmpeg is unavailable");
    assert_eq!(windows_feed_plan(false, None).unwrap_err().kind(), ErrorKind::VirtualCamera);
}

#[test]
fn feed_is_active_while_its_process_runs() {
    let snapshot = |status| ProcessSnapshot {
        name: "virtual-camera-feed".into(),
        pid: Some(7),
        status,
        restart_policy: RestartPolicy::OnFailure,
        restart_count: 0,
        last_error: None,
    };
    assert!(feed_active(&vec![snapshot(ProcessStatus::Running)]));
    assert!(feed_active(&vec![snapshot(ProcessStatus::BackingOff)]));
    assert!(!feed_active(&vec![snapshot(ProcessStatus::Stopped)]));
    assert!(!feed_active(&Vec::new()));
}

#[test]
fn frame_sequence_is_odd_while_writing_and_even_when_done() {
    assert_eq!(FRAME_BYTES, (FRAME_WIDTH as usize) * (FRAME_HEIGHT as usize) * 3 / 2);
    let mut bridge = FrameBridge::new();
    assert_eq!(bridge.write_header(), vec![FRAME_MAGIC, FRAME_WIDTH, FRAME_HEIGHT, FRAME_FPS, 0]);
    assert_eq!(bridge.begin_frame(10), None);
    let writing = bridge.begin_frame(FRAME_BYTES).unwrap();
    assert_eq!(writing % 2, 1);
    let done = bridge.end_frame();
    assert_eq!(done % 2, 0);
    assert_eq!(done, writing + 1);
    let next = bridge.begin_frame(FRAME_BYTES).unwrap();
    assert_eq!(next, done + 1);
    assert_eq!(bridge.end_frame(), next + 1);
}

#[test]
fn both_camera_feeds_drop_the_audio() {
    let state = inspect_macos(true, Some("7".into()), true, ACTIVE, false);
    let mac = macos_feed_plan(&state, Some("ffmpeg".into())).unwrap();
    assert!(mac.args.iter().any(|a| a == "-an"));
    let (_, windows) = windows_feed_plan(true, Some("ffmpeg".into())).unwrap();
    assert!(windows.iter().any(|a| a == "-an"));
    assert!(!windows.iter().any(|a| a == "-c:a"));
}
