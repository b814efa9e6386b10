use dji_live_bridge::error::{BridgeError, ErrorKind};
use dji_live_bridge::process::RestartPolicy;
use dji_live_bridge::recording::{join_path_exec, recording_file_name, recording_plan};

#[test]
fn recording_files_are_named_by_their_start_time() {
    assert_eq!(recording_file_name(1_700_000_000), "DJI-Live-1700000000.mkv");
    assert_eq!(recording_file_name(0), "DJI-Live-0.mkv");
    assert_eq!(recording_file_name(-5), "DJI-Live--5.mkv");
    assert_eq!(recording_file_name(i64::MIN), format!("DJI-Live-{}.mkv", i64::MIN));
}

#[test]
fn paths_are_joined_with_one_separator() {
    assert_eq!(join_path_exec("/Users/a/Movies/DJI Live Bridge", "x.mkv", '/'), "/Users/a/Movies/DJI Live Bridge/x.mkv");
    assert_eq!(join_path_exec("/tmp/", "x.mkv", '/'), "/tmp/x.mkv");
    assert_eq!(join_path_exec("C:\\Videos", "x.mkv", '\\'), "C:\\Videos\\x.mkv");
    assert_eq!(join_path_exec("", "x.mkv", '/'), "x.mkv");
}

#[test]
fn recording_copies_the_production_when_it_runs() {
    let (spec, output) = recording_plan(
        Some("/usr/bin/ffmpeg".to_string()),
        Ok("/rec".to_string()),
        42,
        true,
        '/',
    )
    .unwrap();
    assert_eq!(output, "/rec/DJI-Live-42.mkv");
    assert_eq!(spec.name, "native-recording");
    assert_eq!(spec.executable, "/usr/bin/ffmpeg");
    assert_eq!(spec.restart_policy, RestartPolicy::Never);
    assert_eq!(
        spec.args,
        vec![
            "-hide_banner", "-loglevel", "warning", "-rtsp_transport", "tcp", "-i",
            "rtsp://127.0.0.1:8554/production", "-map", "0", "-c", "copy", "-f", "matroska",
            "/rec/DJI-Live-42.mkv",
        ]
    );
    let (spec, _) = recording_plan(Some("ffmpeg".into()), Ok("/rec".into()), 42, false, '/').unwrap();
    assert_eq!(spec.args[6], "rtsp://127.0.0.1:8554/drone");
}

#[test]
fn recording_needs_ffmpeg_and_a_folder() {
    let error = recording_plan(None, Ok("/rec".into()), 1, false, '/').unwrap_err();
    assert_eq!(error.kind(), ErrorKind::Ffmpeg);
    assert_eq!(error.detail(), "FFmpeg is unavailable");
    let error = recording_plan(
        Some("ffmpeg".into()),
        Err(BridgeError::Config("Video directory not found".into())),
        1,
        false,
        '/',
    )
    .unwrap_err();
    assert_eq!(error.kind(), ErrorKind::Config);
    assert_eq!(error.detail(), "Video directory not found");
}
