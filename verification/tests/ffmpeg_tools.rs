use dji_live_bridge::error::ErrorKind;
use dji_live_bridge::ffmpeg::{
    audio_stream_probe_args, brew_environment, brew_install_outcome, brew_install_plan,
    encoder_probe_args, first_existing, lists_audio, tool_search_paths,
    videotoolbox_cbr_probe_args, Platform,
};

#[test]
fn a_hardware_encoder_is_tried_on_three_frames() {
    assert_eq!(
        encoder_probe_args("h264_nvenc"),
        vec![
            "-hide_banner", "-loglevel", "error", "-f", "lavfi", "-i", "color=size=320x240:rate=30",
            "-frames:v", "3", "-c:v", "h264_nvenc", "-f", "null", "-",
        ]
    );
    let cbr = videotoolbox_cbr_probe_args();
    assert_eq!(cbr[10], "h264_videotoolbox");
    assert_eq!(&cbr[11..15], &["-constant_bit_rate", "1", "-b:v", "1M"]);
    assert_eq!(cbr.last().map(String::as_str), Some("-"));
}

#[test]
fn tools_are_looked_for_next_to_the_app_first() {
    assert_eq!(
        tool_search_paths(Some("/Applications/DJI Live Bridge.app/Contents/MacOS"), "ffmpeg", Platform::MacOs),
        vec![
            "/Applications/DJI Live Bridge.app/Contents/MacOS/ffmpeg",
            "/opt/homebrew/bin/ffmpeg",
            "/usr/local/bin/ffmpeg",
            "/usr/bin/ffmpeg",
        ]
    );
    let windows = tool_search_paths(Some("C:\\Program Files\\DJI Live Bridge"), "ffprobe", Platform::Windows);
    assert_eq!(windows[0], "C:\\Program Files\\DJI Live Bridge\\ffprobe.exe");
    assert_eq!(windows.len(), 4);
    assert_eq!(tool_search_paths(None, "ffmpeg", Platform::MacOs).len(), 3);
}

#[test]
fn the_first_existing_candidate_wins() {
    let candidates = vec!["a".to_string(), "b".to_string(), "c".to_string()];
    assert_eq!(first_existing(candidates.clone(), &vec![false, true, true]).as_deref(), Some("b"));
    assert_eq!(first_existing(candidates, &vec![false, false, false]), None);
}

#[test]
fn homebrew_install_reports_each_failure() {
    let error = brew_install_plan(None).unwrap_err();
    assert_eq!(error.kind(), ErrorKind::Ffmpeg);
    assert_eq!(error.detail(), "Homebrew was not found. Install Homebrew from brew.sh, then try again.");
    let (program, args) = brew_install_plan(Some("/opt/homebrew/bin/brew")).unwrap();
    assert_eq!(program, "/opt/homebrew/bin/brew");
    assert_eq!(args, vec!["install", "ffmpeg"]);
    assert_eq!(brew_environment().len(), 3);
    assert_eq!(brew_environment()[0], ("HOMEBREW_NO_AUTO_UPDATE", "1"));
    assert_eq!(
        brew_install_outcome(false, "exit status: 1", false).unwrap_err().detail(),
        "Homebrew could not install FFmpeg (exit status: 1). See the log above."
    );
    assert_eq!(
        brew_install_outcome(true, "exit status: 0", false).unwrap_err().detail(),
        "Homebrew finished but FFmpeg is still not in /opt/homebrew/bin or /usr/local/bin."
    );
    assert!(brew_install_outcome(true, "exit status: 0", true).is_ok());
}

#[test]
fn a_file_has_audio_when_ffprobe_lists_a_stream() {
    assert_eq!(
        audio_stream_probe_args("/clip.mp4"),
        vec!["-v", "error", "-select_streams", "a", "-show_entries", "stream=index", "-of", "csv=p=0", "/clip.mp4"]
    );
    assert!(lists_audio(true, &b"1\n".to_vec()));
    assert!(!lists_audio(true, &b" \n\r\t".to_vec()));
    assert!(!lists_audio(true, &Vec::new()));
    assert!(!lists_audio(false, &b"1\n".to_vec()));
}
