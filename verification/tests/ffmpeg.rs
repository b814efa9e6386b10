use dji_live_bridge::config::{FitMode, MicrophoneVolume, OutputLayout};
use dji_live_bridge::ffmpeg::{
    check_production_volume, confirm_hardware, listed_capabilities, preview_plan, production_encoder_args, production_plan,
    production_video_filter, select_h264_encoder, stream_metadata, test_drone_plan,
    virtual_camera_feed_args, virtual_camera_filter, FfmpegCapabilities, NativeProductionSettings,
    Platform, ProbedStream,
};
use dji_live_bridge::process::RestartPolicy;

#[test]
fn portrait_fit_uses_blurred_background_not_black_bars() {
    let filter = production_video_filter(OutputLayout::Portrait, FitMode::Fit);
    assert!(filter.starts_with("fps=30,"));
    assert!(filter.contains("gblur"));
    assert!(filter.contains("scale=1080:1920:force_original_aspect_ratio=decrease"));
    assert!(!filter.contains("pad="));
}

#[test]
fn filters_stay_within_the_lgpl_build() {
    for layout in [OutputLayout::Portrait, OutputLayout::Landscape] {
        for fit in [FitMode::Fit, FitMode::Fill] {
            let filter = production_video_filter(layout, fit);
            for gpl_only in ["boxblur", "eq=", "geq", "hqdn3d", "smartblur", "delogo"] {
                assert!(
                    !filter.contains(gpl_only),
                    "{gpl_only} is GPL-only but appears in {filter}"
                );
            }
        }
    }
}

#[test]
fn fill_crops_to_the_canvas() {
    let filter = production_video_filter(OutputLayout::Landscape, FitMode::Fill);
    assert!(filter.contains("crop=1920:1080"));
    assert!(filter.contains("flags=lanczos"));
}

#[test]
fn encoders_use_constant_rate_and_two_second_keyframes() {
    for (encoder, cbr) in [("h264_videotoolbox", true), ("libx264", false)] {
        let args = production_encoder_args(encoder, cbr);
        let value = |flag: &str| args[args.iter().position(|arg| *arg == flag).unwrap() + 1];
        assert_eq!(value("-b:v"), value("-maxrate"));
        assert_eq!(value("-g"), "60");
        assert_eq!(value("-profile:v"), "high");
    }
    assert!(production_encoder_args("h264_videotoolbox", true).contains(&"-constant_bit_rate"));
    assert!(!production_encoder_args("h264_videotoolbox", false).contains(&"-constant_bit_rate"));
}

fn capabilities() -> FfmpegCapabilities {
    FfmpegCapabilities {
        ffmpeg_path: Some("/usr/bin/ffmpeg".to_string()),
        ffprobe_path: Some("/usr/bin/ffprobe".to_string()),
        version: Some("ffmpeg version 7.1".to_string()),
        h264_videotoolbox: false,
        h264_nvenc: false,
        h264_qsv: false,
        h264_amf: false,
        h264_videotoolbox_cbr: false,
        libx264: true,
        libopus: false,
        opus: true,
        avfoundation: true,
        aac: true,
        afftdn: true,
        compressor: true,
        limiter: true,
        amix: true,
    }
}

fn settings(microphone: Option<&str>) -> NativeProductionSettings {
    NativeProductionSettings {
        layout: OutputLayout::Portrait,
        fit_mode: FitMode::Fit,
        microphone: microphone.map(str::to_string),
        microphone_muted: false,
        microphone_volume: MicrophoneVolume { text: "-6".to_string(), in_range: true },
        microphone_sync_ms: 120,
        noise_suppression: true,
        compressor: false,
        limiter: true,
    }
}

#[test]
fn hardware_encoders_are_preferred_in_order() {
    let mut c = capabilities();
    assert_eq!(select_h264_encoder(&c), Some("libx264"));
    c.h264_amf = true;
    assert_eq!(select_h264_encoder(&c), Some("h264_amf"));
    c.h264_qsv = true;
    assert_eq!(select_h264_encoder(&c), Some("h264_qsv"));
    c.h264_nvenc = true;
    assert_eq!(select_h264_encoder(&c), Some("h264_nvenc"));
    c.h264_videotoolbox = true;
    assert_eq!(select_h264_encoder(&c), Some("h264_videotoolbox"));
    c = capabilities();
    c.libx264 = false;
    assert_eq!(select_h264_encoder(&c), None);
}

#[test]
fn listed_capabilities_read_the_probe_outputs() {
    let c = listed_capabilities(
        Platform::MacOs,
        Some("/opt/homebrew/bin/ffmpeg".to_string()),
        None,
        Some("ffmpeg version 7.1 Copyright\r\nbuilt with clang\n".to_string()),
        Some(" V....D h264_videotoolbox\n A....D aac   AAC (Advanced Audio Coding)\n A....D opus  Opus\n".to_string()),
        Some(("".to_string(), " D  avfoundation    AVFoundation input device\n".to_string())),
        Some(" ... amix    N->A Audio mixing.\n ... alimiter A->A Audio lookahead limiter.\n".to_string()),
    );
    assert_eq!(c.version.as_deref(), Some("ffmpeg version 7.1 Copyright"));
    assert!(c.h264_videotoolbox);
    assert!(!c.libx264);
    assert!(c.aac);
    assert!(c.opus);
    assert!(!c.libopus);
    assert!(c.avfoundation);
    assert!(c.amix && c.limiter && !c.afftdn && !c.compressor);
    assert!(!c.h264_videotoolbox_cbr);

    let none = listed_capabilities(Platform::Windows, None, None, Some("x".into()), Some("libx264".into()), None, None);
    assert!(none.ffmpeg_path.is_none() && none.version.is_none() && !none.libx264);
}

#[test]
fn listed_hardware_counts_only_when_it_encodes() {
    let mut c = capabilities();
    c.h264_nvenc = true;
    c.h264_amf = true;
    c.h264_videotoolbox = true;
    let confirmed = confirm_hardware(c, false, true, true, true);
    assert!(!confirmed.h264_nvenc);
    assert!(!confirmed.h264_qsv, "qsv was never listed");
    assert!(confirmed.h264_amf);
    assert!(confirmed.h264_videotoolbox_cbr);
    assert!(confirmed.libx264);
}

#[test]
fn production_mixes_microphone_with_drone_audio() {
    let (spec, encoder) = production_plan(&settings(Some("USB Mic")), &capabilities(), true, Platform::MacOs).unwrap();
    assert_eq!(encoder, "libx264");
    assert_eq!(spec.name, "native-production");
    assert_eq!(spec.executable, "/usr/bin/ffmpeg");
    assert!(matches!(spec.restart_policy, RestartPolicy::Never));
    let args = spec.args;
    let i = args.iter().position(|a| a == "avfoundation").unwrap();
    assert_eq!(args[i + 2], ":USB Mic");
    let graph = &args[args.iter().position(|a| a == "-filter_complex").unwrap() + 1];
    assert_eq!(
        graph,
        "[0:a:0]aresample=48000[drone];[1:a:0]aresample=48000,afftdn=nr=12:nf=-50,adelay=120|120,volume=-6dB,alimiter=limit=0.95[mic];[drone][mic]amix=inputs=2:duration=longest:dropout_transition=2[aout]"
    );
    assert_eq!(args.last().unwrap(), "rtsp://127.0.0.1:8554/production");
}

#[test]
fn production_without_any_audio_adds_silence() {
    let (spec, _) = production_plan(&settings(None), &capabilities(), false, Platform::Windows).unwrap();
    let args = spec.args;
    assert!(args.contains(&"anullsrc=channel_layout=stereo:sample_rate=48000".to_string()));
    let map = args.iter().rposition(|a| a == "-map").unwrap();
    assert_eq!(args[map + 1], "1:a:0");
    assert!(!args.contains(&"-filter_complex".to_string()));
}

#[test]
fn production_muted_microphone_is_silenced() {
    let mut s = settings(Some("Mic"));
    s.microphone_muted = true;
    s.microphone_sync_ms = 0;
    s.noise_suppression = false;
    s.limiter = false;
    let (spec, _) = production_plan(&s, &capabilities(), false, Platform::Windows).unwrap();
    let args = spec.args;
    assert!(args.contains(&"audio=Mic".to_string()));
    assert!(args.contains(&"[1:a:0]aresample=48000,volume=-90dB[aout]".to_string()));
}

#[test]
fn production_refusals_come_in_order() {
    let mut s = settings(Some("Mic"));
    s.microphone_volume.in_range = false;
    let mut c = capabilities();
    c.ffmpeg_path = None;
    let error = production_plan(&s, &c, true, Platform::MacOs).unwrap_err();
    assert_eq!(error.message(), "Validation error: Microphone volume must be between -60 dB and +12 dB");
    s.microphone_volume.in_range = true;
    let error = production_plan(&s, &c, true, Platform::MacOs).unwrap_err();
    assert_eq!(error.message(), "FFmpeg error: FFmpeg is unavailable");
    let mut c = capabilities();
    c.aac = false;
    assert_eq!(
        production_plan(&s, &c, true, Platform::MacOs).unwrap_err().message(),
        "FFmpeg error: Installed FFmpeg does not provide the AAC encoder"
    );
    let mut c = capabilities();
    c.avfoundation = false;
    assert_eq!(
        production_plan(&s, &c, true, Platform::Windows).unwrap_err().message(),
        "FFmpeg error: This FFmpeg build has no dshow input device for the microphone"
    );
    let mut c = capabilities();
    c.afftdn = false;
    assert_eq!(
        production_plan(&s, &c, true, Platform::Windows).unwrap_err().message(),
        "FFmpeg error: Installed FFmpeg is missing a selected commentary audio filter"
    );
    let mut c = capabilities();
    c.libx264 = false;
    assert_eq!(
        production_plan(&s, &c, true, Platform::Windows).unwrap_err().message(),
        "FFmpeg error: No production H.264 encoder is available"
    );
}

#[test]
fn test_drone_keeps_the_clip_soundtrack() {
    let c = capabilities();
    let spec = test_drone_plan(&c, Ok("/clips/flight.mp4".to_string()), true, true).unwrap();
    assert_eq!(spec.name, "test-drone");
    assert_eq!(&spec.args[7], "/clips/flight.mp4");
    assert_eq!(&spec.args[8..12], ["-map", "0:v:0", "-map", "0:a:0"]);
    assert_eq!(spec.args.last().unwrap(), "rtmp://127.0.0.1:1935/drone");
    let silent = test_drone_plan(&c, Ok("/clips/flight.mp4".to_string()), true, false).unwrap();
    assert!(silent.args.contains(&"anullsrc=channel_layout=stereo:sample_rate=48000".to_string()));
    let error = test_drone_plan(&c, Err("No such file".to_string()), false, false).unwrap_err();
    assert_eq!(error.message(), "Validation error: test video: No such file");
    let error = test_drone_plan(&c, Ok("/clips".to_string()), false, false).unwrap_err();
    assert_eq!(error.message(), "Validation error: Test Drone input must be a regular video file");
}

#[test]
fn preview_uses_opus_and_baseline_h264() {
    let mut c = capabilities();
    let (spec, encoder) = preview_plan(&c).unwrap();
    assert_eq!(encoder, "libx264");
    assert!(matches!(spec.restart_policy, RestartPolicy::OnFailure));
    let joined = spec.args.join(" ");
    assert!(joined.contains("-c:a opus -strict -2"));
    assert!(joined.contains("-preset veryfast -tune zerolatency"));
    assert!(joined.contains("-profile:v baseline"));
    c.libopus = true;
    c.h264_videotoolbox = true;
    let (spec, encoder) = preview_plan(&c).unwrap();
    assert_eq!(encoder, "h264_videotoolbox");
    let joined = spec.args.join(" ");
    assert!(joined.contains("-c:a libopus"));
    assert!(joined.contains("-realtime 1"));
    c.libopus = false;
    c.opus = false;
    assert_eq!(
        preview_plan(&c).unwrap_err().message(),
        "FFmpeg error: This FFmpeg build has no Opus encoder for the browser preview"
    );
}

#[test]
fn camera_filter_letterboxes_into_nv12() {
    assert_eq!(
        virtual_camera_filter(1080, 1920, 30),
        "fps=30,scale=w=1080:h=1920:force_original_aspect_ratio=decrease,pad=1080:1920:(ow-iw)/2:(oh-ih)/2,format=nv12"
    );
    let args = virtual_camera_feed_args();
    assert_eq!(args.last().unwrap(), "-");
    assert!(args.contains(&"rawvideo".to_string()));
}

#[test]
fn probe_reads_the_first_video_and_audio_streams() {
    let streams = vec![
        ProbedStream { codec_type: Some("data".into()), codec_name: Some("bin".into()), width: None, height: None, bit_rate: None },
        ProbedStream { codec_type: Some("video".into()), codec_name: Some("h264".into()), width: Some(1280), height: Some(720), bit_rate: Some("8000000".into()) },
        ProbedStream { codec_type: Some("audio".into()), codec_name: Some("aac".into()), width: None, height: None, bit_rate: Some("+128000".into()) },
        ProbedStream { codec_type: Some("video".into()), codec_name: Some("hevc".into()), width: Some(1), height: Some(1), bit_rate: None },
    ];
    let m = stream_metadata(Some(streams)).unwrap();
    assert_eq!(m.resolution.as_deref(), Some("1280x720"));
    assert_eq!(m.video_codec.as_deref(), Some("H264"));
    assert_eq!(m.audio_codec.as_deref(), Some("AAC"));
    assert_eq!(m.video_bitrate_bps, Some(8_000_000));
    assert_eq!(m.audio_bitrate_bps, Some(128_000));
    assert_eq!(stream_metadata(None).unwrap_err().message(), "FFmpeg error: ffprobe returned no streams");
}

#[test]
fn production_volume_is_checked_before_anything_else() {
    let mut s = settings(None);
    assert!(check_production_volume(&s).is_ok());
    s.microphone_volume = MicrophoneVolume { text: "40".to_string(), in_range: false };
    let error = check_production_volume(&s).unwrap_err();
    assert_eq!(error.detail(), "Microphone volume must be between -60 dB and +12 dB");
}
