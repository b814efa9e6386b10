//! The FFmpeg command lines of the bridge: the production encode, the test
//! drone, the browser preview fallback and the virtual camera feed, chosen
//! from what the installed FFmpeg can do.
use vstd::prelude::*;
use crate::config::{FitMode, OutputLayout, spec_canvas, MicrophoneVolume};
use crate::error::{BridgeError, ErrorKind, result_matches};
use crate::process::{ProcessSpec, RestartPolicy};
use crate::virtual_camera::{FEED_WIDTH, FEED_HEIGHT, FEED_FPS};
use crate::text::{
    decimal, u64_to_string, push_arg, push_owned, eq_str, opt_view, seq_contains, contains,
    first_line, first_line_of, parse_u64, parse_u64_spec, trim, trim_str,
};
use crate::state::StreamMetadata;
use crate::recording::{join_path, join_path_exec};

verus! {

/// The operating system the bridge runs on, where FFmpeg's inputs differ.
#[derive(Debug, Clone, Copy, PartialEq, Eq, Structural)]
pub enum Platform {
    MacOs,
    Windows,
}

/// What the installed FFmpeg provides, as probed at run time.
#[derive(Debug, Clone)]
pub struct FfmpegCapabilities {
    pub ffmpeg_path: Option<String>,
    pub ffprobe_path: Option<String>,
    pub version: Option<String>,
    pub h264_videotoolbox: bool,
    /// Windows hardware encoders, in the order they are preferred.
    pub h264_nvenc: bool,
    pub h264_qsv: bool,
    pub h264_amf: bool,
    /// VideoToolbox honours `-constant_bit_rate` (macOS 13+, not every GPU).
    pub h264_videotoolbox_cbr: bool,
    pub libx264: bool,
    pub libopus: bool,
    /// FFmpeg's own Opus encoder, used when libopus is absent.
    pub opus: bool,
    /// The OS audio capture input for the commentary microphone:
    /// avfoundation on macOS, dshow on Windows.
    pub avfoundation: bool,
    pub aac: bool,
    pub afftdn: bool,
    pub compressor: bool,
    pub limiter: bool,
    pub amix: bool,
}

/// `needle` occurs in the output of a probe that ran.
pub open spec fn listed(output: Option<String>, needle: Seq<char>) -> bool {
    match output {
        Some(text) => seq_contains(text@, needle),
        None => false,
    }
}

fn is_listed(output: &Option<String>, needle: &str) -> (b: bool)
    ensures
        b == listed(*output, needle@),
{
    match output {
        Some(text) => contains(text.as_str(), needle),
        None => false,
    }
}

/// What the installed FFmpeg lists, before any hardware encoder has been
/// tried. The outputs are those of `ffmpeg -version`, `-encoders`,
/// `-devices` (stdout then stderr) and `-filters`, `None` where the probe
/// could not run; without an FFmpeg only the two paths are known.
pub fn listed_capabilities(
    platform: Platform,
    ffmpeg_path: Option<String>,
    ffprobe_path: Option<String>,
    version_output: Option<String>,
    encoders: Option<String>,
    devices: Option<(String, String)>,
    filters: Option<String>,
) -> (c: FfmpegCapabilities)
    ensures
        opt_view(c.ffmpeg_path) == opt_view(ffmpeg_path),
        opt_view(c.ffprobe_path) == opt_view(ffprobe_path),
        opt_view(c.version) == (match (ffmpeg_path, version_output) {
            (Some(_), Some(out)) => first_line(out@),
            _ => None,
        }),
        c.h264_videotoolbox == (ffmpeg_path is Some && listed(encoders, "h264_videotoolbox"@)),
        c.h264_nvenc == (ffmpeg_path is Some && listed(encoders, "h264_nvenc"@)),
        c.h264_qsv == (ffmpeg_path is Some && listed(encoders, "h264_qsv"@)),
        c.h264_amf == (ffmpeg_path is Some && listed(encoders, "h264_amf"@)),
        c.libx264 == (ffmpeg_path is Some && listed(encoders, "libx264"@)),
        c.libopus == (ffmpeg_path is Some && listed(encoders, "libopus"@)),
        c.opus == (ffmpeg_path is Some && listed(encoders, " opus "@)),
        c.aac == (ffmpeg_path is Some && (listed(encoders, " AAC "@) || listed(encoders, " aac "@))),
        c.avfoundation == (ffmpeg_path is Some && match devices {
            Some((out, err)) => seq_contains(out@ + err@, audio_input_format(platform)),
            None => false,
        }),
        c.afftdn == (ffmpeg_path is Some && listed(filters, " afftdn "@)),
        c.compressor == (ffmpeg_path is Some && listed(filters, " acompressor "@)),
        c.limiter == (ffmpeg_path is Some && listed(filters, " alimiter "@)),
        c.amix == (ffmpeg_path is Some && listed(filters, " amix "@)),
        !c.h264_videotoolbox_cbr,
{
    let found = ffmpeg_path.is_some();
    let mut c = FfmpegCapabilities {
        ffmpeg_path,
        ffprobe_path,
        version: None,
        h264_videotoolbox: false,
        h264_nvenc: false,
        h264_qsv: false,
        h264_amf: false,
        h264_videotoolbox_cbr: false,
        libx264: false,
        libopus: false,
        opus: false,
        avfoundation: false,
        aac: false,
        afftdn: false,
        compressor: false,
        limiter: false,
        amix: false,
    };
    if !found {
        return c;
    }
    c.version = match version_output {
        Some(out) => first_line_of(out.as_str()),
        None => None,
    };
    c.h264_videotoolbox = is_listed(&encoders, "h264_videotoolbox");
    c.h264_nvenc = is_listed(&encoders, "h264_nvenc");
    c.h264_qsv = is_listed(&encoders, "h264_qsv");
    c.h264_amf = is_listed(&encoders, "h264_amf");
    c.libx264 = is_listed(&encoders, "libx264");
    c.libopus = is_listed(&encoders, "libopus");
    c.opus = is_listed(&encoders, " opus ");
    c.aac = is_listed(&encoders, " AAC ") || is_listed(&encoders, " aac ");
    c.avfoundation = match devices {
        Some((out, err)) => {
            let all = out.concat(err.as_str());
            contains(all.as_str(), audio_input_format_name(platform))
        },
        None => false,
    };
    c.afftdn = is_listed(&filters, " afftdn ");
    c.compressor = is_listed(&filters, " acompressor ");
    c.limiter = is_listed(&filters, " alimiter ");
    c.amix = is_listed(&filters, " amix ");
    c
}

/// A listed hardware encoder counts only once it has encoded a test frame
/// (an old NVIDIA driver, or an AMD encoder without the GPU, is listed and
/// then fails); `-constant_bit_rate` counts only for a VideoToolbox that
/// accepted it. Each probe result is read only where its encoder is listed.
pub fn confirm_hardware(
    capabilities: FfmpegCapabilities,
    nvenc_encodes: bool,
    qsv_encodes: bool,
    amf_encodes: bool,
    videotoolbox_cbr_encodes: bool,
) -> (c: FfmpegCapabilities)
    ensures
        c.h264_nvenc == (capabilities.h264_nvenc && nvenc_encodes),
        c.h264_qsv == (capabilities.h264_qsv && qsv_encodes),
        c.h264_amf == (capabilities.h264_amf && amf_encodes),
        c.h264_videotoolbox_cbr == (capabilities.h264_videotoolbox && videotoolbox_cbr_encodes),
        c == (FfmpegCapabilities {
            h264_nvenc: c.h264_nvenc,
            h264_qsv: c.h264_qsv,
            h264_amf: c.h264_amf,
            h264_videotoolbox_cbr: c.h264_videotoolbox_cbr,
            ..capabilities
        }),
{
    let mut c = capabilities;
    c.h264_nvenc = c.h264_nvenc && nvenc_encodes;
    c.h264_qsv = c.h264_qsv && qsv_encodes;
    c.h264_amf = c.h264_amf && amf_encodes;
    c.h264_videotoolbox_cbr = c.h264_videotoolbox && videotoolbox_cbr_encodes;
    c
}

/// The H.264 encoder used: hardware first (VideoToolbox, NVENC, Quick Sync,
/// AMF), libx264 last.
pub open spec fn spec_encoder(c: FfmpegCapabilities) -> Option<Seq<char>> {
    if c.h264_videotoolbox {
        Some("h264_videotoolbox"@)
    } else if c.h264_nvenc {
        Some("h264_nvenc"@)
    } else if c.h264_qsv {
        Some("h264_qsv"@)
    } else if c.h264_amf {
        Some("h264_amf"@)
    } else if c.libx264 {
        Some("libx264"@)
    } else {
        None
    }
}

/// The H.264 encoder choice: VideoToolbox first, then NVENC, Quick Sync and
/// AMF, and the software libx264 only when no hardware encoder is there;
/// none only when FFmpeg has no H.264 encoder at all.
pub proof fn law_encoder_preference(c: FfmpegCapabilities)
    ensures
        spec_encoder(c) is None <==> !(c.h264_videotoolbox || c.h264_nvenc || c.h264_qsv
            || c.h264_amf || c.libx264),
        c.h264_videotoolbox ==> spec_encoder(c) == Some("h264_videotoolbox"@),
        (c.h264_videotoolbox || c.h264_nvenc || c.h264_qsv || c.h264_amf) ==> spec_encoder(c)
            != Some("libx264"@),
        spec_encoder(c) == Some("h264_nvenc"@) ==> c.h264_nvenc && !c.h264_videotoolbox,
        spec_encoder(c) == Some("h264_qsv"@) ==> c.h264_qsv && !c.h264_videotoolbox && !c.h264_nvenc,
        spec_encoder(c) == Some("h264_amf"@) ==> c.h264_amf && !c.h264_videotoolbox && !c.h264_nvenc
            && !c.h264_qsv,
        spec_encoder(c) == Some("libx264"@) ==> c.libx264,
{
    reveal_strlit("h264_videotoolbox");
    reveal_strlit("h264_nvenc");
    reveal_strlit("h264_qsv");
    reveal_strlit("h264_amf");
    reveal_strlit("libx264");
    assert("h264_videotoolbox"@.len() == 17);
    assert("h264_nvenc"@.len() == 10);
    assert("h264_qsv"@.len() == 8);
    assert("h264_amf"@.len() == 8);
    assert("libx264"@.len() == 7);
    assert("h264_qsv"@[5] != "h264_amf"@[5]);
}

pub fn select_h264_encoder(capabilities: &FfmpegCapabilities) -> (r: Option<&'static str>)
    ensures
        match r {
            Some(e) => spec_encoder(*capabilities) == Some(e@),
            None => spec_encoder(*capabilities) is None,
        },
{
    if capabilities.h264_videotoolbox {
        Some("h264_videotoolbox")
    } else if capabilities.h264_nvenc {
        Some("h264_nvenc")
    } else if capabilities.h264_qsv {
        Some("h264_qsv")
    } else if capabilities.h264_amf {
        Some("h264_amf")
    } else if capabilities.libx264 {
        Some("libx264")
    } else {
        None
    }
}

/// FFmpeg's capture input for the commentary microphone.
pub open spec fn audio_input_format(p: Platform) -> Seq<char> {
    match p {
        Platform::MacOs => "avfoundation"@,
        Platform::Windows => "dshow"@,
    }
}

pub fn audio_input_format_name(platform: Platform) -> (r: &'static str)
    ensures
        r@ == audio_input_format(platform),
{
    match platform {
        Platform::MacOs => "avfoundation",
        Platform::Windows => "dshow",
    }
}

/// avfoundation addresses devices as ":name"; dshow as "audio=name".
pub open spec fn audio_input(p: Platform, microphone: Seq<char>) -> Seq<char> {
    match p {
        Platform::MacOs => ":"@ + microphone,
        Platform::Windows => "audio="@ + microphone,
    }
}

pub fn audio_input_argument(platform: Platform, microphone: &str) -> (r: String)
    ensures
        r@ == audio_input(platform, microphone@),
{
    match platform {
        Platform::MacOs => String::from_str(":").concat(microphone),
        Platform::Windows => String::from_str("audio=").concat(microphone),
    }
}

/// The encoder options: the encoder's own tuning, then the shared rate
/// control: 6000k constant bitrate, 12000k buffer and a 60-frame (two-second)
/// keyframe interval.
pub open spec fn encoder_args(encoder: Seq<char>, videotoolbox_cbr: bool) -> Seq<Seq<char>> {
    encoder_head(encoder, videotoolbox_cbr) + rate_control_args()
}

/// The encoder's own tuning, before the shared rate control.
pub open spec fn encoder_head(encoder: Seq<char>, videotoolbox_cbr: bool) -> Seq<Seq<char>> {
    if encoder == "h264_videotoolbox"@ {
        seq!["-c:v"@, "h264_videotoolbox"@, "-prio_speed"@, "0"@, "-profile:v"@, "high"@]
            + (if videotoolbox_cbr {
            seq!["-constant_bit_rate"@, "1"@]
        } else {
            seq![]
        }) + seq!["-bf"@, "0"@]
    } else if encoder == "h264_nvenc"@ {
        seq![
            "-c:v"@,
            "h264_nvenc"@,
            "-preset"@,
            "p4"@,
            "-tune"@,
            "ll"@,
            "-rc"@,
            "cbr"@,
            "-profile:v"@,
            "high"@,
            "-bf"@,
            "0"@,
        ]
    } else if encoder == "h264_qsv"@ {
        seq!["-c:v"@, "h264_qsv"@, "-preset"@, "veryfast"@, "-profile:v"@, "high"@, "-bf"@, "0"@]
    } else if encoder == "h264_amf"@ {
        seq![
            "-c:v"@,
            "h264_amf"@,
            "-quality"@,
            "speed"@,
            "-rc"@,
            "cbr"@,
            "-profile:v"@,
            "high"@,
            "-bf"@,
            "0"@,
        ]
    } else {
        seq![
            "-c:v"@,
            "libx264"@,
            "-preset"@,
            "veryfast"@,
            "-profile:v"@,
            "high"@,
            "-bf"@,
            "2"@,
            "-sc_threshold"@,
            "0"@,
            "-x264-params"@,
            "nal-hrd=cbr"@,
        ]
    }
}

pub open spec fn rate_control_args() -> Seq<Seq<char>> {
    seq![
        "-pix_fmt"@,
        "yuv420p"@,
        "-b:v"@,
        "6000k"@,
        "-maxrate"@,
        "6000k"@,
        "-bufsize"@,
        "12000k"@,
        "-g"@,
        "60"@,
        "-keyint_min"@,
        "60"@,
    ]
}

fn push_static(args: &mut Vec<&'static str>, a: &'static str)
    ensures
        final(args).deep_view() == old(args).deep_view().push(a@),
{
    let ghost before = args.deep_view();
    args.push(a);
    assert(args.deep_view() =~= before.push(a@));
}

/// The production encoder options for `encoder`.
pub fn production_encoder_args(encoder: &str, videotoolbox_cbr: bool) -> (args: Vec<&'static str>)
    ensures
        args.deep_view() == encoder_args(encoder@, videotoolbox_cbr),
{
    let mut args: Vec<&'static str> = Vec::new();
    push_static(&mut args, "-c:v");
    if eq_str(encoder, "h264_videotoolbox") {
        push_static(&mut args, "h264_videotoolbox");
        push_static(&mut args, "-prio_speed");
        push_static(&mut args, "0");
        push_static(&mut args, "-profile:v");
        push_static(&mut args, "high");
        if videotoolbox_cbr {
            push_static(&mut args, "-constant_bit_rate");
            push_static(&mut args, "1");
        }
        push_static(&mut args, "-bf");
        push_static(&mut args, "0");
    } else if eq_str(encoder, "h264_nvenc") {
        push_static(&mut args, "h264_nvenc");
        push_static(&mut args, "-preset");
        push_static(&mut args, "p4");
        push_static(&mut args, "-tune");
        push_static(&mut args, "ll");
        push_static(&mut args, "-rc");
        push_static(&mut args, "cbr");
        push_static(&mut args, "-profile:v");
        push_static(&mut args, "high");
        push_static(&mut args, "-bf");
        push_static(&mut args, "0");
    } else if eq_str(encoder, "h264_qsv") {
        push_static(&mut args, "h264_qsv");
        push_static(&mut args, "-preset");
        push_static(&mut args, "veryfast");
        push_static(&mut args, "-profile:v");
        push_static(&mut args, "high");
        push_static(&mut args, "-bf");
        push_static(&mut args, "0");
    } else if eq_str(encoder, "h264_amf") {
        push_static(&mut args, "h264_amf");
        push_static(&mut args, "-quality");
        push_static(&mut args, "speed");
        push_static(&mut args, "-rc");
        push_static(&mut args, "cbr");
        push_static(&mut args, "-profile:v");
        push_static(&mut args, "high");
        push_static(&mut args, "-bf");
        push_static(&mut args, "0");
    } else {
        push_static(&mut args, "libx264");
        push_static(&mut args, "-preset");
        push_static(&mut args, "veryfast");
        push_static(&mut args, "-profile:v");
        push_static(&mut args, "high");
        push_static(&mut args, "-bf");
        push_static(&mut args, "2");
        push_static(&mut args, "-sc_threshold");
        push_static(&mut args, "0");
        push_static(&mut args, "-x264-params");
        push_static(&mut args, "nal-hrd=cbr");
    }
    push_static(&mut args, "-pix_fmt");
    push_static(&mut args, "yuv420p");
    push_static(&mut args, "-b:v");
    push_static(&mut args, "6000k");
    push_static(&mut args, "-maxrate");
    push_static(&mut args, "6000k");
    push_static(&mut args, "-bufsize");
    push_static(&mut args, "12000k");
    push_static(&mut args, "-g");
    push_static(&mut args, "60");
    push_static(&mut args, "-keyint_min");
    push_static(&mut args, "60");
    assert(args.deep_view() =~= encoder_args(encoder@, videotoolbox_cbr));
    args
}

/// The picture filter of the production encode at 30 fps. `Fit` keeps the
/// whole picture and fills the rest of the canvas with a blurred, darkened
/// copy (blurred at a quarter of the size); `Fill` crops to the canvas.
pub open spec fn video_filter(layout: OutputLayout, fit_mode: FitMode) -> Seq<char> {
    let (w, h) = spec_canvas(layout);
    let ws = decimal(w as nat);
    let hs = decimal(h as nat);
    match fit_mode {
        FitMode::Fit => {
            let sw = decimal((w / 4) as nat);
            let sh = decimal((h / 4) as nat);
            "fps=30,split=2[bgsrc][fgsrc];[bgsrc]scale="@ + sw + ":"@ + sh
                + ":force_original_aspect_ratio=increase,crop="@ + sw + ":"@ + sh
                + ",gblur=sigma=14:steps=2,colorlevels=romax=0.73:gomax=0.73:bomax=0.73,scale="@
                + ws + ":"@ + hs + ":flags=bicubic[bg];[fgsrc]scale="@ + ws + ":"@ + hs
                + ":force_original_aspect_ratio=decrease:force_divisible_by=2:flags=lanczos[fg];[bg][fg]overlay=(W-w)/2:(H-h)/2:shortest=1,format=yuv420p"@
        },
        FitMode::Fill => "fps=30,scale="@ + ws + ":"@ + hs
            + ":force_original_aspect_ratio=increase:flags=lanczos,crop="@ + ws + ":"@ + hs
            + ",format=yuv420p"@,
    }
}

pub fn production_video_filter(layout: OutputLayout, fit_mode: FitMode) -> (f: String)
    ensures
        f@ == video_filter(layout, fit_mode),
{
    let (width, height) = layout.canvas();
    let ws = u64_to_string(width as u64);
    let hs = u64_to_string(height as u64);
    match fit_mode {
        FitMode::Fit => {
            let sw = u64_to_string((width / 4) as u64);
            let sh = u64_to_string((height / 4) as u64);
            String::from_str("fps=30,split=2[bgsrc][fgsrc];[bgsrc]scale=").concat(sw.as_str()).concat(
                ":",
            ).concat(sh.as_str()).concat(":force_original_aspect_ratio=increase,crop=").concat(
                sw.as_str(),
            ).concat(":").concat(sh.as_str()).concat(
                ",gblur=sigma=14:steps=2,colorlevels=romax=0.73:gomax=0.73:bomax=0.73,scale=",
            ).concat(ws.as_str()).concat(":").concat(hs.as_str()).concat(
                ":flags=bicubic[bg];[fgsrc]scale=",
            ).concat(ws.as_str()).concat(":").concat(hs.as_str()).concat(
                ":force_original_aspect_ratio=decrease:force_divisible_by=2:flags=lanczos[fg];[bg][fg]overlay=(W-w)/2:(H-h)/2:shortest=1,format=yuv420p",
            )
        },
        FitMode::Fill => {
            String::from_str("fps=30,scale=").concat(ws.as_str()).concat(":").concat(
                hs.as_str(),
            ).concat(":force_original_aspect_ratio=increase:flags=lanczos,crop=").concat(
                ws.as_str(),
            ).concat(":").concat(hs.as_str()).concat(",format=yuv420p")
        },
    }
}

/// Appends literal arguments to an argument list.
pub fn push_all(args: &mut Vec<String>, more: Vec<&'static str>)
    ensures
        final(args).deep_view() == old(args).deep_view() + more.deep_view(),
{
    let ghost before = args.deep_view();
    let mut i: usize = 0;
    while i < more.len()
        invariant
            i <= more@.len(),
            args.deep_view() == before + more.deep_view().subrange(0, i as int),
        decreases more@.len() - i,
    {
        push_arg(args, more[i]);
        assert(more.deep_view().subrange(0, i + 1) =~= more.deep_view().subrange(0, i as int).push(
            more[i as int]@,
        ));
        i = i + 1;
    }
    assert(more.deep_view().subrange(0, i as int) =~= more.deep_view());
}

/// The settings of the native production encode, as the user chose them.
#[derive(Debug, Clone)]
pub struct NativeProductionSettings {
    pub layout: OutputLayout,
    pub fit_mode: FitMode,
    pub microphone: Option<String>,
    pub microphone_muted: bool,
    /// The microphone gain in dB, as FFmpeg's `volume` filter reads it.
    pub microphone_volume: MicrophoneVolume,
    pub microphone_sync_ms: u32,
    pub noise_suppression: bool,
    pub compressor: bool,
    pub limiter: bool,
}

/// The commentary microphone's filter chain: resampled to 48 kHz, then the
/// chosen noise suppression and compression, the sync delay on both
/// channels, the gain (-90 dB when muted) and the limiter.
pub open spec fn mic_chain(s: NativeProductionSettings) -> Seq<char> {
    "aresample=48000"@ + noise_part(s) + compressor_part(s) + delay_part(s) + volume_part(s)
        + limiter_part(s)
}

pub open spec fn noise_part(s: NativeProductionSettings) -> Seq<char> {
    if s.noise_suppression {
        ",afftdn=nr=12:nf=-50"@
    } else {
        Seq::<char>::empty()
    }
}

pub open spec fn compressor_part(s: NativeProductionSettings) -> Seq<char> {
    if s.compressor {
        ",acompressor=threshold=0.125:ratio=3:attack=20:release=250"@
    } else {
        Seq::<char>::empty()
    }
}

pub open spec fn delay_part(s: NativeProductionSettings) -> Seq<char> {
    if s.microphone_sync_ms > 0 {
        ",adelay="@ + decimal(s.microphone_sync_ms as nat) + "|"@ + decimal(
            s.microphone_sync_ms as nat,
        )
    } else {
        Seq::<char>::empty()
    }
}

pub open spec fn volume_part(s: NativeProductionSettings) -> Seq<char> {
    ",volume="@ + (if s.microphone_muted {
        "-90"@
    } else {
        s.microphone_volume.text@
    }) + "dB"@
}

pub open spec fn limiter_part(s: NativeProductionSettings) -> Seq<char> {
    if s.limiter {
        ",alimiter=limit=0.95"@
    } else {
        Seq::<char>::empty()
    }
}

/// Enabling noise suppression adds exactly `afftdn` to the microphone chain,
/// right after the resampling; disabled, it adds nothing.
pub proof fn law_mic_noise_suppression(s: NativeProductionSettings)
    ensures
        ({
            let on = NativeProductionSettings { noise_suppression: true, ..s };
            let off = NativeProductionSettings { noise_suppression: false, ..s };
            let k = "aresample=48000"@.len() as int;
            mic_chain(on) == mic_chain(off).subrange(0, k) + ",afftdn=nr=12:nf=-50"@ + mic_chain(
                off,
            ).subrange(k, mic_chain(off).len() as int)
        }),
{
    let on = NativeProductionSettings { noise_suppression: true, ..s };
    let off = NativeProductionSettings { noise_suppression: false, ..s };
    let a = "aresample=48000"@;
    let tail = compressor_part(s) + delay_part(s) + volume_part(s) + limiter_part(s);
    assert(mic_chain(off) =~= a + tail);
    assert(mic_chain(on) =~= a + ",afftdn=nr=12:nf=-50"@ + tail);
    assert(mic_chain(off).subrange(0, a.len() as int) =~= a);
    assert(mic_chain(off).subrange(a.len() as int, mic_chain(off).len() as int) =~= tail);
}

/// Enabling the compressor adds exactly `acompressor` to the microphone
/// chain, after the noise suppression; disabled, it adds nothing.
pub proof fn law_mic_compressor(s: NativeProductionSettings)
    ensures
        ({
            let on = NativeProductionSettings { compressor: true, ..s };
            let off = NativeProductionSettings { compressor: false, ..s };
            let k = "aresample=48000"@.len() + if s.noise_suppression {
                ",afftdn=nr=12:nf=-50"@.len() as int
            } else {
                0int
            };
            mic_chain(on) == mic_chain(off).subrange(0, k)
                + ",acompressor=threshold=0.125:ratio=3:attack=20:release=250"@ + mic_chain(
                off,
            ).subrange(k, mic_chain(off).len() as int)
        }),
{
    let on = NativeProductionSettings { compressor: true, ..s };
    let off = NativeProductionSettings { compressor: false, ..s };
    let head = "aresample=48000"@ + noise_part(s);
    let tail = delay_part(s) + volume_part(s) + limiter_part(s);
    assert(mic_chain(off) =~= head + tail);
    assert(mic_chain(on) =~= head + ",acompressor=threshold=0.125:ratio=3:attack=20:release=250"@
        + tail);
    assert(mic_chain(off).subrange(0, head.len() as int) =~= head);
    assert(mic_chain(off).subrange(head.len() as int, mic_chain(off).len() as int) =~= tail);
}

/// Enabling the limiter adds exactly `alimiter` at the end of the microphone
/// chain; disabled, it adds nothing.
pub proof fn law_mic_limiter(s: NativeProductionSettings)
    ensures
        mic_chain(NativeProductionSettings { limiter: true, ..s }) == mic_chain(
            NativeProductionSettings { limiter: false, ..s },
        ) + ",alimiter=limit=0.95"@,
{
    let head = "aresample=48000"@ + noise_part(s) + compressor_part(s) + delay_part(s)
        + volume_part(s);
    assert(mic_chain(NativeProductionSettings { limiter: false, ..s }) =~= head);
    assert(mic_chain(NativeProductionSettings { limiter: true, ..s }) =~= head
        + ",alimiter=limit=0.95"@);
}

/// With the compressor enabled, the microphone chain holds the `acompressor`
/// filter.
pub proof fn law_mic_compressor_present(s: NativeProductionSettings)
    requires
        s.compressor,
    ensures
        exists|i: int|
            0 <= i && i + ",acompressor=threshold=0.125:ratio=3:attack=20:release=250"@.len()
                <= mic_chain(s).len() && #[trigger] mic_chain(s).subrange(
                i,
                i + ",acompressor=threshold=0.125:ratio=3:attack=20:release=250"@.len(),
            ) == ",acompressor=threshold=0.125:ratio=3:attack=20:release=250"@,
{
    let cp = ",acompressor=threshold=0.125:ratio=3:attack=20:release=250"@;
    let head = "aresample=48000"@ + noise_part(s);
    let tail = delay_part(s) + volume_part(s) + limiter_part(s);
    let i = head.len() as int;
    assert(mic_chain(s) =~= head + cp + tail);
    assert(mic_chain(s).subrange(i, i + cp.len()) =~= cp);
}

/// Why the production encode cannot start with these settings and this
/// FFmpeg, checked in this order, or `None`.
pub open spec fn production_problem(
    s: NativeProductionSettings,
    c: FfmpegCapabilities,
    platform: Platform,
) -> Option<(ErrorKind, Seq<char>)> {
    if !s.microphone_volume.in_range {
        Some((ErrorKind::Validation, "Microphone volume must be between -60 dB and +12 dB"@))
    } else if c.ffmpeg_path is None {
        Some((ErrorKind::Ffmpeg, "FFmpeg is unavailable"@))
    } else if !c.aac {
        Some((ErrorKind::Ffmpeg, "Installed FFmpeg does not provide the AAC encoder"@))
    } else if s.microphone is Some && !c.avfoundation {
        Some(
            (
                ErrorKind::Ffmpeg,
                "This FFmpeg build has no "@ + audio_input_format(platform)
                    + " input device for the microphone"@,
            ),
        )
    } else if s.microphone is Some && (!c.amix || (s.noise_suppression && !c.afftdn) || (
    s.compressor && !c.compressor) || (s.limiter && !c.limiter)) {
        Some((ErrorKind::Ffmpeg, "Installed FFmpeg is missing a selected commentary audio filter"@))
    } else if spec_encoder(c) is None {
        Some((ErrorKind::Ffmpeg, "No production H.264 encoder is available"@))
    } else {
        None
    }
}

/// The production encode starts only when the microphone volume is in
/// range, FFmpeg and its AAC encoder are there, an H.264 encoder is there,
/// and, with a microphone, the input device and every selected filter.
pub proof fn law_production_ready(s: NativeProductionSettings, c: FfmpegCapabilities, platform: Platform)
    ensures
        production_problem(s, c, platform) is None <==> (s.microphone_volume.in_range
            && c.ffmpeg_path is Some && c.aac && spec_encoder(c) is Some && (s.microphone is Some
            ==> (c.avfoundation && c.amix && (s.noise_suppression ==> c.afftdn) && (s.compressor
            ==> c.compressor) && (s.limiter ==> c.limiter)))),
        !s.microphone_volume.in_range ==> production_problem(s, c, platform) == Some(
            (ErrorKind::Validation, "Microphone volume must be between -60 dB and +12 dB"@),
        ),
{
}

/// The inputs after the drone feed: the microphone, else generated silence
/// where the drone sends no audio.
pub open spec fn production_audio_inputs(
    s: NativeProductionSettings,
    has_drone_audio: bool,
    platform: Platform,
) -> Seq<Seq<char>> {
    match s.microphone {
        Some(m) => seq![
            "-thread_queue_size"@,
            "1024"@,
            "-f"@,
            audio_input_format(platform),
            "-i"@,
            audio_input(platform, m@),
        ],
        None => if has_drone_audio {
            seq![]
        } else {
            seq!["-f"@, "lavfi"@, "-i"@, "anullsrc=channel_layout=stereo:sample_rate=48000"@]
        },
    }
}

/// Which audio is encoded: the microphone chain, mixed with the drone's
/// audio where there is any; else the drone's audio; else the silence.
pub open spec fn production_audio_map(s: NativeProductionSettings, has_drone_audio: bool) -> Seq<
    Seq<char>,
> {
    if s.microphone is Some {
        let graph = if has_drone_audio {
            "[0:a:0]aresample=48000[drone];[1:a:0]"@ + mic_chain(s)
                + "[mic];[drone][mic]amix=inputs=2:duration=longest:dropout_transition=2[aout]"@
        } else {
            "[1:a:0]"@ + mic_chain(s) + "[aout]"@
        };
        seq!["-filter_complex"@, graph, "-map"@, "[aout]"@]
    } else if has_drone_audio {
        seq!["-map"@, "0:a:0"@]
    } else {
        seq!["-map"@, "1:a:0"@]
    }
}

/// The whole production command line: the drone feed from MediaMTX, the
/// audio inputs, the picture filter, the audio choice, the encoder options
/// and AAC audio out to MediaMTX's `production` path.
pub open spec fn production_args(
    s: NativeProductionSettings,
    c: FfmpegCapabilities,
    has_drone_audio: bool,
    platform: Platform,
    encoder: Seq<char>,
) -> Seq<Seq<char>> {
    seq![
        "-hide_banner"@,
        "-loglevel"@,
        "warning"@,
        "-thread_queue_size"@,
        "4096"@,
        "-rtsp_transport"@,
        "tcp"@,
        "-i"@,
        "rtsp://127.0.0.1:8554/drone"@,
    ] + production_audio_inputs(s, has_drone_audio, platform) + seq![
        "-map"@,
        "0:v:0"@,
        "-vf"@,
        video_filter(s.layout, s.fit_mode),
    ] + production_audio_map(s, has_drone_audio) + encoder_args(encoder, c.h264_videotoolbox_cbr)
        + seq![
        "-c:a"@,
        "aac"@,
        "-b:a"@,
        "160k"@,
        "-ar"@,
        "48000"@,
        "-ac"@,
        "2"@,
        "-f"@,
        "rtsp"@,
        "-rtsp_transport"@,
        "tcp"@,
        "rtsp://127.0.0.1:8554/production"@,
    ]
}

fn build_mic_chain(settings: &NativeProductionSettings) -> (chain: String)
    ensures
        chain@ == mic_chain(*settings),
{
    let noise = if settings.noise_suppression {
        ",afftdn=nr=12:nf=-50"
    } else {
        ""
    };
    let compressor = if settings.compressor {
        ",acompressor=threshold=0.125:ratio=3:attack=20:release=250"
    } else {
        ""
    };
    let delay = if settings.microphone_sync_ms > 0 {
        let ms = u64_to_string(settings.microphone_sync_ms as u64);
        String::from_str(",adelay=").concat(ms.as_str()).concat("|").concat(ms.as_str())
    } else {
        String::new()
    };
    let gain = if settings.microphone_muted {
        "-90"
    } else {
        settings.microphone_volume.text.as_str()
    };
    let volume = String::from_str(",volume=").concat(gain).concat("dB");
    let limiter = if settings.limiter {
        ",alimiter=limit=0.95"
    } else {
        ""
    };
    proof {
        reveal_strlit("");
    }
    assert(noise@ == noise_part(*settings));
    assert(compressor@ == compressor_part(*settings));
    assert(delay@ == delay_part(*settings));
    assert(volume@ == volume_part(*settings));
    assert(limiter@ == limiter_part(*settings));
    String::from_str("aresample=48000").concat(noise).concat(compressor).concat(
        delay.as_str(),
    ).concat(volume.as_str()).concat(limiter)
}

fn ffmpeg_error(detail: &str) -> (e: BridgeError)
    ensures
        e@ == (ErrorKind::Ffmpeg, detail@),
{
    BridgeError::Ffmpeg(String::from_str(detail))
}

/// Appends owned arguments to an argument list.
pub fn append_args(args: &mut Vec<String>, more: Vec<String>)
    ensures
        final(args).deep_view() == old(args).deep_view() + more.deep_view(),
{
    let ghost before = args.deep_view();
    let ghost added = more.deep_view();
    let mut more = more;
    let mut rest: Vec<String> = Vec::new();
    while more.len() > 0
        invariant
            more.deep_view() + rest.deep_view().reverse() == added,
        decreases more@.len(),
    {
        let ghost m = more.deep_view();
        let ghost r = rest.deep_view();
        let last = more.pop().unwrap();
        let ghost l = last@;
        rest.push(last);
        assert(more.deep_view() =~= m.drop_last());
        assert(rest.deep_view() =~= r.push(l));
        assert(rest.deep_view().reverse() =~= seq![l] + r.reverse());
        assert(more.deep_view() + rest.deep_view().reverse() =~= m + r.reverse());
    }
    assert(rest.deep_view().reverse() =~= added);
    while rest.len() > 0
        invariant
            args.deep_view() + rest.deep_view().reverse() == before + added,
        decreases rest@.len(),
    {
        let ghost a = args.deep_view();
        let ghost r = rest.deep_view();
        let next = rest.pop().unwrap();
        let ghost n = next@;
        args.push(next);
        assert(args.deep_view() =~= a.push(n));
        assert(rest.deep_view() =~= r.drop_last());
        assert(r.reverse() =~= seq![n] + rest.deep_view().reverse());
        assert(args.deep_view() + rest.deep_view().reverse() =~= a + r.reverse());
    }
    assert(args.deep_view() =~= args.deep_view() + rest.deep_view().reverse());
}

fn audio_inputs_vec(settings: &NativeProductionSettings, has_drone_audio: bool, platform: Platform) -> (args: Vec<String>)
    ensures
        args.deep_view() == production_audio_inputs(*settings, has_drone_audio, platform),
{
    let mut args: Vec<String> = Vec::new();
    match &settings.microphone {
        Some(microphone) => {
            push_all(&mut args, vec!["-thread_queue_size", "1024", "-f"]);
            push_arg(&mut args, audio_input_format_name(platform));
            push_arg(&mut args, "-i");
            push_owned(&mut args, audio_input_argument(platform, microphone.as_str()));
        },
        None => {
            if !has_drone_audio {
                push_all(
                    &mut args,
                    vec!["-f", "lavfi", "-i", "anullsrc=channel_layout=stereo:sample_rate=48000"],
                );
            }
        },
    }
    assert(args.deep_view() =~= production_audio_inputs(*settings, has_drone_audio, platform));
    args
}

fn audio_map_vec(settings: &NativeProductionSettings, has_drone_audio: bool) -> (args: Vec<String>)
    ensures
        args.deep_view() == production_audio_map(*settings, has_drone_audio),
{
    let mut args: Vec<String> = Vec::new();
    if settings.microphone.is_some() {
        let chain = build_mic_chain(settings);
        let graph = if has_drone_audio {
            String::from_str("[0:a:0]aresample=48000[drone];[1:a:0]").concat(chain.as_str()).concat(
                "[mic];[drone][mic]amix=inputs=2:duration=longest:dropout_transition=2[aout]",
            )
        } else {
            String::from_str("[1:a:0]").concat(chain.as_str()).concat("[aout]")
        };
        push_arg(&mut args, "-filter_complex");
        push_owned(&mut args, graph);
        push_all(&mut args, vec!["-map", "[aout]"]);
    } else if has_drone_audio {
        push_all(&mut args, vec!["-map", "0:a:0"]);
    } else {
        push_all(&mut args, vec!["-map", "1:a:0"]);
    }
    assert(args.deep_view() =~= production_audio_map(*settings, has_drone_audio));
    args
}

fn production_args_vec(
    settings: &NativeProductionSettings,
    capabilities: &FfmpegCapabilities,
    has_drone_audio: bool,
    platform: Platform,
    encoder: &'static str,
) -> (args: Vec<String>)
    ensures
        args.deep_view() == production_args(
            *settings,
            *capabilities,
            has_drone_audio,
            platform,
            encoder@,
        ),
{
    let mut args: Vec<String> = Vec::new();
    push_all(
        &mut args,
        vec![
            "-hide_banner",
            "-loglevel",
            "warning",
            "-thread_queue_size",
            "4096",
            "-rtsp_transport",
            "tcp",
            "-i",
            "rtsp://127.0.0.1:8554/drone",
        ],
    );
    append_args(&mut args, audio_inputs_vec(settings, has_drone_audio, platform));
    push_all(&mut args, vec!["-map", "0:v:0", "-vf"]);
    push_owned(&mut args, production_video_filter(settings.layout, settings.fit_mode));
    append_args(&mut args, audio_map_vec(settings, has_drone_audio));
    push_all(&mut args, production_encoder_args(encoder, capabilities.h264_videotoolbox_cbr));
    push_all(
        &mut args,
        vec![
            "-c:a",
            "aac",
            "-b:a",
            "160k",
            "-ar",
            "48000",
            "-ac",
            "2",
            "-f",
            "rtsp",
            "-rtsp_transport",
            "tcp",
            "rtsp://127.0.0.1:8554/production",
        ],
    );
    args
}

/// The first check before the production encode starts, made before FFmpeg
/// is even looked for: the microphone volume lies between -60 dB and +12 dB.
pub fn check_production_volume(settings: &NativeProductionSettings) -> (r: Result<(), BridgeError>)
    ensures
        r is Ok <==> settings.microphone_volume.in_range,
        r matches Err(e) ==> e@ == (
            ErrorKind::Validation,
            "Microphone volume must be between -60 dB and +12 dB"@,
        ),
{
    if !settings.microphone_volume.in_range {
        return Err(
            BridgeError::Validation(
                String::from_str("Microphone volume must be between -60 dB and +12 dB"),
            ),
        );
    }
    Ok(())
}

/// The production encode to start: the FFmpeg process (never restarted:
/// the workflow decides what a lost encode means) and the H.264 encoder
/// chosen. The checks come first, in the order `production_problem` lists.
pub fn production_plan(
    settings: &NativeProductionSettings,
    capabilities: &FfmpegCapabilities,
    has_drone_audio: bool,
    platform: Platform,
) -> (r: Result<(ProcessSpec, &'static str), BridgeError>)
    ensures
        result_matches(r, production_problem(*settings, *capabilities, platform)),
        r matches Ok((spec, encoder)) ==> {
            &&& spec_encoder(*capabilities) == Some(encoder@)
            &&& spec.name@ == "native-production"@
            &&& capabilities.ffmpeg_path matches Some(path) && spec.executable@ == path@
            &&& spec.args.deep_view() == production_args(
                *settings,
                *capabilities,
                has_drone_audio,
                platform,
                encoder@,
            )
            &&& spec.restart_policy == RestartPolicy::Never
        },
{
    check_production_volume(settings)?;
    let ffmpeg = match &capabilities.ffmpeg_path {
        Some(path) => path.clone(),
        None => {
            return Err(ffmpeg_error("FFmpeg is unavailable"));
        },
    };
    if !capabilities.aac {
        return Err(ffmpeg_error("Installed FFmpeg does not provide the AAC encoder"));
    }
    let has_microphone = settings.microphone.is_some();
    if has_microphone && !capabilities.avfoundation {
        let detail = String::from_str("This FFmpeg build has no ").concat(
            audio_input_format_name(platform),
        ).concat(" input device for the microphone");
        return Err(BridgeError::Ffmpeg(detail));
    }
    if has_microphone && (!capabilities.amix || (settings.noise_suppression && !capabilities.afftdn)
        || (settings.compressor && !capabilities.compressor) || (settings.limiter
        && !capabilities.limiter)) {
        return Err(ffmpeg_error("Installed FFmpeg is missing a selected commentary audio filter"));
    }
    let encoder = match select_h264_encoder(capabilities) {
        Some(e) => e,
        None => {
            return Err(ffmpeg_error("No production H.264 encoder is available"));
        },
    };
    let args = production_args_vec(settings, capabilities, has_drone_audio, platform, encoder);
    let spec = ProcessSpec {
        name: String::from_str("native-production"),
        executable: ffmpeg,
        args,
        restart_policy: RestartPolicy::Never,
    };
    Ok((spec, encoder))
}

/// Why the test drone cannot start, checked in this order: no FFmpeg, no
/// H.264 encoder, a path that does not resolve (with the reason), a path
/// that is not a regular file.
pub open spec fn test_drone_problem(
    c: FfmpegCapabilities,
    input: Result<String, String>,
    is_file: bool,
) -> Option<(ErrorKind, Seq<char>)> {
    if c.ffmpeg_path is None {
        Some((ErrorKind::Ffmpeg, "FFmpeg is unavailable"@))
    } else if spec_encoder(c) is None {
        Some((ErrorKind::Ffmpeg, "No H.264 encoder is available for the test video"@))
    } else if input is Err {
        Some((ErrorKind::Validation, "test video: "@ + input->Err_0@))
    } else if !is_file {
        Some((ErrorKind::Validation, "Test Drone input must be a regular video file"@))
    } else {
        None
    }
}

/// The test drone: the clip looped in real time, scaled like the drone's
/// own feed (long side 1280, 30 fps, orientation kept), with the clip's
/// soundtrack or generated silence, published over RTMP where the drone
/// would publish.
pub open spec fn test_drone_args(input: Seq<char>, has_audio: bool, encoder: Seq<char>) -> Seq<
    Seq<char>,
> {
    seq![
        "-hide_banner"@,
        "-loglevel"@,
        "warning"@,
        "-re"@,
        "-stream_loop"@,
        "-1"@,
        "-i"@,
        input,
    ] + (if has_audio {
        seq!["-map"@, "0:v:0"@, "-map"@, "0:a:0"@]
    } else {
        seq![
            "-f"@,
            "lavfi"@,
            "-i"@,
            "anullsrc=channel_layout=stereo:sample_rate=48000"@,
            "-map"@,
            "0:v:0"@,
            "-map"@,
            "1:a:0"@,
        ]
    }) + seq![
        "-vf"@,
        "fps=30,scale='if(gte(iw,ih),min(1280,iw),-2)':'if(gte(iw,ih),-2,min(1280,ih))':flags=lanczos"@,
        "-c:v"@,
        encoder,
    ] + test_drone_tail()
}

pub open spec fn test_drone_tail() -> Seq<Seq<char>> {
    seq![
        "-pix_fmt"@,
        "yuv420p"@,
        "-profile:v"@,
        "high"@,
        "-b:v"@,
        "8000k"@,
        "-maxrate"@,
        "8000k"@,
        "-bufsize"@,
        "16000k"@,
        "-g"@,
        "30"@,
        "-bf"@,
        "0"@,
        "-c:a"@,
        "aac"@,
        "-b:a"@,
        "128k"@,
        "-ar"@,
        "48000"@,
        "-ac"@,
        "2"@,
        "-f"@,
        "flv"@,
        "rtmp://127.0.0.1:1935/drone"@,
    ]
}

/// The test drone to start from a video file: `input` is the file's
/// resolved path or why it did not resolve, `is_file` whether it is a
/// regular file, `has_audio` whether it carries an audio stream.
pub fn test_drone_plan(
    capabilities: &FfmpegCapabilities,
    input: Result<String, String>,
    is_file: bool,
    has_audio: bool,
) -> (r: Result<ProcessSpec, BridgeError>)
    ensures
        result_matches(r, test_drone_problem(*capabilities, input, is_file)),
        r matches Ok(spec) ==> {
            &&& spec.name@ == "test-drone"@
            &&& capabilities.ffmpeg_path matches Some(path) && spec.executable@ == path@
            &&& input matches Ok(path) && spec.args.deep_view() == test_drone_args(
                path@,
                has_audio,
                spec_encoder(*capabilities)->0,
            )
            &&& spec.restart_policy == RestartPolicy::Never
        },
{
    let ffmpeg = match &capabilities.ffmpeg_path {
        Some(path) => path.clone(),
        None => {
            return Err(ffmpeg_error("FFmpeg is unavailable"));
        },
    };
    let encoder = match select_h264_encoder(capabilities) {
        Some(e) => e,
        None => {
            return Err(ffmpeg_error("No H.264 encoder is available for the test video"));
        },
    };
    let input = match input {
        Ok(path) => path,
        Err(reason) => {
            return Err(BridgeError::Validation(String::from_str("test video: ").concat(reason.as_str())));
        },
    };
    if !is_file {
        return Err(
            BridgeError::Validation(String::from_str("Test Drone input must be a regular video file")),
        );
    }
    let mut args: Vec<String> = Vec::new();
    push_all(&mut args, vec!["-hide_banner", "-loglevel", "warning", "-re", "-stream_loop", "-1", "-i"]);
    push_owned(&mut args, input);
    if has_audio {
        push_all(&mut args, vec!["-map", "0:v:0", "-map", "0:a:0"]);
    } else {
        push_all(
            &mut args,
            vec![
                "-f",
                "lavfi",
                "-i",
                "anullsrc=channel_layout=stereo:sample_rate=48000",
                "-map",
                "0:v:0",
                "-map",
                "1:a:0",
            ],
        );
    }
    push_all(
        &mut args,
        vec![
            "-vf",
            "fps=30,scale='if(gte(iw,ih),min(1280,iw),-2)':'if(gte(iw,ih),-2,min(1280,ih))':flags=lanczos",
            "-c:v",
            encoder,
        ],
    );
    push_all(
        &mut args,
        vec![
            "-pix_fmt",
            "yuv420p",
            "-profile:v",
            "high",
            "-b:v",
            "8000k",
            "-maxrate",
            "8000k",
            "-bufsize",
            "16000k",
            "-g",
            "30",
            "-bf",
            "0",
            "-c:a",
            "aac",
            "-b:a",
            "128k",
            "-ar",
            "48000",
            "-ac",
            "2",
            "-f",
            "flv",
            "rtmp://127.0.0.1:1935/drone",
        ],
    );
    Ok(ProcessSpec {
        name: String::from_str("test-drone"),
        executable: ffmpeg,
        args,
        restart_policy: RestartPolicy::Never,
    })
}

/// Why the browser preview cannot start, in this order: no FFmpeg, no Opus
/// encoder (WebRTC needs Opus), no H.264 encoder.
pub open spec fn preview_problem(c: FfmpegCapabilities) -> Option<(ErrorKind, Seq<char>)> {
    if c.ffmpeg_path is None {
        Some((ErrorKind::Ffmpeg, "FFmpeg is unavailable"@))
    } else if !c.libopus && !c.opus {
        Some((ErrorKind::Ffmpeg, "This FFmpeg build has no Opus encoder for the browser preview"@))
    } else if spec_encoder(c) is None {
        Some((ErrorKind::Ffmpeg, "No browser-compatible H.264 encoder is available"@))
    } else {
        None
    }
}

/// The browser preview transcode: baseline H.264 at 3000k with a keyframe
/// every second and Opus audio (libopus, else FFmpeg's own experimental
/// encoder), published to MediaMTX's `drone-preview` path.
pub open spec fn preview_args(c: FfmpegCapabilities, encoder: Seq<char>) -> Seq<Seq<char>> {
    seq![
        "-hide_banner"@,
        "-loglevel"@,
        "warning"@,
        "-rtsp_transport"@,
        "tcp"@,
        "-i"@,
        "rtsp://127.0.0.1:8554/drone"@,
        "-map"@,
        "0:v:0"@,
        "-map"@,
        "0:a:0?"@,
        "-c:v"@,
        encoder,
    ] + (if encoder == "h264_videotoolbox"@ {
        seq!["-realtime"@, "1"@]
    } else {
        seq!["-preset"@, "veryfast"@, "-tune"@, "zerolatency"@]
    }) + seq![
        "-profile:v"@,
        "baseline"@,
        "-pix_fmt"@,
        "yuv420p"@,
        "-b:v"@,
        "3000k"@,
        "-maxrate"@,
        "3000k"@,
        "-bufsize"@,
        "1000k"@,
        "-g"@,
        "30"@,
        "-bf"@,
        "0"@,
    ] + (if c.libopus {
        seq!["-c:a"@, "libopus"@]
    } else {
        seq!["-c:a"@, "opus"@, "-strict"@, "-2"@]
    }) + seq![
        "-b:a"@,
        "96k"@,
        "-ar"@,
        "48000"@,
        "-ac"@,
        "2"@,
        "-f"@,
        "rtsp"@,
        "-rtsp_transport"@,
        "tcp"@,
        "rtsp://127.0.0.1:8554/drone-preview"@,
    ]
}

/// The browser preview transcode to start (restarted when it fails) and the
/// H.264 encoder it uses.
pub fn preview_plan(capabilities: &FfmpegCapabilities) -> (r: Result<(ProcessSpec, &'static str), BridgeError>)
    ensures
        result_matches(r, preview_problem(*capabilities)),
        r matches Ok((spec, encoder)) ==> {
            &&& spec_encoder(*capabilities) == Some(encoder@)
            &&& spec.name@ == "preview-transcode"@
            &&& capabilities.ffmpeg_path matches Some(path) && spec.executable@ == path@
            &&& spec.args.deep_view() == preview_args(*capabilities, encoder@)
            &&& spec.restart_policy == RestartPolicy::OnFailure
        },
{
    let ffmpeg = match &capabilities.ffmpeg_path {
        Some(path) => path.clone(),
        None => {
            return Err(ffmpeg_error("FFmpeg is unavailable"));
        },
    };
    if !capabilities.libopus && !capabilities.opus {
        return Err(ffmpeg_error("This FFmpeg build has no Opus encoder for the browser preview"));
    }
    let encoder = match select_h264_encoder(capabilities) {
        Some(e) => e,
        None => {
            return Err(ffmpeg_error("No browser-compatible H.264 encoder is available"));
        },
    };
    let mut args: Vec<String> = Vec::new();
    push_all(
        &mut args,
        vec![
            "-hide_banner",
            "-loglevel",
            "warning",
            "-rtsp_transport",
            "tcp",
            "-i",
            "rtsp://127.0.0.1:8554/drone",
            "-map",
            "0:v:0",
            "-map",
            "0:a:0?",
            "-c:v",
            encoder,
        ],
    );
    if eq_str(encoder, "h264_videotoolbox") {
        push_all(&mut args, vec!["-realtime", "1"]);
    } else {
        push_all(&mut args, vec!["-preset", "veryfast", "-tune", "zerolatency"]);
    }
    push_all(
        &mut args,
        vec![
            "-profile:v",
            "baseline",
            "-pix_fmt",
            "yuv420p",
            "-b:v",
            "3000k",
            "-maxrate",
            "3000k",
            "-bufsize",
            "1000k",
            "-g",
            "30",
            "-bf",
            "0",
        ],
    );
    if capabilities.libopus {
        push_all(&mut args, vec!["-c:a", "libopus"]);
    } else {
        push_all(&mut args, vec!["-c:a", "opus", "-strict", "-2"]);
    }
    push_all(
        &mut args,
        vec![
            "-b:a",
            "96k",
            "-ar",
            "48000",
            "-ac",
            "2",
            "-f",
            "rtsp",
            "-rtsp_transport",
            "tcp",
            "rtsp://127.0.0.1:8554/drone-preview",
        ],
    );
    Ok(
        (
            ProcessSpec {
                name: String::from_str("preview-transcode"),
                executable: ffmpeg,
                args,
                restart_policy: RestartPolicy::OnFailure,
            },
            encoder,
        ),
    )
}

/// The filter that turns the drone stream into the virtual camera's
/// frames: the whole picture, letterboxed onto the camera's canvas, NV12.
/// Both platforms use the same geometry.
pub open spec fn camera_filter(width: u32, height: u32, fps: u32) -> Seq<char> {
    "fps="@ + decimal(fps as nat) + ",scale=w="@ + decimal(width as nat) + ":h="@ + decimal(
        height as nat,
    ) + ":force_original_aspect_ratio=decrease,pad="@ + decimal(width as nat) + ":"@ + decimal(
        height as nat,
    ) + ":(ow-iw)/2:(oh-ih)/2,format=nv12"@
}

pub fn virtual_camera_filter(width: u32, height: u32, fps: u32) -> (f: String)
    ensures
        f@ == camera_filter(width, height, fps),
{
    let w = u64_to_string(width as u64);
    let h = u64_to_string(height as u64);
    let r = u64_to_string(fps as u64);
    String::from_str("fps=").concat(r.as_str()).concat(",scale=w=").concat(w.as_str()).concat(
        ":h=",
    ).concat(h.as_str()).concat(":force_original_aspect_ratio=decrease,pad=").concat(
        w.as_str(),
    ).concat(":").concat(h.as_str()).concat(":(ow-iw)/2:(oh-ih)/2,format=nv12")
}

/// The Windows camera feed: raw NV12 frames of the camera's size on stdout,
/// which the app copies into the buffer the DirectShow filter reads.
pub open spec fn windows_feed_args() -> Seq<Seq<char>> {
    seq![
        "-hide_banner"@,
        "-loglevel"@,
        "warning"@,
        "-rtsp_transport"@,
        "tcp"@,
        "-i"@,
        "rtsp://127.0.0.1:8554/drone"@,
        "-map"@,
        "0:v:0"@,
        "-an"@,
        "-vf"@,
        camera_filter(FEED_WIDTH, FEED_HEIGHT, FEED_FPS),
        "-pix_fmt"@,
        "nv12"@,
        "-f"@,
        "rawvideo"@,
        "-"@,
    ]
}

pub fn virtual_camera_feed_args() -> (args: Vec<String>)
    ensures
        args.deep_view() == windows_feed_args(),
{
    let filter = virtual_camera_filter(FEED_WIDTH, FEED_HEIGHT, FEED_FPS);
    let mut args: Vec<String> = Vec::new();
    push_all(
        &mut args,
        vec![
            "-hide_banner",
            "-loglevel",
            "warning",
            "-rtsp_transport",
            "tcp",
            "-i",
            "rtsp://127.0.0.1:8554/drone",
            "-map",
            "0:v:0",
            "-an",
            "-vf",
        ],
    );
    push_owned(&mut args, filter);
    push_all(&mut args, vec!["-pix_fmt", "nv12", "-f", "rawvideo", "-"]);
    args
}

/// One stream as ffprobe describes it (`-show_entries stream=...`); an entry
/// is `None` where ffprobe gave none of the expected type.
#[derive(Debug, Clone)]
pub struct ProbedStream {
    pub codec_type: Option<String>,
    pub codec_name: Option<String>,
    pub width: Option<u64>,
    pub height: Option<u64>,
    pub bit_rate: Option<String>,
}

pub open spec fn is_kind(s: ProbedStream, kind: Seq<char>) -> bool {
    s.codec_type matches Some(t) && t@ == kind
}

/// The index of the first stream of `kind` at or after `i`.
pub open spec fn first_kind_from(streams: Seq<ProbedStream>, kind: Seq<char>, i: int) -> Option<int>
    decreases streams.len() - i,
{
    if i < 0 || i >= streams.len() {
        None
    } else if is_kind(streams[i], kind) {
        Some(i)
    } else {
        first_kind_from(streams, kind, i + 1)
    }
}

/// `s.to_uppercase()`: the full Unicode mapping, which `str::to_uppercase`
/// documents by reference to Unicode's tables.
pub uninterp spec fn uppercase(s: Seq<char>) -> Seq<char>;

/// Calls `str::to_uppercase`; the result is `uppercase` of the argument.
#[verifier::external_body]
fn to_uppercase(s: &str) -> (r: String)
    ensures
        r@ == uppercase(s@),
{
    s.to_uppercase()
}

/// The index of the first stream of `kind` ("video", "audio").
pub fn first_stream_of_kind(streams: &Vec<ProbedStream>, kind: &str) -> (r: Option<usize>)
    ensures
        match r {
            Some(i) => first_kind_from(streams@, kind@, 0) == Some(i as int) && i < streams@.len(),
            None => first_kind_from(streams@, kind@, 0) is None,
        },
{
    let mut i: usize = 0;
    while i < streams.len()
        invariant
            i <= streams@.len(),
            first_kind_from(streams@, kind@, 0) == first_kind_from(streams@, kind@, i as int),
        decreases streams@.len() - i,
    {
        let matches = match &streams[i].codec_type {
            Some(t) => eq_str(t.as_str(), kind),
            None => false,
        };
        if matches {
            return Some(i);
        }
        i = i + 1;
    }
    None
}

pub open spec fn stream_resolution(s: ProbedStream) -> Option<Seq<char>> {
    match (s.width, s.height) {
        (Some(w), Some(h)) => Some(decimal(w as nat) + "x"@ + decimal(h as nat)),
        _ => None,
    }
}

pub open spec fn stream_codec(s: ProbedStream) -> Option<Seq<char>> {
    match s.codec_name {
        Some(n) => Some(uppercase(n@)),
        None => None,
    }
}

pub open spec fn stream_bitrate(s: ProbedStream) -> Option<u64> {
    match s.bit_rate {
        Some(b) => parse_u64_spec(b@),
        None => None,
    }
}

/// What ffprobe's description of the drone stream says: the first video
/// stream's size, codec and bitrate, the first audio stream's codec and
/// bitrate; codec names upper-cased. `None` when ffprobe listed no streams.
/// The frame rate, a float, is the caller's.
pub fn stream_metadata(streams: Option<Vec<ProbedStream>>) -> (r: Result<StreamMetadata, BridgeError>)
    ensures
        streams is None ==> (r matches Err(e) && e@ == (
            ErrorKind::Ffmpeg,
            "ffprobe returned no streams"@,
        )),
        streams matches Some(list) ==> (r matches Ok(m) && {
            let video = first_kind_from(list@, "video"@, 0);
            let audio = first_kind_from(list@, "audio"@, 0);
            &&& opt_view(m.resolution) == (match video {
                Some(i) => stream_resolution(list@[i]),
                None => None,
            })
            &&& opt_view(m.video_codec) == (match video {
                Some(i) => stream_codec(list@[i]),
                None => None,
            })
            &&& opt_view(m.audio_codec) == (match audio {
                Some(i) => stream_codec(list@[i]),
                None => None,
            })
            &&& m.video_bitrate_bps == (match video {
                Some(i) => stream_bitrate(list@[i]),
                None => None,
            })
            &&& m.audio_bitrate_bps == (match audio {
                Some(i) => stream_bitrate(list@[i]),
                None => None,
            })
            &&& m.bitrate_calculated_bps is None
            &&& m.received_bytes == 0
            &&& m.uptime_seconds is None
        }),
{
    let streams = match streams {
        Some(list) => list,
        None => {
            return Err(ffmpeg_error("ffprobe returned no streams"));
        },
    };
    let mut m = StreamMetadata::default();
    match first_stream_of_kind(&streams, "video") {
        Some(i) => {
            let video = &streams[i];
            m.resolution = match (video.width, video.height) {
                (Some(w), Some(h)) => Some(
                    u64_to_string(w).concat("x").concat(u64_to_string(h).as_str()),
                ),
                _ => None,
            };
            m.video_codec = match &video.codec_name {
                Some(n) => Some(to_uppercase(n.as_str())),
                None => None,
            };
            m.video_bitrate_bps = match &video.bit_rate {
                Some(b) => parse_u64(b.as_str()),
                None => None,
            };
        },
        None => {},
    }
    match first_stream_of_kind(&streams, "audio") {
        Some(i) => {
            let audio = &streams[i];
            m.audio_codec = match &audio.codec_name {
                Some(n) => Some(to_uppercase(n.as_str())),
                None => None,
            };
            m.audio_bitrate_bps = match &audio.bit_rate {
                Some(b) => parse_u64(b.as_str()),
                None => None,
            };
        },
        None => {},
    }
    Ok(m)
}

/// The error for an ffprobe that failed: its standard error, trimmed.
pub fn ffprobe_failure(stderr: &str) -> (e: BridgeError)
    ensures
        e@ == (ErrorKind::Ffmpeg, trim(stderr@)),
{
    BridgeError::Ffmpeg(trim_str(stderr))
}

/// Whatever the encoder, the production encode ends in the shared rate
/// control: a constant 6000k (`-b:v` equals `-maxrate`) and a keyframe every
/// 60 frames, two seconds at 30 fps.
pub proof fn law_encoder_rate_control(encoder: Seq<char>, videotoolbox_cbr: bool)
    ensures
        ({
            let a = encoder_args(encoder, videotoolbox_cbr);
            let n = a.len() as int;
            &&& n >= 12
            &&& a.subrange(n - 12, n) == rate_control_args()
            &&& a[n - 10] == "-b:v"@ && a[n - 9] == "6000k"@
            &&& a[n - 8] == "-maxrate"@ && a[n - 7] == "6000k"@
            &&& a[n - 4] == "-g"@ && a[n - 3] == "60"@
            &&& a[n - 2] == "-keyint_min"@ && a[n - 1] == "60"@
        }),
{
    let h = encoder_head(encoder, videotoolbox_cbr);
    let a = encoder_args(encoder, videotoolbox_cbr);
    let n = a.len() as int;
    assert(a.subrange(n - 12, n) =~= rate_control_args());
}

proof fn lemma_absent_by_length(a: Seq<Seq<char>>, x: Seq<char>)
    requires
        forall|i: int| 0 <= i < a.len() ==> #[trigger] a[i].len() != x.len(),
    ensures
        !a.contains(x),
{
    if a.contains(x) {
        let i = choose|i: int| 0 <= i < a.len() && a[i] == x;
        assert(a[i].len() == x.len());
    }
}

/// Every encoder runs the H.264 High profile, and `-constant_bit_rate` is
/// passed exactly when VideoToolbox encodes and honours it.
#[verifier::rlimit(50)]
pub proof fn law_encoder_profile(encoder: Seq<char>, videotoolbox_cbr: bool)
    ensures
        exists|i: int|
            0 <= i < encoder_args(encoder, videotoolbox_cbr).len() - 1
                && #[trigger] encoder_args(encoder, videotoolbox_cbr)[i] == "-profile:v"@
                && encoder_args(encoder, videotoolbox_cbr)[i + 1] == "high"@,
        encoder_args(encoder, videotoolbox_cbr).contains("-constant_bit_rate"@) == (encoder
            == "h264_videotoolbox"@ && videotoolbox_cbr),
{
    reveal_strlit("-c:v");
    reveal_strlit("h264_videotoolbox");
    reveal_strlit("-prio_speed");
    reveal_strlit("0");
    reveal_strlit("-profile:v");
    reveal_strlit("high");
    reveal_strlit("-constant_bit_rate");
    reveal_strlit("1");
    reveal_strlit("-bf");
    reveal_strlit("h264_nvenc");
    reveal_strlit("-preset");
    reveal_strlit("p4");
    reveal_strlit("-tune");
    reveal_strlit("ll");
    reveal_strlit("-rc");
    reveal_strlit("cbr");
    reveal_strlit("h264_qsv");
    reveal_strlit("veryfast");
    reveal_strlit("h264_amf");
    reveal_strlit("-quality");
    reveal_strlit("speed");
    reveal_strlit("libx264");
    reveal_strlit("2");
    reveal_strlit("-sc_threshold");
    reveal_strlit("-x264-params");
    reveal_strlit("nal-hrd=cbr");
    reveal_strlit("-pix_fmt");
    reveal_strlit("yuv420p");
    reveal_strlit("-b:v");
    reveal_strlit("6000k");
    reveal_strlit("-maxrate");
    reveal_strlit("-bufsize");
    reveal_strlit("12000k");
    reveal_strlit("-g");
    reveal_strlit("60");
    reveal_strlit("-keyint_min");
    let a = encoder_args(encoder, videotoolbox_cbr);
    if encoder == "h264_videotoolbox"@ {
        assert(a[4] == "-profile:v"@);
        if videotoolbox_cbr {
            assert(a[6] == "-constant_bit_rate"@);
            assert(a.contains("-constant_bit_rate"@));
        } else {
            assert forall|i: int| 0 <= i < a.len() implies #[trigger] a[i].len() != "-constant_bit_rate"@.len() by {}
            lemma_absent_by_length(a, "-constant_bit_rate"@);
        }
    } else {
        if encoder == "h264_nvenc"@ {
            assert(a[8] == "-profile:v"@);
        } else if encoder == "h264_qsv"@ {
            assert(a[4] == "-profile:v"@);
        } else if encoder == "h264_amf"@ {
            assert(a[6] == "-profile:v"@);
        } else {
            assert(a[4] == "-profile:v"@);
        }
        assert forall|i: int| 0 <= i < a.len() implies #[trigger] a[i].len() != "-constant_bit_rate"@.len() by {}
        lemma_absent_by_length(a, "-constant_bit_rate"@);
    }
}


/// The production always has an audio track: without a microphone and
/// without drone audio it encodes generated stereo silence; with a
/// microphone and drone audio it mixes both; with drone audio alone it keeps
/// the drone's.
pub proof fn law_production_audio(s: NativeProductionSettings, has_drone_audio: bool, platform: Platform)
    ensures
        s.microphone is None && !has_drone_audio ==> production_audio_inputs(s, has_drone_audio, platform)[3]
            == "anullsrc=channel_layout=stereo:sample_rate=48000"@ && production_audio_map(s, has_drone_audio)
            == seq!["-map"@, "1:a:0"@],
        s.microphone is None && has_drone_audio ==> production_audio_inputs(s, has_drone_audio, platform).len() == 0
            && production_audio_map(s, has_drone_audio) == seq!["-map"@, "0:a:0"@],
        s.microphone is Some && has_drone_audio ==> production_audio_map(s, has_drone_audio)[1]
            == "[0:a:0]aresample=48000[drone];[1:a:0]"@ + mic_chain(s)
            + "[mic];[drone][mic]amix=inputs=2:duration=longest:dropout_transition=2[aout]"@,
{
}


/// Encoding three frames of a generated colour source with `encoder`, the
/// only way to learn that a listed hardware encoder really works here.
pub open spec fn encode_probe_args(encoder: Seq<char>) -> Seq<Seq<char>> {
    seq![
        "-hide_banner"@,
        "-loglevel"@,
        "error"@,
        "-f"@,
        "lavfi"@,
        "-i"@,
        "color=size=320x240:rate=30"@,
        "-frames:v"@,
        "3"@,
        "-c:v"@,
        encoder,
        "-f"@,
        "null"@,
        "-"@,
    ]
}

pub fn encoder_probe_args(encoder: &str) -> (args: Vec<String>)
    ensures
        args.deep_view() == encode_probe_args(encoder@),
{
    let mut args: Vec<String> = Vec::new();
    push_all(
        &mut args,
        vec![
            "-hide_banner",
            "-loglevel",
            "error",
            "-f",
            "lavfi",
            "-i",
            "color=size=320x240:rate=30",
            "-frames:v",
            "3",
            "-c:v",
        ],
    );
    push_arg(&mut args, encoder);
    push_all(&mut args, vec!["-f", "null", "-"]);
    args
}

/// The VideoToolbox test encode that tells whether `-constant_bit_rate` is
/// accepted on this Mac.
pub open spec fn cbr_probe_args() -> Seq<Seq<char>> {
    encode_probe_args("h264_videotoolbox"@).subrange(0, 11) + seq![
        "-constant_bit_rate"@,
        "1"@,
        "-b:v"@,
        "1M"@,
        "-f"@,
        "null"@,
        "-"@,
    ]
}

pub fn videotoolbox_cbr_probe_args() -> (args: Vec<String>)
    ensures
        args.deep_view() == cbr_probe_args(),
{
    let mut args: Vec<String> = Vec::new();
    push_all(
        &mut args,
        vec![
            "-hide_banner",
            "-loglevel",
            "error",
            "-f",
            "lavfi",
            "-i",
            "color=size=320x240:rate=30",
            "-frames:v",
            "3",
            "-c:v",
            "h264_videotoolbox",
            "-constant_bit_rate",
            "1",
            "-b:v",
            "1M",
            "-f",
            "null",
            "-",
        ],
    );
    assert(args.deep_view() =~= cbr_probe_args());
    args
}

/// The name of an FFmpeg tool's executable file.
pub open spec fn executable_name(name: Seq<char>, platform: Platform) -> Seq<char> {
    match platform {
        Platform::MacOs => name,
        Platform::Windows => name + ".exe"@,
    }
}

pub open spec fn path_separator(platform: Platform) -> char {
    match platform {
        Platform::MacOs => '/',
        Platform::Windows => '\\',
    }
}

/// Where an FFmpeg tool is looked for, in order: next to the app's own
/// executable (the bundled LGPL build), then Homebrew's two prefixes and
/// `/usr/bin`.
pub open spec fn search_paths(exe_dir: Option<Seq<char>>, name: Seq<char>, platform: Platform) -> Seq<Seq<char>> {
    let file = executable_name(name, platform);
    let sep = path_separator(platform);
    let system = seq![
        join_path("/opt/homebrew/bin"@, file, sep),
        join_path("/usr/local/bin"@, file, sep),
        join_path("/usr/bin"@, file, sep),
    ];
    match exe_dir {
        Some(dir) => seq![join_path(dir, file, sep)] + system,
        None => system,
    }
}

pub fn tool_search_paths(exe_dir: Option<&str>, name: &str, platform: Platform) -> (paths: Vec<String>)
    ensures
        paths.deep_view() == search_paths(opt_str_view(exe_dir), name@, platform),
{
    let file = match platform {
        Platform::MacOs => String::from_str(name),
        Platform::Windows => String::from_str(name).concat(".exe"),
    };
    let sep = match platform {
        Platform::MacOs => '/',
        Platform::Windows => '\\',
    };
    let mut paths: Vec<String> = Vec::new();
    match exe_dir {
        Some(dir) => push_owned(&mut paths, join_path_exec(dir, file.as_str(), sep)),
        None => {},
    }
    push_owned(&mut paths, join_path_exec("/opt/homebrew/bin", file.as_str(), sep));
    push_owned(&mut paths, join_path_exec("/usr/local/bin", file.as_str(), sep));
    push_owned(&mut paths, join_path_exec("/usr/bin", file.as_str(), sep));
    assert(paths.deep_view() =~= search_paths(opt_str_view(exe_dir), name@, platform));
    paths
}

pub open spec fn opt_str_view(s: Option<&str>) -> Option<Seq<char>> {
    match s {
        Some(t) => Some(t@),
        None => None,
    }
}

/// The first index at or after `i` where `present` holds.
pub open spec fn first_present(present: Seq<bool>, i: int) -> Option<int>
    decreases present.len() - i,
{
    if i < 0 || i >= present.len() {
        None
    } else if present[i] {
        Some(i)
    } else {
        first_present(present, i + 1)
    }
}

/// The first candidate that is a file (`is_file[i]` tells for candidate `i`).
pub fn first_existing(candidates: Vec<String>, is_file: &Vec<bool>) -> (r: Option<String>)
    requires
        candidates@.len() == is_file@.len(),
    ensures
        match first_present(is_file@, 0) {
            Some(i) => r matches Some(p) && p@ == candidates@[i]@,
            None => r is None,
        },
{
    let mut i: usize = 0;
    while i < is_file.len()
        invariant
            i <= is_file@.len(),
            candidates@.len() == is_file@.len(),
            first_present(is_file@, 0) == first_present(is_file@, i as int),
        decreases is_file@.len() - i,
    {
        if is_file[i] {
            return Some(candidates[i].clone());
        }
        i = i + 1;
    }
    None
}

/// What `brew install ffmpeg` runs: Homebrew's binary, or the error when it
/// was not found.
pub fn brew_install_plan(brew: Option<&'static str>) -> (r: Result<(&'static str, Vec<&'static str>), BridgeError>)
    ensures
        brew is None ==> (r matches Err(e) && e@ == (
            ErrorKind::Ffmpeg,
            "Homebrew was not found. Install Homebrew from brew.sh, then try again."@,
        )),
        brew matches Some(b) ==> (r matches Ok(plan) && plan.0@ == b@ && plan.1@.map_values(
            |a: &str| a@,
        ) == seq!["install"@, "ffmpeg"@]),
{
    match brew {
        Some(b) => {
            let args = vec!["install", "ffmpeg"];
            assert(args@.map_values(|a: &str| a@) =~= seq!["install"@, "ffmpeg"@]);
            Ok((b, args))
        },
        None => Err(
            BridgeError::Ffmpeg(
                String::from_str(
                    "Homebrew was not found. Install Homebrew from brew.sh, then try again.",
                ),
            ),
        ),
    }
}

/// The environment `brew install` runs with: no auto-update, no analytics,
/// no hints.
pub fn brew_environment() -> (env: Vec<(&'static str, &'static str)>)
    ensures
        env@.map_values(|kv: (&str, &str)| (kv.0@, kv.1@)) == seq![
            ("HOMEBREW_NO_AUTO_UPDATE"@, "1"@),
            ("HOMEBREW_NO_ANALYTICS"@, "1"@),
            ("HOMEBREW_NO_ENV_HINTS"@, "1"@),
        ],
{
    let env = vec![
        ("HOMEBREW_NO_AUTO_UPDATE", "1"),
        ("HOMEBREW_NO_ANALYTICS", "1"),
        ("HOMEBREW_NO_ENV_HINTS", "1"),
    ];
    assert(env@.map_values(|kv: (&str, &str)| (kv.0@, kv.1@)) =~= seq![
        ("HOMEBREW_NO_AUTO_UPDATE"@, "1"@),
        ("HOMEBREW_NO_ANALYTICS"@, "1"@),
        ("HOMEBREW_NO_ENV_HINTS"@, "1"@),
    ]);
    env
}

/// How a finished `brew install ffmpeg` ends: its failure with the exit
/// status, or an FFmpeg still missing, or success.
pub fn brew_install_outcome(succeeded: bool, status: &str, ffmpeg_found: bool) -> (r: Result<(), BridgeError>)
    ensures
        !succeeded ==> (r matches Err(e) && e@ == (
            ErrorKind::Ffmpeg,
            "Homebrew could not install FFmpeg ("@ + status@ + "). See the log above."@,
        )),
        succeeded && !ffmpeg_found ==> (r matches Err(e) && e@ == (
            ErrorKind::Ffmpeg,
            "Homebrew finished but FFmpeg is still not in /opt/homebrew/bin or /usr/local/bin."@,
        )),
        succeeded && ffmpeg_found ==> r is Ok,
{
    if !succeeded {
        return Err(
            BridgeError::Ffmpeg(
                String::from_str("Homebrew could not install FFmpeg (").concat(status).concat(
                    "). See the log above.",
                ),
            ),
        );
    }
    if !ffmpeg_found {
        return Err(
            BridgeError::Ffmpeg(
                String::from_str(
                    "Homebrew finished but FFmpeg is still not in /opt/homebrew/bin or /usr/local/bin.",
                ),
            ),
        );
    }
    Ok(())
}

/// `u8::is_ascii_whitespace`.
pub open spec fn is_ascii_ws(b: u8) -> bool {
    b == 32 || b == 9 || b == 10 || b == 12 || b == 13
}

/// The arguments that make `ffprobe` list a file's audio streams, one index
/// per line.
pub open spec fn audio_probe_args(input: Seq<char>) -> Seq<Seq<char>> {
    seq![
        "-v"@,
        "error"@,
        "-select_streams"@,
        "a"@,
        "-show_entries"@,
        "stream=index"@,
        "-of"@,
        "csv=p=0"@,
        input,
    ]
}

pub fn audio_stream_probe_args(input: &str) -> (args: Vec<String>)
    ensures
        args.deep_view() == audio_probe_args(input@),
{
    let mut args: Vec<String> = Vec::new();
    push_all(
        &mut args,
        vec!["-v", "error", "-select_streams", "a", "-show_entries", "stream=index", "-of", "csv=p=0"],
    );
    push_arg(&mut args, input);
    args
}

/// A file has audio when that probe succeeded and printed anything besides
/// ASCII whitespace.
pub fn lists_audio(succeeded: bool, stdout: &Vec<u8>) -> (b: bool)
    ensures
        b == (succeeded && exists|i: int| 0 <= i < stdout@.len() && !is_ascii_ws(#[trigger] stdout@[i])),
{
    if !succeeded {
        return false;
    }
    let mut i: usize = 0;
    while i < stdout.len()
        invariant
            succeeded,
            i <= stdout@.len(),
            forall|j: int| 0 <= j < i ==> is_ascii_ws(#[trigger] stdout@[j]),
        decreases stdout@.len() - i,
    {
        let b = stdout[i];
        if !(b == 32 || b == 9 || b == 10 || b == 12 || b == 13) {
            assert(!is_ascii_ws(stdout@[i as int]));
            return true;
        }
        i = i + 1;
    }
    false
}

} // verus!
