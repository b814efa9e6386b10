//! Recording the drone stream, or the production when it runs, to a
//! Matroska file, stream-copied.
use vstd::prelude::*;
use crate::error::{BridgeError, ErrorKind};
use crate::ffmpeg::push_all;
use crate::process::{ProcessSpec, RestartPolicy};
use crate::text::{chars_of, decimal, push_owned, u64_to_string};

verus! {

/// `n` as `Display` writes a signed integer.
pub open spec fn signed_decimal(n: int) -> Seq<char> {
    if n < 0 {
        "-"@ + decimal((-n) as nat)
    } else {
        decimal(n as nat)
    }
}

/// The file a recording started at `timestamp` (Unix seconds) goes to.
pub open spec fn recording_name(timestamp: i64) -> Seq<char> {
    "DJI-Live-"@ + signed_decimal(timestamp as int) + ".mkv"@
}

pub fn recording_file_name(timestamp: i64) -> (name: String)
    ensures
        name@ == recording_name(timestamp),
{
    let digits = if timestamp < 0 {
        let magnitude: u64 = if timestamp == i64::MIN {
            9_223_372_036_854_775_808
        } else {
            (-timestamp) as u64
        };
        String::from_str("-").concat(u64_to_string(magnitude).as_str())
    } else {
        u64_to_string(timestamp as u64)
    };
    String::from_str("DJI-Live-").concat(digits.as_str()).concat(".mkv")
}

/// `dir.join(name)` for a relative `name`: a separator goes between them
/// unless `dir` is empty or already ends with one (`/`, or the platform's).
pub open spec fn join_path(dir: Seq<char>, name: Seq<char>, separator: char) -> Seq<char> {
    if dir.len() == 0 || dir.last() == '/' || dir.last() == separator {
        dir + name
    } else {
        dir + seq![separator] + name
    }
}

pub fn join_path_exec(dir: &str, name: &str, separator: char) -> (p: String)
    ensures
        p@ == join_path(dir@, name@, separator),
{
    let v = chars_of(dir);
    if v.len() == 0 || v[v.len() - 1] == '/' || v[v.len() - 1] == separator {
        String::from_str(dir).concat(name)
    } else {
        let mut p = String::from_str(dir);
        crate::text::push_char(&mut p, separator);
        p.concat(name)
    }
}

/// The recording: the production when it runs (else the drone feed),
/// stream-copied into a Matroska file.
pub open spec fn recording_args(production_ready: bool, output: Seq<char>) -> Seq<Seq<char>> {
    seq![
        "-hide_banner"@,
        "-loglevel"@,
        "warning"@,
        "-rtsp_transport"@,
        "tcp"@,
        "-i"@,
        if production_ready {
            "rtsp://127.0.0.1:8554/production"@
        } else {
            "rtsp://127.0.0.1:8554/drone"@
        },
        "-map"@,
        "0"@,
        "-c"@,
        "copy"@,
        "-f"@,
        "matroska"@,
        output,
    ]
}

/// The recording reads the production while it runs and the drone feed
/// otherwise, copies every stream without re-encoding, and writes Matroska
/// to the given file, named last.
pub proof fn law_recording_args(production_ready: bool, output: Seq<char>)
    ensures
        ({
            let a = recording_args(production_ready, output);
            &&& a[5] == "-i"@
            &&& (a[6] == "rtsp://127.0.0.1:8554/production"@ <==> production_ready)
            &&& (a[6] == "rtsp://127.0.0.1:8554/drone"@ <==> !production_ready)
            &&& a[9] == "-c"@ && a[10] == "copy"@
            &&& a[11] == "-f"@ && a[12] == "matroska"@
            &&& a.last() == output
        }),
{
    reveal_strlit("rtsp://127.0.0.1:8554/production");
    reveal_strlit("rtsp://127.0.0.1:8554/drone");
    assert("rtsp://127.0.0.1:8554/production"@.len() != "rtsp://127.0.0.1:8554/drone"@.len());
}

/// The recording process to start and the file it writes: FFmpeg must be
/// there, then the recording folder (`directory`, or why there is none).
pub fn recording_plan(
    ffmpeg_path: Option<String>,
    directory: Result<String, BridgeError>,
    timestamp: i64,
    production_ready: bool,
    separator: char,
) -> (r: Result<(ProcessSpec, String), BridgeError>)
    ensures
        ffmpeg_path is None ==> (r matches Err(e) && e@ == (ErrorKind::Ffmpeg, "FFmpeg is unavailable"@)),
        ffmpeg_path is Some && directory is Err ==> (r matches Err(e) && e@ == directory->Err_0@),
        ffmpeg_path is Some && directory is Ok ==> (r matches Ok((spec, output)) && {
            &&& output@ == join_path(directory->Ok_0@, recording_name(timestamp), separator)
            &&& spec.name@ == "native-recording"@
            &&& spec.executable@ == ffmpeg_path->0@
            &&& spec.args.deep_view() == recording_args(production_ready, output@)
            &&& spec.restart_policy == RestartPolicy::Never
        }),
{
    let ffmpeg = match ffmpeg_path {
        Some(p) => p,
        None => {
            return Err(BridgeError::Ffmpeg(String::from_str("FFmpeg is unavailable")));
        },
    };
    let directory = match directory {
        Ok(d) => d,
        Err(e) => {
            return Err(e);
        },
    };
    let output = join_path_exec(
        directory.as_str(),
        recording_file_name(timestamp).as_str(),
        separator,
    );
    let input = if production_ready {
        "rtsp://127.0.0.1:8554/production"
    } else {
        "rtsp://127.0.0.1:8554/drone"
    };
    let mut args: Vec<String> = Vec::new();
    push_all(
        &mut args,
        vec![
            "-hide_banner",
            "-loglevel",
            "warning",
            "-rtsp_transport",
            "tcp",
            "-i",
            input,
            "-map",
            "0",
            "-c",
            "copy",
            "-f",
            "matroska",
        ],
    );
    push_owned(&mut args, output.clone());
    Ok(
        (
            ProcessSpec {
                name: String::from_str("native-recording"),
                executable: ffmpeg,
                args,
                restart_policy: RestartPolicy::Never,
            },
            output,
        ),
    )
}

} // verus!
