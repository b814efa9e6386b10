//! The virtual camera that publishes the drone picture to apps such as TikTok
//! LIVE Studio, and how its state is judged on each platform.
use vstd::prelude::*;
use crate::error::{BridgeError, ErrorKind};
use crate::ffmpeg::{
    camera_filter, push_all, virtual_camera_feed_args, virtual_camera_filter, windows_feed_args,
};
use crate::process::{ProcessSnapshot, ProcessSpec, ProcessStatus, RestartPolicy};
use crate::state::ServiceStatus;
use crate::text::{
    chars_of, contains, decimal, eq_str, find_char, first_char, lemma_first_char_some, opt_view,
    push_owned, seq_contains, split_lines, str_lines, string_from_range, trim, trim_str,
    u64_to_string,
};

verus! {

pub const DEVICE_NAME: &'static str = "DJI Live Bridge Camera";
pub const FEED_PROCESS_NAME: &'static str = "virtual-camera-feed";
pub const FEED_WIDTH: u32 = 1080;
pub const FEED_HEIGHT: u32 = 1920;
pub const FEED_FPS: u32 = 30;

#[derive(Debug, Clone)]
pub struct VirtualCameraState {
    pub device_name: String,
    pub bundled: bool,
    pub app_installed: bool,
    pub status: ServiceStatus,
    pub feed_active: bool,
    pub width: u32,
    pub height: u32,
    pub fps: u32,
    pub detail_key: String,
    pub detail: Option<String>,
}

/// The camera before anything is known of its extension.
pub open spec fn uninstalled_camera(s: VirtualCameraState) -> bool {
    &&& s.device_name@ == DEVICE_NAME@
    &&& !s.bundled
    &&& !s.app_installed
    &&& s.status == ServiceStatus::Unavailable
    &&& !s.feed_active
    &&& s.width == FEED_WIDTH
    &&& s.height == FEED_HEIGHT
    &&& s.fps == FEED_FPS
    &&& s.detail_key@ == "camera.detail.notInstalled"@
    &&& s.detail matches Some(d) && d@ == "The signed camera extension is not installed"@
}

impl Default for VirtualCameraState {
    fn default() -> (s: Self)
        ensures
            uninstalled_camera(s),
    {
        VirtualCameraState {
            device_name: String::from_str(DEVICE_NAME),
            bundled: false,
            app_installed: false,
            status: ServiceStatus::Unavailable,
            feed_active: false,
            width: FEED_WIDTH,
            height: FEED_HEIGHT,
            fps: FEED_FPS,
            detail_key: String::from_str("camera.detail.notInstalled"),
            detail: Some(String::from_str("The signed camera extension is not installed")),
        }
    }
}


pub const EXTENSION_IDENTIFIER: &'static str = "com.djilivebridge.desktop.camera";
pub const FEED_PORT: u16 = 49213;

/// The camera state on Windows, where the DirectShow filter is registered by
/// the installer: ready when its registration is present.
pub fn inspect_windows(registered: bool, feed_active: bool) -> (s: VirtualCameraState)
    ensures
        s.device_name@ == DEVICE_NAME@,
        s.bundled == registered,
        s.app_installed,
        s.feed_active == feed_active,
        s.width == FEED_WIDTH && s.height == FEED_HEIGHT && s.fps == FEED_FPS,
        registered ==> (s.status == ServiceStatus::Ready && s.detail_key@
            == "camera.detail.windowsReady"@ && (s.detail matches Some(d) && d@ == DEVICE_NAME@
            + " is registered with Windows"@)),
        !registered ==> (s.status == ServiceStatus::Unavailable && s.detail_key@
            == "camera.detail.windowsNotRegistered"@ && (s.detail matches Some(d) && d@
            == "The camera was not registered. Reinstall DJI Live Bridge with the installer, which registers it, or use OBS Virtual Camera instead."@)),
{
    let (status, key, detail) = if registered {
        (
            ServiceStatus::Ready,
            "camera.detail.windowsReady",
            String::from_str(DEVICE_NAME).concat(" is registered with Windows"),
        )
    } else {
        (
            ServiceStatus::Unavailable,
            "camera.detail.windowsNotRegistered",
            String::from_str(
                "The camera was not registered. Reinstall DJI Live Bridge with the installer, which registers it, or use OBS Virtual Camera instead.",
            ),
        )
    };
    VirtualCameraState {
        device_name: String::from_str(DEVICE_NAME),
        bundled: registered,
        app_installed: true,
        status,
        feed_active,
        width: FEED_WIDTH,
        height: FEED_HEIGHT,
        fps: FEED_FPS,
        detail_key: String::from_str(key),
        detail: Some(detail),
    }
}

/// What to do when the Windows camera filter is not registered.
pub const NOT_REGISTERED: &'static str = "The camera is registered by the installer. Run the DJI Live Bridge installer again, then restart the app.";

/// On Windows the camera is registered at install time: activation only
/// checks that the registration is there.
pub fn request_activation_windows(registered: bool) -> (r: Result<(), BridgeError>)
    ensures
        registered <==> r is Ok,
        r matches Err(e) ==> e@ == (
            ErrorKind::VirtualCamera,
            NOT_REGISTERED@,
        ),
{
    if registered {
        return Ok(());
    }
    Err(
        BridgeError::VirtualCamera(
            String::from_str(NOT_REGISTERED),
        ),
    )
}

/// The feed process is starting, running or waiting to restart.
pub open spec fn feeding(p: ProcessSnapshot) -> bool {
    p.name@ == FEED_PROCESS_NAME@ && (p.status == ProcessStatus::Starting || p.status
        == ProcessStatus::Running || p.status == ProcessStatus::BackingOff)
}

/// Only the camera feed process counts, and it stops counting once it has
/// stopped, failed or fallen into a crash loop.
pub proof fn law_feeding(p: ProcessSnapshot)
    ensures
        feeding(p) ==> p.name@ == FEED_PROCESS_NAME@,
        p.name@ == FEED_PROCESS_NAME@ ==> (feeding(p) <==> !(p.status == ProcessStatus::Stopped
            || p.status == ProcessStatus::Failed || p.status == ProcessStatus::CrashLoop)),
{
}

/// Whether the camera is being fed (macOS runs the feed under the process
/// supervisor).
pub fn feed_active(processes: &Vec<ProcessSnapshot>) -> (b: bool)
    ensures
        b == exists|i: int| 0 <= i < processes@.len() && feeding(#[trigger] processes@[i]),
{
    let mut i: usize = 0;
    while i < processes.len()
        invariant
            i <= processes@.len(),
            forall|j: int| 0 <= j < i ==> !feeding(#[trigger] processes@[j]),
        decreases processes@.len() - i,
    {
        let p = &processes[i];
        if eq_str(p.name.as_str(), FEED_PROCESS_NAME) && (p.status == ProcessStatus::Starting
            || p.status == ProcessStatus::Running || p.status == ProcessStatus::BackingOff) {
            assert(feeding(processes@[i as int]));
            return true;
        }
        i = i + 1;
    }
    false
}

/// The last position holding `c`.
pub open spec fn last_char(s: Seq<char>, c: char, n: int) -> Option<int>
    decreases n,
{
    if n <= 0 || n > s.len() {
        None
    } else if s[n - 1] == c {
        Some(n - 1)
    } else {
        last_char(s, c, n - 1)
    }
}

/// The build of an extension in a `systemextensionsctl list` line, which
/// reads `... (<version>/<build>) ...`: the text after the last `/` inside
/// the first parentheses.
pub open spec fn extension_build(line: Seq<char>) -> Option<Seq<char>> {
    match first_char(line, '(', 0) {
        Some(a) => {
            let rest = line.subrange(a + 1, line.len() as int);
            match first_char(rest, ')', 0) {
                Some(b) => {
                    let version = rest.subrange(0, b);
                    match last_char(version, '/', version.len() as int) {
                        Some(c) => Some(version.subrange(c + 1, version.len() as int)),
                        None => None,
                    }
                },
                None => None,
            }
        },
        None => None,
    }
}

fn find_last_char(v: &Vec<char>, c: char) -> (r: Option<usize>)
    ensures
        r matches Some(i) ==> last_char(v@, c, v@.len() as int) == Some(i as int) && i < v@.len(),
        r is None ==> last_char(v@, c, v@.len() as int) is None,
{
    let mut n = v.len();
    while n > 0
        invariant
            n <= v@.len(),
            last_char(v@, c, v@.len() as int) == last_char(v@, c, n as int),
        decreases n,
    {
        if v[n - 1] == c {
            return Some(n - 1);
        }
        n = n - 1;
    }
    None
}

pub fn system_extension_build_version(line: &str) -> (r: Option<String>)
    ensures
        opt_view(r) == extension_build(line@),
{
    let v = chars_of(line);
    let a = match find_char(&v, '(') {
        Some(a) => a,
        None => {
            return None;
        },
    };
    proof {
        lemma_first_char_some(v@, '(', 0);
    }
    let rest = string_from_range(&v, a + 1, v.len());
    let rv = chars_of(rest.as_str());
    let b = match find_char(&rv, ')') {
        Some(b) => b,
        None => {
            return None;
        },
    };
    proof {
        lemma_first_char_some(rv@, ')', 0);
    }
    let version = string_from_range(&rv, 0, b);
    let vv = chars_of(version.as_str());
    match find_last_char(&vv, '/') {
        Some(c) => Some(string_from_range(&vv, c + 1, vv.len())),
        None => None,
    }
}

/// The version in the app's own extension bundle, from `plutil`: its
/// trimmed output when it succeeded and printed something.
pub fn bundle_build_version(succeeded: bool, output: &str) -> (r: Option<String>)
    ensures
        succeeded && trim(output@).len() > 0 ==> (r matches Some(v) && v@ == trim(output@)),
        !(succeeded && trim(output@).len() > 0) ==> r is None,
{
    if !succeeded {
        return None;
    }
    let t = trim_str(output);
    if t.unicode_len() == 0 {
        None
    } else {
        Some(t)
    }
}

/// A line of `systemextensionsctl list` that shows the extension active.
pub open spec fn shows_active(line: Seq<char>) -> bool {
    seq_contains(line, "activated enabled"@) || (seq_contains(line, "[activated"@) && seq_contains(
        line,
        "enabled]"@,
    ))
}

/// The lines about this app's extension.
pub open spec fn extension_lines(lines: Seq<Seq<char>>) -> Seq<Seq<char>>
    decreases lines.len(),
{
    if lines.len() == 0 {
        seq![]
    } else if seq_contains(lines.last(), EXTENSION_IDENTIFIER@) {
        extension_lines(lines.drop_last()).push(lines.last())
    } else {
        extension_lines(lines.drop_last())
    }
}

pub open spec fn first_active(lines: Seq<Seq<char>>, i: int) -> Option<Seq<char>>
    decreases lines.len() - i,
{
    if i < 0 || i >= lines.len() {
        None
    } else if shows_active(lines[i]) {
        Some(lines[i])
    } else {
        first_active(lines, i + 1)
    }
}

/// The camera's state on macOS as the user sees it: an update ready to
/// replace the active extension, the extension active, approval pending,
/// or why it cannot be enabled yet.
pub open spec fn mac_camera(
    bundled: bool,
    bundled_version: Option<Seq<char>>,
    app_installed: bool,
    status_output: Seq<char>,
) -> (ServiceStatus, Seq<char>, Seq<char>) {
    let matching = extension_lines(str_lines(status_output));
    let active_line = first_active(matching, 0);
    let active = active_line is Some;
    let active_build = match active_line {
        Some(l) => extension_build(l),
        None => None,
    };
    let update_available = active && match bundled_version {
        Some(v) => active_build != Some(v),
        None => false,
    };
    let awaiting = exists|i: int| 0 <= i < matching.len() && seq_contains(#[trigger] matching[i], "activated waiting for user"@);
    if update_available {
        (
            ServiceStatus::Unavailable,
            "camera.detail.updateReady"@,
            "A camera extension update is ready. Enable it to replace the active version."@,
        )
    } else if active {
        (ServiceStatus::Ready, "camera.detail.enabled"@, DEVICE_NAME@ + " is enabled by macOS"@)
    } else if awaiting {
        (
            ServiceStatus::Starting,
            "camera.detail.awaitingApproval"@,
            "Camera extension activation is waiting for macOS approval"@,
        )
    } else if !bundled {
        (
            ServiceStatus::Unavailable,
            "camera.detail.notBundled"@,
            "This app bundle does not contain the camera extension"@,
        )
    } else if !app_installed {
        (
            ServiceStatus::Unavailable,
            "camera.detail.moveToApplications"@,
            "Move DJI Live Bridge.app to /Applications before enabling the camera"@,
        )
    } else {
        (
            ServiceStatus::Unavailable,
            "camera.detail.notEnabled"@,
            "Camera extension is bundled but not enabled"@,
        )
    }
}

/// The camera state on macOS: whether the app bundle holds the extension
/// (and its build), whether the app runs from /Applications, and what
/// `systemextensionsctl list` printed (empty when it could not run).
pub fn inspect_macos(
    bundled: bool,
    bundled_version: Option<String>,
    app_installed: bool,
    status_output: &str,
    feed_active: bool,
) -> (s: VirtualCameraState)
    ensures
        ({
            let (status, key, detail) = mac_camera(
                bundled,
                opt_view(bundled_version),
                app_installed,
                status_output@,
            );
            &&& s.status == status
            &&& s.detail_key@ == key
            &&& s.detail matches Some(d) && d@ == detail
        }),
        s.device_name@ == DEVICE_NAME@,
        s.bundled == bundled,
        s.app_installed == app_installed,
        s.feed_active == feed_active,
        s.width == FEED_WIDTH && s.height == FEED_HEIGHT && s.fps == FEED_FPS,
{
    let lines = split_lines(status_output);
    let ghost ls = str_lines(status_output@);
    let mut matching: Vec<String> = Vec::new();
    let mut i: usize = 0;
    while i < lines.len()
        invariant
            lines.deep_view() == ls,
            i <= ls.len(),
            matching.deep_view() == extension_lines(ls.subrange(0, i as int)),
        decreases ls.len() - i,
    {
        assert(ls.subrange(0, i + 1).drop_last() =~= ls.subrange(0, i as int));
        if contains(lines[i].as_str(), EXTENSION_IDENTIFIER) {
            let ghost before = matching.deep_view();
            matching.push(lines[i].clone());
            assert(matching.deep_view() =~= before.push(ls[i as int]));
        }
        i = i + 1;
    }
    assert(ls.subrange(0, ls.len() as int) =~= ls);
    let ghost ms = matching.deep_view();
    let mut active_line: Option<usize> = None;
    let mut awaiting = false;
    let mut j: usize = 0;
    while j < matching.len()
        invariant
            matching.deep_view() == ms,
            j <= ms.len(),
            match active_line {
                Some(k) => k < j && first_active(ms, 0) == Some(ms[k as int]),
                None => first_active(ms, 0) == first_active(ms, j as int),
            },
            awaiting == exists|k: int| 0 <= k < j && seq_contains(#[trigger] ms[k], "activated waiting for user"@),
        decreases ms.len() - j,
    {
        let line = matching[j].as_str();
        assert(line@ == ms[j as int]);
        if active_line.is_none() && (contains(line, "activated enabled") || (contains(line, "[activated")
            && contains(line, "enabled]"))) {
            active_line = Some(j);
        }
        if contains(line, "activated waiting for user") {
            awaiting = true;
        }
        j = j + 1;
    }
    let active = active_line.is_some();
    let active_build = match active_line {
        Some(k) => system_extension_build_version(matching[k].as_str()),
        None => None,
    };
    let update_available = active && match &bundled_version {
        Some(v) => match &active_build {
            Some(b) => !eq_str(b.as_str(), v.as_str()),
            None => true,
        },
        None => false,
    };
    let (status, key, detail) = if update_available {
        (
            ServiceStatus::Unavailable,
            "camera.detail.updateReady",
            String::from_str(
                "A camera extension update is ready. Enable it to replace the active version.",
            ),
        )
    } else if active {
        (
            ServiceStatus::Ready,
            "camera.detail.enabled",
            String::from_str(DEVICE_NAME).concat(" is enabled by macOS"),
        )
    } else if awaiting {
        (
            ServiceStatus::Starting,
            "camera.detail.awaitingApproval",
            String::from_str("Camera extension activation is waiting for macOS approval"),
        )
    } else if !bundled {
        (
            ServiceStatus::Unavailable,
            "camera.detail.notBundled",
            String::from_str("This app bundle does not contain the camera extension"),
        )
    } else if !app_installed {
        (
            ServiceStatus::Unavailable,
            "camera.detail.moveToApplications",
            String::from_str("Move DJI Live Bridge.app to /Applications before enabling the camera"),
        )
    } else {
        (
            ServiceStatus::Unavailable,
            "camera.detail.notEnabled",
            String::from_str("Camera extension is bundled but not enabled"),
        )
    };
    VirtualCameraState {
        device_name: String::from_str(DEVICE_NAME),
        bundled,
        app_installed,
        status,
        feed_active,
        width: FEED_WIDTH,
        height: FEED_HEIGHT,
        fps: FEED_FPS,
        detail_key: String::from_str(key),
        detail: Some(detail),
    }
}

/// On macOS activation needs the extension in the bundle and the app in
/// /Applications.
pub fn request_activation_macos(state: &VirtualCameraState) -> (r: Result<(), BridgeError>)
    ensures
        !state.bundled ==> (r matches Err(e) && e@ == (
            ErrorKind::VirtualCamera,
            "Camera extension is missing from the application bundle"@,
        )),
        state.bundled && !state.app_installed ==> (r matches Err(e) && e@ == (
            ErrorKind::VirtualCamera,
            "DJI Live Bridge.app must run from /Applications before the camera extension can be enabled"@,
        )),
        state.bundled && state.app_installed ==> r is Ok,
{
    if !state.bundled {
        return Err(
            BridgeError::VirtualCamera(
                String::from_str("Camera extension is missing from the application bundle"),
            ),
        );
    }
    if !state.app_installed {
        return Err(
            BridgeError::VirtualCamera(
                String::from_str(
                    "DJI Live Bridge.app must run from /Applications before the camera extension can be enabled",
                ),
            ),
        );
    }
    Ok(())
}

/// The macOS camera feed: NV12 frames of the camera's size, served on a
/// local TCP port the extension reads.
pub open spec fn macos_feed_args() -> Seq<Seq<char>> {
    seq![
        "-hide_banner"@,
        "-loglevel"@,
        "warning"@,
        "-y"@,
        "-rtsp_transport"@,
        "tcp"@,
        "-i"@,
        "rtsp://127.0.0.1:8554/drone"@,
        "-map"@,
        "0:v:0"@,
        "-an"@,
        "-vf"@,
        camera_filter(FEED_WIDTH, FEED_HEIGHT, FEED_FPS),
        "-pix_fmt"@,
        "nv12"@,
        "-f"@,
        "rawvideo"@,
        "tcp://127.0.0.1:"@ + decimal(FEED_PORT as nat) + "?listen=1"@,
    ]
}

/// The macOS feed to start: only once the extension is active (else the
/// reason it is not), and only with an FFmpeg.
pub fn macos_feed_plan(state: &VirtualCameraState, ffmpeg_path: Option<String>) -> (r: Result<ProcessSpec, BridgeError>)
    ensures
        state.status != ServiceStatus::Ready ==> (r matches Err(e) && e@ == (
            ErrorKind::VirtualCamera,
            match state.detail {
                Some(d) => d@,
                None => "Camera extension is not enabled"@,
            },
        )),
        state.status == ServiceStatus::Ready && ffmpeg_path is None ==> (r matches Err(e) && e@ == (
            ErrorKind::Ffmpeg,
            "FFmpeg is unavailable"@,
        )),
        state.status == ServiceStatus::Ready && ffmpeg_path is Some ==> (r matches Ok(spec) && {
            &&& spec.name@ == FEED_PROCESS_NAME@
            &&& spec.executable@ == ffmpeg_path->0@
            &&& spec.args.deep_view() == macos_feed_args()
            &&& spec.restart_policy == RestartPolicy::OnFailure
        }),
{
    if state.status != ServiceStatus::Ready {
        let detail = match &state.detail {
            Some(d) => d.clone(),
            None => String::from_str("Camera extension is not enabled"),
        };
        return Err(BridgeError::VirtualCamera(detail));
    }
    let ffmpeg = match ffmpeg_path {
        Some(p) => p,
        None => {
            return Err(BridgeError::Ffmpeg(String::from_str("FFmpeg is unavailable")));
        },
    };
    let filter = virtual_camera_filter(FEED_WIDTH, FEED_HEIGHT, FEED_FPS);
    let output = String::from_str("tcp://127.0.0.1:").concat(
        u64_to_string(FEED_PORT as u64).as_str(),
    ).concat("?listen=1");
    let mut args: Vec<String> = Vec::new();
    push_all(
        &mut args,
        vec![
            "-hide_banner",
            "-loglevel",
            "warning",
            "-y",
            "-rtsp_transport",
            "tcp",
            "-i",
            "rtsp://127.0.0.1:8554/drone",
            "-map",
            "0:v:0",
            "-an",
            "-vf",
        ],
    );
    push_owned(&mut args, filter);
    push_all(&mut args, vec!["-pix_fmt", "nv12", "-f", "rawvideo"]);
    push_owned(&mut args, output);
    Ok(
        ProcessSpec {
            name: String::from_str(FEED_PROCESS_NAME),
            executable: ffmpeg,
            args,
            restart_policy: RestartPolicy::OnFailure,
        },
    )
}

/// The Windows feed to start: only once the filter is registered (else the
/// activation error), and only with an FFmpeg; it writes NV12 frames to its
/// standard output.
pub fn windows_feed_plan(registered: bool, ffmpeg_path: Option<String>) -> (r: Result<(String, Vec<String>), BridgeError>)
    ensures
        !registered ==> (r matches Err(e) && e@ == (
            ErrorKind::VirtualCamera,
            NOT_REGISTERED@,
        )),
        registered && ffmpeg_path is None ==> (r matches Err(e) && e@ == (
            ErrorKind::Ffmpeg,
            "FFmpeg is unavailable"@,
        )),
        registered && ffmpeg_path is Some ==> (r matches Ok(plan) && plan.0@ == ffmpeg_path->0@
            && plan.1.deep_view() == windows_feed_args()),
{
    if !registered {
        return Err(BridgeError::VirtualCamera(String::from_str(NOT_REGISTERED)));
    }
    match ffmpeg_path {
        Some(p) => Ok((p, virtual_camera_feed_args())),
        None => Err(BridgeError::Ffmpeg(String::from_str("FFmpeg is unavailable"))),
    }
}

pub const FRAME_WIDTH: u32 = 1080;
pub const FRAME_HEIGHT: u32 = 1920;
pub const FRAME_FPS: u32 = 30;
/// NV12: the full-size luma plane and the half-height interleaved chroma.
pub const FRAME_BYTES: usize = 3_110_400;
/// "DJI1", the first word of the shared frame header.
pub const FRAME_MAGIC: u32 = 0x444A_4931;
pub const FRAME_HEADER_BYTES: usize = 32;

/// The frame protocol of the shared memory the Windows camera filter reads:
/// the header, and a sequence counter that is odd while a frame is being
/// written and even once it is complete, so a reader can tell a torn copy.
#[derive(Debug)]
pub struct FrameBridge {
    sequence: u32,
}

/// `s.wrapping_add(1)`.
pub open spec fn next_sequence(s: u32) -> u32 {
    if s == u32::MAX {
        0
    } else {
        (s + 1) as u32
    }
}

impl View for FrameBridge {
    type V = u32;

    closed spec fn view(&self) -> u32 {
        self.sequence
    }
}

impl FrameBridge {
    /// A bridge before any frame.
    pub fn new() -> (b: Self)
        ensures
            b@ == 0,
    {
        FrameBridge { sequence: 0 }
    }

    /// The header words: magic, width, height, frame rate, and the sequence
    /// (0: no frame yet).
    pub fn write_header(&self) -> (h: Vec<u32>)
        ensures
            h@ == seq![FRAME_MAGIC, FRAME_WIDTH, FRAME_HEIGHT, FRAME_FPS, 0u32],
    {
        vec![FRAME_MAGIC, FRAME_WIDTH, FRAME_HEIGHT, FRAME_FPS, 0]
    }

    /// A frame of `len` bytes is about to be copied in: nothing happens
    /// unless it is a whole frame; else the (odd) sequence to publish while
    /// the copy runs.
    pub fn begin_frame(&mut self, len: usize) -> (marker: Option<u32>)
        ensures
            len != FRAME_BYTES ==> marker is None && final(self)@ == old(self)@,
            len == FRAME_BYTES ==> marker == Some(final(self)@) && final(self)@ == (next_sequence(
                old(self)@,
            ) | 1),
    {
        if len != FRAME_BYTES {
            return None;
        }
        self.sequence = self.sequence.wrapping_add(1) | 1;
        Some(self.sequence)
    }

    /// The copy is done: the (even) sequence that marks the frame complete.
    pub fn end_frame(&mut self) -> (marker: u32)
        ensures
            final(self)@ == next_sequence(old(self)@),
            marker == final(self)@,
    {
        self.sequence = self.sequence.wrapping_add(1);
        self.sequence
    }
}

/// While a frame is copied the published sequence is odd, and once the copy
/// is done it is even: a reader never mistakes a torn frame for a whole one.
pub proof fn law_frame_sequence(sequence: u32)
    ensures
        (next_sequence(sequence) | 1) % 2 == 1,
        next_sequence(next_sequence(sequence) | 1) % 2 == 0,
{
    let n = next_sequence(sequence);
    assert((n | 1) % 2 == 1) by (bit_vector);
    let odd = n | 1;
    assert(odd % 2 == 1);
    if odd == u32::MAX {
    } else {
        assert(((odd + 1) as u32) % 2 == 0);
    }
}


/// The camera carries video only: both feeds drop the audio with `-an`.
pub proof fn law_camera_feed_is_video_only()
    ensures
        macos_feed_args().contains("-an"@),
        windows_feed_args().contains("-an"@),
{
    assert(macos_feed_args()[10] == "-an"@);
    assert(windows_feed_args()[9] == "-an"@);
}

} // verus!
