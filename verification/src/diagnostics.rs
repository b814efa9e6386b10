//! The readiness checklist the user interface shows: one line per thing the
//! bridge needs, with how it stands and what to do about it.
use vstd::prelude::*;
use crate::ffmpeg::FfmpegCapabilities;
use crate::state::{BridgeSnapshot, ServiceStatus};
use crate::text::{decimal, u64_to_string};

verus! {

#[derive(Debug, Clone, Copy, PartialEq, Eq, Structural)]
pub enum DiagnosticLevel {
    Pass,
    Warning,
    Fail,
}

#[derive(Debug, Clone)]
pub struct DiagnosticItem {
    pub name: String,
    pub level: DiagnosticLevel,
    pub detail: String,
    pub action: Option<String>,
}

/// An item as plain values: name, level, detail, action.
pub type ItemView = (Seq<char>, DiagnosticLevel, Seq<char>, Option<Seq<char>>);

impl View for DiagnosticItem {
    type V = ItemView;

    open spec fn view(&self) -> ItemView {
        (
            self.name@,
            self.level,
            self.detail@,
            match self.action {
                Some(a) => Some(a@),
                None => None,
            },
        )
    }
}

pub open spec fn item_views(items: Seq<DiagnosticItem>) -> Seq<ItemView> {
    items.map_values(|i: DiagnosticItem| i@)
}

pub fn item(name: &str, level: DiagnosticLevel, detail: String, action: Option<&str>) -> (i:
    DiagnosticItem)
    ensures
        i@ == (name@, level, detail@, match action {
            Some(a) => Some(a@),
            None => None,
        }),
{
    DiagnosticItem {
        name: String::from_str(name),
        level,
        detail,
        action: match action {
            Some(a) => Some(String::from_str(a)),
            None => None,
        },
    }
}

/// The name `{:?}` gives a status.
pub open spec fn status_name(s: ServiceStatus) -> Seq<char> {
    match s {
        ServiceStatus::Unavailable => "Unavailable"@,
        ServiceStatus::Starting => "Starting"@,
        ServiceStatus::Ready => "Ready"@,
        ServiceStatus::Failed => "Failed"@,
    }
}

fn status_name_of(s: ServiceStatus) -> (r: &'static str)
    ensures
        r@ == status_name(s),
{
    match s {
        ServiceStatus::Unavailable => "Unavailable",
        ServiceStatus::Starting => "Starting",
        ServiceStatus::Ready => "Ready",
        ServiceStatus::Failed => "Failed",
    }
}

pub open spec fn or_default(o: Option<String>, default: Seq<char>) -> Seq<char> {
    match o {
        Some(s) => s@,
        None => default,
    }
}

fn or_default_of(o: &Option<String>, default: &str) -> (r: String)
    ensures
        r@ == or_default(*o, default@),
{
    match o {
        Some(s) => s.clone(),
        None => String::from_str(default),
    }
}

/// `names.join(", ")`.
pub open spec fn join_names(names: Seq<Seq<char>>) -> Seq<char>
    decreases names.len(),
{
    if names.len() == 0 {
        Seq::<char>::empty()
    } else if names.len() == 1 {
        names[0]
    } else {
        join_names(names.drop_last()) + ", "@ + names.last()
    }
}

pub open spec fn device_names(devices: Seq<crate::audio::AudioInputDevice>) -> Seq<Seq<char>> {
    devices.map_values(|d: crate::audio::AudioInputDevice| d.name@)
}

pub open spec fn lan_item(s: BridgeSnapshot) -> ItemView {
    match (s.selected_interface, s.lan_ipv4) {
        (Some(interface), Some(ip)) => (
            "LAN interface"@,
            DiagnosticLevel::Pass,
            interface@ + " · "@ + ip@,
            None,
        ),
        _ => (
            "LAN interface"@,
            DiagnosticLevel::Fail,
            "No eligible IPv4 LAN interface detected"@,
            Some("Connect the Mac and DJI RC 2 to the same LAN, then select the interface."@),
        ),
    }
}

pub open spec fn mediamtx_item(status: ServiceStatus) -> ItemView {
    match status {
        ServiceStatus::Ready => (
            "MediaMTX"@,
            DiagnosticLevel::Pass,
            "Process and loopback Control API are ready"@,
            None,
        ),
        ServiceStatus::Starting => (
            "MediaMTX"@,
            DiagnosticLevel::Warning,
            "Starting"@,
            Some("Wait for readiness; inspect the process log if this persists."@),
        ),
        _ => (
            "MediaMTX"@,
            DiagnosticLevel::Fail,
            "Sidecar is not ready"@,
            Some("Check ports 1935, 8554, 8889, 9997 and reinstall the pinned sidecar."@),
        ),
    }
}

pub open spec fn publisher_item(present: bool) -> ItemView {
    if present {
        ("/drone publisher"@, DiagnosticLevel::Pass, "A real MediaMTX publisher is present"@, None)
    } else {
        (
            "/drone publisher"@,
            DiagnosticLevel::Warning,
            "Waiting for DJI Fly or Test Drone"@,
            Some("Start RTMP streaming to the displayed URL."@),
        )
    }
}

pub open spec fn ffmpeg_item(f: FfmpegCapabilities) -> ItemView {
    if f.ffmpeg_path is Some && f.ffprobe_path is Some {
        ("FFmpeg / ffprobe"@, DiagnosticLevel::Pass, or_default(f.version, "Detected"@), None)
    } else {
        (
            "FFmpeg / ffprobe"@,
            DiagnosticLevel::Fail,
            "External FFmpeg tools are unavailable"@,
            Some("Install an FFmpeg build that includes H.264 and Opus encoders."@),
        )
    }
}

pub open spec fn production_item(f: FfmpegCapabilities) -> ItemView {
    if f.aac && (f.h264_videotoolbox || f.libx264) {
        (
            "Built-in production"@,
            DiagnosticLevel::Pass,
            "H.264 encoder: "@ + (if f.h264_videotoolbox {
                "VideoToolbox"@
            } else {
                "libx264"@
            }) + " · AAC: available"@ + (if f.avfoundation {
                " · AVFoundation microphone input: available"@
            } else {
                " · AVFoundation microphone input: unavailable"@
            }),
            None,
        )
    } else {
        (
            "Built-in production"@,
            DiagnosticLevel::Fail,
            "Required H.264/AAC encoders are unavailable"@,
            Some("Install a supported FFmpeg build; OBS remains an optional fallback."@),
        )
    }
}

pub open spec fn route_item(s: BridgeSnapshot) -> ItemView {
    let p = s.production;
    if p.active {
        (
            "Production route"@,
            if p.forward_error is Some {
                DiagnosticLevel::Fail
            } else {
                DiagnosticLevel::Pass
            },
            "/production: "@ + status_name(p.path_status) + " · forward: "@ + or_default(
                p.forward_state,
                "pending"@,
            ) + " · outbound: "@ + decimal(p.outbound_bytes as nat) + " bytes"@ + (match p.forward_error {
                Some(e) => " · "@ + e@,
                None => Seq::<char>::empty(),
            }),
            match p.forward_error {
                Some(_) => Some("Stop the live route, verify destination URL/key, then start again."@),
                None => None,
            },
        )
    } else {
        (
            "Production route"@,
            DiagnosticLevel::Warning,
            "Built-in production is stopped"@,
            Some("Prepare production and explicitly press START LIVE."@),
        )
    }
}

pub open spec fn camera_item(s: BridgeSnapshot) -> ItemView {
    let c = s.virtual_camera;
    match c.status {
        ServiceStatus::Ready => (
            "DJI Live Bridge Camera"@,
            DiagnosticLevel::Pass,
            "Core Media I/O extension enabled · "@ + decimal(c.width as nat) + "x"@ + decimal(
                c.height as nat,
            ) + " @ "@ + decimal(c.fps as nat) + " fps · feed "@ + (if c.feed_active {
                "running"@
            } else {
                "stopped"@
            }),
            None,
        ),
        ServiceStatus::Starting => (
            "DJI Live Bridge Camera"@,
            DiagnosticLevel::Warning,
            or_default(c.detail, "Waiting for macOS approval"@),
            Some("Allow the camera extension in System Settings > Privacy & Security."@),
        ),
        _ => (
            "DJI Live Bridge Camera"@,
            DiagnosticLevel::Warning,
            or_default(c.detail, "Camera extension is unavailable"@),
            Some("Use a signed build from /Applications, then enable the virtual camera."@),
        ),
    }
}

pub open spec fn obs_item(s: BridgeSnapshot) -> ItemView {
    if s.obs.connected {
        (
            "OBS WebSocket"@,
            DiagnosticLevel::Pass,
            "OBS "@ + or_default(s.obs.obs_version, "unknown"@) + " · WebSocket "@ + or_default(
                s.obs.websocket_version,
                "unknown"@,
            ),
            None,
        )
    } else {
        (
            "OBS WebSocket"@,
            DiagnosticLevel::Warning,
            or_default(s.obs.last_error, "Not connected"@),
            Some(
                "Optional: install/start OBS and enable Tools > WebSocket Server Settings on port 4455."@,
            ),
        )
    }
}

pub open spec fn microphone_item(s: BridgeSnapshot) -> ItemView {
    if s.audio_inputs@.len() == 0 {
        (
            "Commentary microphone"@,
            DiagnosticLevel::Warning,
            "No CoreAudio input device is currently visible"@,
            Some(
                "Connect or enable a microphone. macOS will request Microphone permission only when built-in commentary capture is used."@,
            ),
        )
    } else {
        (
            "Commentary microphone"@,
            DiagnosticLevel::Pass,
            join_names(device_names(s.audio_inputs@)),
            None,
        )
    }
}

pub open spec fn tiktok_item(installed: bool) -> ItemView {
    if installed {
        ("TikTok LIVE Studio"@, DiagnosticLevel::Pass, "macOS application found in /Applications"@, None)
    } else {
        (
            "TikTok LIVE Studio"@,
            DiagnosticLevel::Warning,
            "macOS application is not installed"@,
            Some("Open the current official TikTok download page from the destination panel."@),
        )
    }
}

/// The checklist, in the order shown.
pub open spec fn diagnostics(
    s: BridgeSnapshot,
    f: FfmpegCapabilities,
    arch: Seq<char>,
    tiktok_installed: bool,
) -> Seq<ItemView> {
    seq![
        ("macOS / architecture"@, DiagnosticLevel::Pass, "macOS "@ + arch, None),
        lan_item(s),
        mediamtx_item(s.media_mtx),
        publisher_item(s.publisher_present),
        ffmpeg_item(f),
        production_item(f),
        route_item(s),
        camera_item(s),
        obs_item(s),
        microphone_item(s),
        tiktok_item(tiktok_installed),
    ]
}

/// The checklist: its eleven items in order, each passing exactly when what
/// it checks is in place (failing where that breaks the bridge, warning where
/// it is optional or pending), and offering an action exactly when it does
/// not pass.
pub proof fn law_checklist(s: BridgeSnapshot, f: FfmpegCapabilities, arch: Seq<char>, tiktok: bool)
    ensures
        ({
            let d = diagnostics(s, f, arch, tiktok);
            &&& d.len() == 11
            &&& forall|i: int| 0 <= i < 11 ==> ((#[trigger] d[i]).1 == DiagnosticLevel::Pass <==> d[i].3 is None)
            &&& d[0].0 == "macOS / architecture"@ && d[0].1 == DiagnosticLevel::Pass
            &&& d[1].0 == "LAN interface"@ && d[1].1 == (if s.selected_interface is Some
                && s.lan_ipv4 is Some {
                DiagnosticLevel::Pass
            } else {
                DiagnosticLevel::Fail
            })
            &&& d[2].0 == "MediaMTX"@ && d[2].1 == (if s.media_mtx == ServiceStatus::Ready {
                DiagnosticLevel::Pass
            } else if s.media_mtx == ServiceStatus::Starting {
                DiagnosticLevel::Warning
            } else {
                DiagnosticLevel::Fail
            })
            &&& d[3].0 == "/drone publisher"@ && d[3].1 == (if s.publisher_present {
                DiagnosticLevel::Pass
            } else {
                DiagnosticLevel::Warning
            })
            &&& d[4].0 == "FFmpeg / ffprobe"@ && d[4].1 == (if f.ffmpeg_path is Some
                && f.ffprobe_path is Some {
                DiagnosticLevel::Pass
            } else {
                DiagnosticLevel::Fail
            })
            &&& d[5].0 == "Built-in production"@ && d[5].1 == (if f.aac && (f.h264_videotoolbox
                || f.libx264) {
                DiagnosticLevel::Pass
            } else {
                DiagnosticLevel::Fail
            })
            &&& d[7].0 == "DJI Live Bridge Camera"@ && d[7].1 == (if s.virtual_camera.status
                == ServiceStatus::Ready {
                DiagnosticLevel::Pass
            } else {
                DiagnosticLevel::Warning
            })
            &&& d[8].0 == "OBS WebSocket"@ && d[8].1 == (if s.obs.connected {
                DiagnosticLevel::Pass
            } else {
                DiagnosticLevel::Warning
            })
            &&& d[9].0 == "Commentary microphone"@ && d[9].1 == (if s.audio_inputs@.len() > 0 {
                DiagnosticLevel::Pass
            } else {
                DiagnosticLevel::Warning
            })
            &&& d[10].0 == "TikTok LIVE Studio"@ && d[10].1 == (if tiktok {
                DiagnosticLevel::Pass
            } else {
                DiagnosticLevel::Warning
            })
        }),
{
    let d = diagnostics(s, f, arch, tiktok);
    assert forall|i: int| 0 <= i < 11 implies ((#[trigger] d[i]).1 == DiagnosticLevel::Pass <==> d[i].3 is None) by {
        assert(0 <= i < 11);
    }
}

/// The checklist's "Production route" item: while production is active it
/// fails exactly when a forward error is reported (and then asks to stop,
/// check the destination and start again), and passes otherwise; while
/// production is stopped it is a warning.
pub proof fn law_route_item(s: BridgeSnapshot, f: FfmpegCapabilities, arch: Seq<char>, tiktok: bool)
    ensures
        ({
            let item = diagnostics(s, f, arch, tiktok)[6];
            &&& diagnostics(s, f, arch, tiktok).len() == 11
            &&& item.0 == "Production route"@
            &&& s.production.active ==> (item.1 == DiagnosticLevel::Fail <==> s.production.forward_error
                is Some)
            &&& s.production.active ==> (item.1 == DiagnosticLevel::Pass <==> s.production.forward_error
                is None)
            &&& s.production.active && s.production.forward_error is Some ==> item.3 == Some(
                "Stop the live route, verify destination URL/key, then start again."@,
            )
            &&& !s.production.active ==> item.1 == DiagnosticLevel::Warning
        }),
{
}

fn lan_item_of(s: &BridgeSnapshot) -> (i: DiagnosticItem)
    ensures
        i@ == lan_item(*s),
{
    match (&s.selected_interface, &s.lan_ipv4) {
        (Some(interface), Some(ip)) => item(
            "LAN interface",
            DiagnosticLevel::Pass,
            interface.clone().concat(" · ").concat(ip.as_str()),
            None,
        ),
        _ => item(
            "LAN interface",
            DiagnosticLevel::Fail,
            String::from_str("No eligible IPv4 LAN interface detected"),
            Some("Connect the Mac and DJI RC 2 to the same LAN, then select the interface."),
        ),
    }
}

fn mediamtx_item_of(status: ServiceStatus) -> (i: DiagnosticItem)
    ensures
        i@ == mediamtx_item(status),
{
    match status {
        ServiceStatus::Ready => item(
            "MediaMTX",
            DiagnosticLevel::Pass,
            String::from_str("Process and loopback Control API are ready"),
            None,
        ),
        ServiceStatus::Starting => item(
            "MediaMTX",
            DiagnosticLevel::Warning,
            String::from_str("Starting"),
            Some("Wait for readiness; inspect the process log if this persists."),
        ),
        _ => item(
            "MediaMTX",
            DiagnosticLevel::Fail,
            String::from_str("Sidecar is not ready"),
            Some("Check ports 1935, 8554, 8889, 9997 and reinstall the pinned sidecar."),
        ),
    }
}

fn publisher_item_of(present: bool) -> (i: DiagnosticItem)
    ensures
        i@ == publisher_item(present),
{
    if present {
        item(
            "/drone publisher",
            DiagnosticLevel::Pass,
            String::from_str("A real MediaMTX publisher is present"),
            None,
        )
    } else {
        item(
            "/drone publisher",
            DiagnosticLevel::Warning,
            String::from_str("Waiting for DJI Fly or Test Drone"),
            Some("Start RTMP streaming to the displayed URL."),
        )
    }
}

fn ffmpeg_item_of(f: &FfmpegCapabilities) -> (i: DiagnosticItem)
    ensures
        i@ == ffmpeg_item(*f),
{
    if f.ffmpeg_path.is_some() && f.ffprobe_path.is_some() {
        item("FFmpeg / ffprobe", DiagnosticLevel::Pass, or_default_of(&f.version, "Detected"), None)
    } else {
        item(
            "FFmpeg / ffprobe",
            DiagnosticLevel::Fail,
            String::from_str("External FFmpeg tools are unavailable"),
            Some("Install an FFmpeg build that includes H.264 and Opus encoders."),
        )
    }
}

fn production_item_of(f: &FfmpegCapabilities) -> (i: DiagnosticItem)
    ensures
        i@ == production_item(*f),
{
    if f.aac && (f.h264_videotoolbox || f.libx264) {
        let encoder = if f.h264_videotoolbox {
            "VideoToolbox"
        } else {
            "libx264"
        };
        let microphone = if f.avfoundation {
            " · AVFoundation microphone input: available"
        } else {
            " · AVFoundation microphone input: unavailable"
        };
        item(
            "Built-in production",
            DiagnosticLevel::Pass,
            String::from_str("H.264 encoder: ").concat(encoder).concat(" · AAC: available").concat(
                microphone,
            ),
            None,
        )
    } else {
        item(
            "Built-in production",
            DiagnosticLevel::Fail,
            String::from_str("Required H.264/AAC encoders are unavailable"),
            Some("Install a supported FFmpeg build; OBS remains an optional fallback."),
        )
    }
}

fn route_item_of(s: &BridgeSnapshot) -> (i: DiagnosticItem)
    ensures
        i@ == route_item(*s),
{
    let p = &s.production;
    if p.active {
        let level = if p.forward_error.is_some() {
            DiagnosticLevel::Fail
        } else {
            DiagnosticLevel::Pass
        };
        let error_part = match &p.forward_error {
            Some(e) => String::from_str(" · ").concat(e.as_str()),
            None => String::new(),
        };
        let detail = String::from_str("/production: ").concat(status_name_of(p.path_status)).concat(
            " · forward: ",
        ).concat(or_default_of(&p.forward_state, "pending").as_str()).concat(" · outbound: ").concat(
            u64_to_string(p.outbound_bytes).as_str(),
        ).concat(" bytes").concat(error_part.as_str());
        let action = match &p.forward_error {
            Some(_) => Some("Stop the live route, verify destination URL/key, then start again."),
            None => None,
        };
        item("Production route", level, detail, action)
    } else {
        item(
            "Production route",
            DiagnosticLevel::Warning,
            String::from_str("Built-in production is stopped"),
            Some("Prepare production and explicitly press START LIVE."),
        )
    }
}

fn camera_item_of(s: &BridgeSnapshot) -> (i: DiagnosticItem)
    ensures
        i@ == camera_item(*s),
{
    let c = &s.virtual_camera;
    match c.status {
        ServiceStatus::Ready => {
            let feed = if c.feed_active {
                "running"
            } else {
                "stopped"
            };
            let detail = String::from_str("Core Media I/O extension enabled · ").concat(
                u64_to_string(c.width as u64).as_str(),
            ).concat("x").concat(u64_to_string(c.height as u64).as_str()).concat(" @ ").concat(
                u64_to_string(c.fps as u64).as_str(),
            ).concat(" fps · feed ").concat(feed);
            item("DJI Live Bridge Camera", DiagnosticLevel::Pass, detail, None)
        },
        ServiceStatus::Starting => item(
            "DJI Live Bridge Camera",
            DiagnosticLevel::Warning,
            or_default_of(&c.detail, "Waiting for macOS approval"),
            Some("Allow the camera extension in System Settings > Privacy & Security."),
        ),
        _ => item(
            "DJI Live Bridge Camera",
            DiagnosticLevel::Warning,
            or_default_of(&c.detail, "Camera extension is unavailable"),
            Some("Use a signed build from /Applications, then enable the virtual camera."),
        ),
    }
}

fn obs_item_of(s: &BridgeSnapshot) -> (i: DiagnosticItem)
    ensures
        i@ == obs_item(*s),
{
    if s.obs.connected {
        let detail = String::from_str("OBS ").concat(
            or_default_of(&s.obs.obs_version, "unknown").as_str(),
        ).concat(" · WebSocket ").concat(
            or_default_of(&s.obs.websocket_version, "unknown").as_str(),
        );
        item("OBS WebSocket", DiagnosticLevel::Pass, detail, None)
    } else {
        item(
            "OBS WebSocket",
            DiagnosticLevel::Warning,
            or_default_of(&s.obs.last_error, "Not connected"),
            Some(
                "Optional: install/start OBS and enable Tools > WebSocket Server Settings on port 4455.",
            ),
        )
    }
}

fn join_device_names(devices: &Vec<crate::audio::AudioInputDevice>) -> (r: String)
    ensures
        r@ == join_names(device_names(devices@)),
{
    let mut r = String::new();
    let mut i: usize = 0;
    while i < devices.len()
        invariant
            i <= devices@.len(),
            r@ == join_names(device_names(devices@.subrange(0, i as int))),
        decreases devices@.len() - i,
    {
        let ghost names = device_names(devices@.subrange(0, i + 1));
        assert(names.drop_last() =~= device_names(devices@.subrange(0, i as int)));
        if i > 0 {
            r = r.concat(", ");
        }
        r = r.concat(devices[i].name.as_str());
        proof {
            if i == 0 {
                assert(names.len() == 1);
                assert(r@ =~= names[0]);
            }
        }
        i = i + 1;
    }
    assert(devices@.subrange(0, i as int) =~= devices@);
    r
}

fn microphone_item_of(s: &BridgeSnapshot) -> (i: DiagnosticItem)
    ensures
        i@ == microphone_item(*s),
{
    if s.audio_inputs.len() == 0 {
        item(
            "Commentary microphone",
            DiagnosticLevel::Warning,
            String::from_str("No CoreAudio input device is currently visible"),
            Some(
                "Connect or enable a microphone. macOS will request Microphone permission only when built-in commentary capture is used.",
            ),
        )
    } else {
        item(
            "Commentary microphone",
            DiagnosticLevel::Pass,
            join_device_names(&s.audio_inputs),
            None,
        )
    }
}

fn tiktok_item_of(installed: bool) -> (i: DiagnosticItem)
    ensures
        i@ == tiktok_item(installed),
{
    if installed {
        item(
            "TikTok LIVE Studio",
            DiagnosticLevel::Pass,
            String::from_str("macOS application found in /Applications"),
            None,
        )
    } else {
        item(
            "TikTok LIVE Studio",
            DiagnosticLevel::Warning,
            String::from_str("macOS application is not installed"),
            Some("Open the current official TikTok download page from the destination panel."),
        )
    }
}

/// The readiness checklist for the current snapshot and FFmpeg. `arch` is
/// the CPU architecture the app was built for; `tiktok_installed` whether
/// TikTok LIVE Studio is in /Applications.
pub fn collect(
    snapshot: &BridgeSnapshot,
    ffmpeg: &FfmpegCapabilities,
    arch: &str,
    tiktok_installed: bool,
) -> (items: Vec<DiagnosticItem>)
    ensures
        item_views(items@) == diagnostics(*snapshot, *ffmpeg, arch@, tiktok_installed),
{
    let mut items: Vec<DiagnosticItem> = Vec::new();
    items.push(
        item(
            "macOS / architecture",
            DiagnosticLevel::Pass,
            String::from_str("macOS ").concat(arch),
            None,
        ),
    );
    items.push(lan_item_of(snapshot));
    items.push(mediamtx_item_of(snapshot.media_mtx));
    items.push(publisher_item_of(snapshot.publisher_present));
    items.push(ffmpeg_item_of(ffmpeg));
    items.push(production_item_of(ffmpeg));
    items.push(route_item_of(snapshot));
    items.push(camera_item_of(snapshot));
    items.push(obs_item_of(snapshot));
    items.push(microphone_item_of(snapshot));
    items.push(tiktok_item_of(tiktok_installed));
    assert(item_views(items@) =~= diagnostics(*snapshot, *ffmpeg, arch@, tiktok_installed));
    items
}

} // verus!
