use vstd::prelude::*;
use crate::audio::AudioInputDevice;
use crate::config::{ProductionEngine, RtmpDestinationKind};
use crate::error::ErrorPayload;
use crate::network::NetworkInterface;
use crate::process::ProcessSnapshot;
use crate::virtual_camera::{uninstalled_camera, VirtualCameraState};

verus! {

/// The stages the bridge moves through, from start-up to going live.
#[derive(Debug, Clone, Copy, PartialEq, Eq, Structural)]
pub enum WorkflowState {
    Idle,
    Preparing,
    WaitingForDrone,
    DroneConnected,
    PreparingObs,
    Ready,
    GoingLive,
    Live,
    Stopping,
}

/// The edges of the workflow graph; staying in the same state is always allowed.
pub open spec fn spec_can_transition(from: WorkflowState, to: WorkflowState) -> bool {
    from == to || match (from, to) {
        (WorkflowState::Idle, WorkflowState::Preparing) => true,
        (WorkflowState::Preparing, WorkflowState::WaitingForDrone) => true,
        (WorkflowState::WaitingForDrone, WorkflowState::DroneConnected) => true,
        (WorkflowState::DroneConnected, WorkflowState::WaitingForDrone) => true,
        (WorkflowState::DroneConnected, WorkflowState::PreparingObs) => true,
        (WorkflowState::PreparingObs, WorkflowState::DroneConnected) => true,
        (WorkflowState::PreparingObs, WorkflowState::Ready) => true,
        (WorkflowState::Ready, WorkflowState::WaitingForDrone) => true,
        (WorkflowState::Ready, WorkflowState::GoingLive) => true,
        (WorkflowState::GoingLive, WorkflowState::Ready) => true,
        (WorkflowState::GoingLive, WorkflowState::Live) => true,
        (WorkflowState::Live, WorkflowState::Stopping) => true,
        (WorkflowState::Stopping, WorkflowState::Ready) => true,
        (WorkflowState::Ready, WorkflowState::Stopping) => true,
        (WorkflowState::DroneConnected, WorkflowState::Stopping) => true,
        (WorkflowState::WaitingForDrone, WorkflowState::Stopping) => true,
        (WorkflowState::Preparing, WorkflowState::Stopping) => true,
        (WorkflowState::Stopping, WorkflowState::Idle) => true,
        _ => false,
    }
}

/// Streaming starts only through START LIVE: the workflow reaches `Live`
/// only from `GoingLive`, and `GoingLive` only from `Ready`.
pub proof fn law_live_only_through_going_live(from: WorkflowState)
    ensures
        spec_can_transition(from, WorkflowState::Live) ==> from == WorkflowState::GoingLive
            || from == WorkflowState::Live,
        spec_can_transition(from, WorkflowState::GoingLive) ==> from == WorkflowState::Ready
            || from == WorkflowState::GoingLive,
{
}

/// The workflow graph, state by state: besides staying put, each state may
/// move on exactly to the states listed for it.
pub proof fn law_workflow_successors(from: WorkflowState, to: WorkflowState)
    ensures
        spec_can_transition(from, to) <==> (from == to || match from {
            WorkflowState::Idle => to == WorkflowState::Preparing,
            WorkflowState::Preparing => to == WorkflowState::WaitingForDrone || to
                == WorkflowState::Stopping,
            WorkflowState::WaitingForDrone => to == WorkflowState::DroneConnected || to
                == WorkflowState::Stopping,
            WorkflowState::DroneConnected => to == WorkflowState::WaitingForDrone || to
                == WorkflowState::PreparingObs || to == WorkflowState::Stopping,
            WorkflowState::PreparingObs => to == WorkflowState::DroneConnected || to
                == WorkflowState::Ready,
            WorkflowState::Ready => to == WorkflowState::WaitingForDrone || to
                == WorkflowState::GoingLive || to == WorkflowState::Stopping,
            WorkflowState::GoingLive => to == WorkflowState::Ready || to == WorkflowState::Live,
            WorkflowState::Live => to == WorkflowState::Stopping,
            WorkflowState::Stopping => to == WorkflowState::Ready || to == WorkflowState::Idle,
        }),
{
}

/// A path of states each of which may follow the one before.
pub open spec fn is_walk(path: Seq<WorkflowState>) -> bool {
    forall|i: int| 0 <= i < path.len() - 1 ==> spec_can_transition(#[trigger] path[i], path[i + 1])
}

/// The whole session is possible: from Idle the bridge prepares, waits for the
/// drone, prepares production and becomes Ready, goes live, stops, and comes
/// back to Ready and to Idle.
pub proof fn law_session_walk()
    ensures
        is_walk(
            seq![
                WorkflowState::Idle,
                WorkflowState::Preparing,
                WorkflowState::WaitingForDrone,
                WorkflowState::DroneConnected,
                WorkflowState::PreparingObs,
                WorkflowState::Ready,
                WorkflowState::GoingLive,
                WorkflowState::Live,
                WorkflowState::Stopping,
                WorkflowState::Ready,
                WorkflowState::Stopping,
                WorkflowState::Idle,
            ],
        ),
{
    let path = seq![
        WorkflowState::Idle,
        WorkflowState::Preparing,
        WorkflowState::WaitingForDrone,
        WorkflowState::DroneConnected,
        WorkflowState::PreparingObs,
        WorkflowState::Ready,
        WorkflowState::GoingLive,
        WorkflowState::Live,
        WorkflowState::Stopping,
        WorkflowState::Ready,
        WorkflowState::Stopping,
        WorkflowState::Idle,
    ];
    assert forall|i: int| 0 <= i < path.len() - 1 implies spec_can_transition(
        #[trigger] path[i],
        path[i + 1],
    ) by {
        assert(0 <= i < 11);
    }
}

impl WorkflowState {
    pub fn can_transition_to(self, next: Self) -> (allowed: bool)
        ensures
            allowed == spec_can_transition(self, next),
    {
            let edge = match (self, next) {
            (WorkflowState::Idle, WorkflowState::Preparing) => true,
            (WorkflowState::Preparing, WorkflowState::WaitingForDrone) => true,
            (WorkflowState::WaitingForDrone, WorkflowState::DroneConnected) => true,
            (WorkflowState::DroneConnected, WorkflowState::WaitingForDrone) => true,
            (WorkflowState::DroneConnected, WorkflowState::PreparingObs) => true,
            (WorkflowState::PreparingObs, WorkflowState::DroneConnected) => true,
            (WorkflowState::PreparingObs, WorkflowState::Ready) => true,
            (WorkflowState::Ready, WorkflowState::WaitingForDrone) => true,
            (WorkflowState::Ready, WorkflowState::GoingLive) => true,
            (WorkflowState::GoingLive, WorkflowState::Ready) => true,
            (WorkflowState::GoingLive, WorkflowState::Live) => true,
            (WorkflowState::Live, WorkflowState::Stopping) => true,
            (WorkflowState::Stopping, WorkflowState::Ready) => true,
            (WorkflowState::Ready, WorkflowState::Stopping) => true,
            (WorkflowState::DroneConnected, WorkflowState::Stopping) => true,
            (WorkflowState::WaitingForDrone, WorkflowState::Stopping) => true,
            (WorkflowState::Preparing, WorkflowState::Stopping) => true,
            (WorkflowState::Stopping, WorkflowState::Idle) => true,
            _ => false,
        };
        edge || self == next
    }
}

} // verus!

verus! {

#[derive(Debug, Clone, Copy, PartialEq, Eq, Structural)]
pub enum ServiceStatus {
    Unavailable,
    Starting,
    Ready,
    Failed,
}

#[derive(Debug, Clone, Copy, PartialEq, Eq, Structural)]
pub enum PreviewMode {
    Direct,
    Transcoded,
}

/// What ffprobe and the MediaMTX metrics report about the drone stream. The
/// frame rate is a float and is kept by the caller.
#[derive(Debug, Clone)]
pub struct StreamMetadata {
    pub resolution: Option<String>,
    pub video_codec: Option<String>,
    pub audio_codec: Option<String>,
    pub video_bitrate_bps: Option<u64>,
    pub audio_bitrate_bps: Option<u64>,
    pub bitrate_calculated_bps: Option<u64>,
    pub received_bytes: u64,
    pub uptime_seconds: Option<u64>,
}

/// Nothing is known of the stream.
pub open spec fn empty_metadata(m: StreamMetadata) -> bool {
    &&& m.resolution is None
    &&& m.video_codec is None
    &&& m.audio_codec is None
    &&& m.video_bitrate_bps is None
    &&& m.audio_bitrate_bps is None
    &&& m.bitrate_calculated_bps is None
    &&& m.received_bytes == 0
    &&& m.uptime_seconds is None
}

impl Default for StreamMetadata {
    fn default() -> (m: Self)
        ensures
            empty_metadata(m),
    {
        StreamMetadata {
            resolution: None,
            video_codec: None,
            audio_codec: None,
            video_bitrate_bps: None,
            audio_bitrate_bps: None,
            bitrate_calculated_bps: None,
            received_bytes: 0,
            uptime_seconds: None,
        }
    }
}

#[derive(Debug, Clone)]
pub struct PreviewState {
    pub direct_whep_url: String,
    pub fallback_whep_url: String,
    pub mode: PreviewMode,
    pub status: ServiceStatus,
    pub reason_key: Option<String>,
    pub reason: Option<String>,
}

#[derive(Debug, Clone)]
pub struct ObsState {
    pub installed: bool,
    pub running: bool,
    pub connected: bool,
    pub obs_version: Option<String>,
    pub websocket_version: Option<String>,
    pub available_requests: Vec<String>,
    pub scene_ready: bool,
    pub virtual_camera_active: Option<bool>,
    pub stream_active: Option<bool>,
    pub recording_active: Option<bool>,
    pub recording_paused: Option<bool>,
    pub last_recording_path: Option<String>,
    pub last_error: Option<String>,
}

/// Nothing is known of OBS yet.
pub open spec fn unknown_obs(s: ObsState) -> bool {
    &&& !s.installed && !s.running && !s.connected && !s.scene_ready
    &&& s.obs_version is None && s.websocket_version is None
    &&& s.available_requests@.len() == 0
    &&& s.virtual_camera_active is None && s.stream_active is None
    &&& s.recording_active is None && s.recording_paused is None
    &&& s.last_recording_path is None && s.last_error is None
}

impl Default for ObsState {
    fn default() -> (s: Self)
        ensures
            unknown_obs(s),
    {
        ObsState {
            installed: false,
            running: false,
            connected: false,
            obs_version: None,
            websocket_version: None,
            available_requests: Vec::new(),
            scene_ready: false,
            virtual_camera_active: None,
            stream_active: None,
            recording_active: None,
            recording_paused: None,
            last_recording_path: None,
            last_error: None,
        }
    }
}

/// A destination with what MediaMTX last reported about forwarding to it.
#[derive(Debug, Clone)]
pub struct RtmpDestinationState {
    pub id: String,
    pub name: String,
    pub kind: RtmpDestinationKind,
    pub server: String,
    pub enabled: bool,
    pub state: Option<String>,
    pub last_error: Option<String>,
    pub outbound_bytes: u64,
}

#[derive(Debug, Clone)]
pub struct ProductionState {
    pub engine: ProductionEngine,
    pub prepared: bool,
    pub active: bool,
    pub path_status: ServiceStatus,
    pub encoder: Option<String>,
    pub selected_microphone: Option<String>,
    pub forward_state: Option<String>,
    pub forward_error: Option<String>,
    pub outbound_bytes: u64,
    pub recording_active: bool,
    pub recording_path: Option<String>,
    pub destinations: Vec<RtmpDestinationState>,
}

/// The built-in production, never prepared.
pub open spec fn idle_production(s: ProductionState) -> bool {
    &&& s.engine == ProductionEngine::NativeFfmpeg
    &&& !s.prepared && !s.active && !s.recording_active
    &&& s.path_status == ServiceStatus::Unavailable
    &&& s.encoder is None && s.selected_microphone is None
    &&& s.forward_state is None && s.forward_error is None
    &&& s.outbound_bytes == 0
    &&& s.recording_path is None
    &&& s.destinations@.len() == 0
}

impl Default for ProductionState {
    fn default() -> (s: Self)
        ensures
            idle_production(s),
    {
        ProductionState {
            engine: ProductionEngine::NativeFfmpeg,
            prepared: false,
            active: false,
            path_status: ServiceStatus::Unavailable,
            encoder: None,
            selected_microphone: None,
            forward_state: None,
            forward_error: None,
            outbound_bytes: 0,
            recording_active: false,
            recording_path: None,
            destinations: Vec::new(),
        }
    }
}

/// Everything the user interface shows about the bridge.
#[derive(Debug, Clone)]
pub struct BridgeSnapshot {
    pub workflow: WorkflowState,
    pub interfaces: Vec<NetworkInterface>,
    pub selected_interface: Option<String>,
    pub lan_ipv4: Option<String>,
    pub rtmp_url: Option<String>,
    pub ip_change_warning: bool,
    pub media_mtx: ServiceStatus,
    pub publisher_present: bool,
    pub publisher_since_unix_ms: Option<u64>,
    pub metadata: StreamMetadata,
    pub preview: PreviewState,
    pub obs: ObsState,
    pub production: ProductionState,
    pub virtual_camera: VirtualCameraState,
    pub audio_inputs: Vec<AudioInputDevice>,
    pub processes: Vec<ProcessSnapshot>,
    pub last_error: Option<ErrorPayload>,
    pub updated_at_unix_ms: u64,
}

#[verifier::external_type_specification]
#[verifier::external_body]
pub struct ExSystemTime(std::time::SystemTime);

/// Calls `std::time::SystemTime::now`. Nothing is promised about the value:
/// it is the time.
#[verifier::external_body]
fn system_now() -> std::time::SystemTime {
    std::time::SystemTime::now()
}

/// Calls `SystemTime::duration_since(UNIX_EPOCH)` and gives the duration in
/// whole milliseconds (0 when the time is before the epoch). Nothing is
/// promised about the value.
#[verifier::external_body]
fn unix_millis(t: &std::time::SystemTime) -> u64 {
    t.duration_since(std::time::UNIX_EPOCH).unwrap_or_default().as_millis() as u64
}

/// Milliseconds since the Unix epoch by the system clock.
pub(crate) fn now_ms() -> u64 {
    let t = system_now();
    unix_millis(&t)
}

impl Default for BridgeSnapshot {
    fn default() -> (s: Self)
        ensures
            s.workflow == WorkflowState::Idle,
            s.interfaces@.len() == 0,
            s.selected_interface is None && s.lan_ipv4 is None && s.rtmp_url is None,
            !s.ip_change_warning && !s.publisher_present,
            s.media_mtx == ServiceStatus::Unavailable,
            s.publisher_since_unix_ms is None,
            s.preview.direct_whep_url@ == "http://127.0.0.1:8889/drone/whep"@,
            s.preview.fallback_whep_url@ == "http://127.0.0.1:8889/drone-preview/whep"@,
            s.preview.mode == PreviewMode::Direct,
            s.preview.status == ServiceStatus::Unavailable,
            s.preview.reason_key is None && s.preview.reason is None,
            s.audio_inputs@.len() == 0 && s.processes@.len() == 0,
            s.last_error is None,
            empty_metadata(s.metadata),
            unknown_obs(s.obs),
            idle_production(s.production),
            uninstalled_camera(s.virtual_camera),
    {
        BridgeSnapshot {
            workflow: WorkflowState::Idle,
            interfaces: Vec::new(),
            selected_interface: None,
            lan_ipv4: None,
            rtmp_url: None,
            ip_change_warning: false,
            media_mtx: ServiceStatus::Unavailable,
            publisher_present: false,
            publisher_since_unix_ms: None,
            metadata: StreamMetadata::default(),
            preview: PreviewState {
                direct_whep_url: String::from_str("http://127.0.0.1:8889/drone/whep"),
                fallback_whep_url: String::from_str("http://127.0.0.1:8889/drone-preview/whep"),
                mode: PreviewMode::Direct,
                status: ServiceStatus::Unavailable,
                reason_key: None,
                reason: None,
            },
            obs: ObsState::default(),
            production: ProductionState::default(),
            virtual_camera: VirtualCameraState::default(),
            audio_inputs: Vec::new(),
            processes: Vec::new(),
            last_error: None,
            updated_at_unix_ms: now_ms(),
        }
    }
}

} // verus!
