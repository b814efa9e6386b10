//! The decisions of the bridge's workflow: the state machine's moves on the
//! snapshot, what each MediaMTX publisher sample changes, what a lost drone
//! resets, and when the monitor runs each of its checks. The caller performs
//! the I/O each decision asks for and reports what came back.
use vstd::prelude::*;
use crate::error::{BridgeError, ErrorKind};
use crate::live::{clear_destination_runtime, with_runtime};
use crate::state::{
    BridgeSnapshot, ObsState, PreviewMode, PreviewState, ProductionState, ServiceStatus, StreamMetadata,
    WorkflowState, spec_can_transition,
};
use crate::config::{
    AppConfig, FitMode, MicrophoneVolume, OutputLayout, ProductionEngine, RtmpDestinationConfig,
    destination_problem, validate_rtmp_destination, validation,
};
use crate::error::result_matches;
use crate::ffmpeg::{FfmpegCapabilities, NativeProductionSettings};
use crate::mediamtx::ForwardStatus;
use crate::text::eq_str;
use crate::virtual_camera::VirtualCameraState;

verus! {

/// The name `{:?}` gives a workflow state.
pub open spec fn workflow_name(w: WorkflowState) -> Seq<char> {
    match w {
        WorkflowState::Idle => "Idle"@,
        WorkflowState::Preparing => "Preparing"@,
        WorkflowState::WaitingForDrone => "WaitingForDrone"@,
        WorkflowState::DroneConnected => "DroneConnected"@,
        WorkflowState::PreparingObs => "PreparingObs"@,
        WorkflowState::Ready => "Ready"@,
        WorkflowState::GoingLive => "GoingLive"@,
        WorkflowState::Live => "Live"@,
        WorkflowState::Stopping => "Stopping"@,
    }
}

fn workflow_name_of(w: WorkflowState) -> (r: &'static str)
    ensures
        r@ == workflow_name(w),
{
    match w {
        WorkflowState::Idle => "Idle",
        WorkflowState::Preparing => "Preparing",
        WorkflowState::WaitingForDrone => "WaitingForDrone",
        WorkflowState::DroneConnected => "DroneConnected",
        WorkflowState::PreparingObs => "PreparingObs",
        WorkflowState::Ready => "Ready",
        WorkflowState::GoingLive => "GoingLive",
        WorkflowState::Live => "Live",
        WorkflowState::Stopping => "Stopping",
    }
}

/// Moves the workflow to `next` where the workflow graph allows it, and
/// clears the last error; otherwise changes nothing and names the refused
/// move.
pub fn transition(snapshot: &mut BridgeSnapshot, next: WorkflowState) -> (r: Result<(), BridgeError>)
    ensures
        spec_can_transition(old(snapshot).workflow, next) ==> r is Ok && *final(snapshot) == (
        BridgeSnapshot { workflow: next, last_error: None, ..*old(snapshot) }),
        !spec_can_transition(old(snapshot).workflow, next) ==> (r matches Err(e) && e@ == (
            ErrorKind::InvalidTransition,
            workflow_name(old(snapshot).workflow) + " -> "@ + workflow_name(next),
        )) && *final(snapshot) == *old(snapshot),
{
    let current = snapshot.workflow;
    if !current.can_transition_to(next) {
        return Err(
            BridgeError::InvalidTransition(
                String::from_str(workflow_name_of(current)).concat(" -> ").concat(
                    workflow_name_of(next),
                ),
            ),
        );
    }
    snapshot.workflow = next;
    snapshot.last_error = None;
    Ok(())
}

/// What MediaMTX reports about the `/drone` path: whether a publisher is
/// ready, since when (Unix ms) and the bytes received so far, with the
/// bitrate measured between two samples.
#[derive(Debug, Clone)]
pub struct PublisherSample {
    pub present: bool,
    pub ready_since_unix_ms: Option<u64>,
    pub metadata: StreamMetadata,
}

/// How a sample changed the drone's presence.
#[derive(Debug, Clone, Copy, PartialEq, Eq, Structural)]
pub enum PublisherChange {
    Unchanged,
    Connected,
    /// The drone left; `was_live` when the workflow was live at that moment.
    Disconnected { was_live: bool },
}

/// Since when the publisher counts as present: MediaMTX's ready time, else
/// the time already known, else now; nothing without a publisher.
pub open spec fn publisher_since(present: bool, reported: Option<u64>, known: Option<u64>, now_ms: u64) -> Option<u64> {
    match reported {
        Some(t) => Some(t),
        None => if present {
            match known {
                Some(t) => Some(t),
                None => Some(now_ms),
            }
        } else {
            None
        },
    }
}

/// Whole seconds from `since` to `now` (none before `since`).
pub open spec fn uptime(since: Option<u64>, now_ms: u64) -> Option<u64> {
    match since {
        Some(s) => Some((if now_ms >= s {
            (now_ms - s) as u64
        } else {
            0u64
        }) / 1000),
        None => None,
    }
}

/// The drone's start time: MediaMTX's ready time when it gives one; else,
/// while the drone stays, the time already known does not move, and a newly
/// seen drone starts now; a drone that is gone has none. Its uptime is the
/// whole seconds since then, never negative.
pub proof fn law_publisher_since(present: bool, reported: Option<u64>, known: Option<u64>, now_ms: u64)
    ensures
        reported matches Some(t) ==> publisher_since(present, reported, known, now_ms) == Some(t),
        reported is None && !present ==> publisher_since(present, reported, known, now_ms) is None,
        reported is None && present && known is Some ==> publisher_since(present, reported, known, now_ms)
            == known,
        reported is None && present && known is None ==> publisher_since(present, reported, known, now_ms)
            == Some(now_ms),
        forall|t: u64| #![auto] t <= now_ms ==> uptime(Some(t), now_ms) == Some(((now_ms - t) / 1000) as u64),
        forall|t: u64| #![auto] t > now_ms ==> uptime(Some(t), now_ms) == Some(0u64),
        uptime(None, now_ms) is None,
{
}

pub open spec fn publisher_change(was_present: bool, present: bool, was_live: bool) -> PublisherChange {
    if present && !was_present {
        PublisherChange::Connected
    } else if !present && was_present {
        PublisherChange::Disconnected { was_live }
    } else {
        PublisherChange::Unchanged
    }
}

/// The snapshot once a sample taken at `now_ms` (Unix ms) is recorded:
/// MediaMTX answers, so it is ready; the drone's presence, since when, the
/// bytes and bitrate and the uptime follow the sample.
pub open spec fn sample_applied(s: BridgeSnapshot, sample: PublisherSample, now_ms: u64) -> BridgeSnapshot {
    let since = publisher_since(
        sample.present,
        sample.ready_since_unix_ms,
        s.publisher_since_unix_ms,
        now_ms,
    );
    BridgeSnapshot {
        media_mtx: ServiceStatus::Ready,
        publisher_present: sample.present,
        publisher_since_unix_ms: since,
        metadata: StreamMetadata {
            received_bytes: sample.metadata.received_bytes,
            bitrate_calculated_bps: sample.metadata.bitrate_calculated_bps,
            uptime_seconds: uptime(since, now_ms),
            ..s.metadata
        },
        ..s
    }
}

/// Records a publisher sample taken at `now_ms` (Unix ms): MediaMTX answers,
/// so it is ready; the drone's presence, since when, the bytes and bitrate
/// and the uptime follow the sample. Says whether the drone arrived or left.
pub fn apply_publisher_sample(snapshot: &mut BridgeSnapshot, sample: &PublisherSample, now_ms: u64) -> (change: PublisherChange)
    ensures
        change == publisher_change(
            old(snapshot).publisher_present,
            sample.present,
            old(snapshot).workflow == WorkflowState::Live,
        ),
        *final(snapshot) == sample_applied(*old(snapshot), *sample, now_ms),
{
    let was_present = snapshot.publisher_present;
    let was_live = snapshot.workflow == WorkflowState::Live;
    let since = match sample.ready_since_unix_ms {
        Some(t) => Some(t),
        None => if sample.present {
            match snapshot.publisher_since_unix_ms {
                Some(t) => Some(t),
                None => Some(now_ms),
            }
        } else {
            None
        },
    };
    snapshot.media_mtx = ServiceStatus::Ready;
    snapshot.publisher_present = sample.present;
    snapshot.publisher_since_unix_ms = since;
    snapshot.metadata.received_bytes = sample.metadata.received_bytes;
    snapshot.metadata.bitrate_calculated_bps = sample.metadata.bitrate_calculated_bps;
    snapshot.metadata.uptime_seconds = match since {
        Some(s) => Some(now_ms.saturating_sub(s) / 1000),
        None => None,
    };
    if sample.present && !was_present {
        PublisherChange::Connected
    } else if !sample.present && was_present {
        PublisherChange::Disconnected { was_live }
    } else {
        PublisherChange::Unchanged
    }
}

/// A failed sample: MediaMTX counts as failed, with the error shown.
pub fn publisher_sample_failed(snapshot: &mut BridgeSnapshot, error: BridgeError)
    ensures
        final(snapshot).media_mtx == ServiceStatus::Failed,
        final(snapshot).last_error matches Some(p) && p.detail@ == crate::redact::spec_redact(
            crate::error::error_text(error@),
        ) && p.code@ == crate::error::error_code(error@.0),
        *final(snapshot) == (BridgeSnapshot {
            media_mtx: ServiceStatus::Failed,
            last_error: final(snapshot).last_error,
            ..*old(snapshot)
        }),
{
    snapshot.media_mtx = ServiceStatus::Failed;
    snapshot.last_error = Some(crate::error::ErrorPayload::from(error));
}

/// What the snapshot `t` is once the drone is gone from `s`: back to waiting
/// for it, the preview and metadata forgotten, the live route and its reports
/// cleared, recording and the camera feed stopped. Everything else stays.
pub open spec fn disconnect_reset(s: BridgeSnapshot, t: BridgeSnapshot) -> bool {
    &&& t.workflow == WorkflowState::WaitingForDrone
    &&& t.preview.status == ServiceStatus::Unavailable
    &&& t.preview.mode == PreviewMode::Direct
    &&& t.preview.reason_key is None
    &&& t.preview.reason is None
    &&& t.preview.direct_whep_url == s.preview.direct_whep_url
    &&& t.preview.fallback_whep_url == s.preview.fallback_whep_url
    &&& t.metadata.resolution is None
    &&& t.metadata.video_codec is None
    &&& t.metadata.audio_codec is None
    &&& t.metadata.video_bitrate_bps is None
    &&& t.metadata.audio_bitrate_bps is None
    &&& t.metadata.bitrate_calculated_bps is None
    &&& t.metadata.received_bytes == 0
    &&& t.metadata.uptime_seconds is None
    &&& t.obs == (ObsState { stream_active: Some(false), ..s.obs })
    &&& !t.production.active
    &&& !t.production.prepared
    &&& t.production.path_status == ServiceStatus::Unavailable
    &&& t.production.forward_state is None
    &&& t.production.forward_error is None
    &&& t.production.outbound_bytes == 0
    &&& !t.production.recording_active
    &&& t.production.engine == s.production.engine
    &&& t.production.encoder == s.production.encoder
    &&& t.production.selected_microphone == s.production.selected_microphone
    &&& t.production.recording_path == s.production.recording_path
    &&& t.production.destinations@.len() == s.production.destinations@.len()
    &&& forall|j: int|
        0 <= j < s.production.destinations@.len() ==> with_runtime(
            s.production.destinations@[j],
            #[trigger] t.production.destinations@[j],
            (None, None, 0),
        )
    &&& t.virtual_camera == (crate::virtual_camera::VirtualCameraState {
        feed_active: false,
        ..s.virtual_camera
    })
    &&& t == (BridgeSnapshot {
        workflow: WorkflowState::WaitingForDrone,
        preview: t.preview,
        metadata: t.metadata,
        obs: t.obs,
        production: t.production,
        virtual_camera: t.virtual_camera,
        ..s
    })
}

/// Once the drone is gone, the snapshot is reset as `disconnect_reset` says.
pub fn reset_after_disconnect(snapshot: &mut BridgeSnapshot)
    ensures
        disconnect_reset(*old(snapshot), *final(snapshot)),
{
    snapshot.workflow = WorkflowState::WaitingForDrone;
    snapshot.preview.status = ServiceStatus::Unavailable;
    snapshot.preview.mode = PreviewMode::Direct;
    snapshot.preview.reason_key = None;
    snapshot.preview.reason = None;
    snapshot.metadata = StreamMetadata::default();
    snapshot.obs.stream_active = Some(false);
    snapshot.production.active = false;
    snapshot.production.prepared = false;
    snapshot.production.path_status = ServiceStatus::Unavailable;
    snapshot.production.forward_state = None;
    snapshot.production.forward_error = None;
    snapshot.production.outbound_bytes = 0;
    clear_destination_runtime(&mut snapshot.production.destinations);
    snapshot.production.recording_active = false;
    snapshot.virtual_camera.feed_active = false;
}

/// A fresh ffprobe description replaces the stream's metadata, except for
/// what the publisher samples measure: received bytes, bitrate and uptime.
pub fn merge_probed_metadata(current: &mut StreamMetadata, probed: StreamMetadata)
    ensures
        *final(current) == (StreamMetadata {
            received_bytes: old(current).received_bytes,
            bitrate_calculated_bps: old(current).bitrate_calculated_bps,
            uptime_seconds: old(current).uptime_seconds,
            ..probed
        }),
{
    let received = current.received_bytes;
    let calculated = current.bitrate_calculated_bps;
    let uptime = current.uptime_seconds;
    *current = probed;
    current.received_bytes = received;
    current.bitrate_calculated_bps = calculated;
    current.uptime_seconds = uptime;
}

/// OBS could not be inspected: what is known of the installation is kept,
/// it counts as disconnected, with the error shown.
pub fn obs_unreachable(obs: &mut ObsState, installed: bool, running: bool, error: String)
    ensures
        *final(obs) == (ObsState {
            installed,
            running,
            connected: false,
            last_error: Some(error),
            ..*old(obs)
        }),
{
    obs.installed = installed;
    obs.running = running;
    obs.connected = false;
    obs.last_error = Some(error);
}

pub const PUBLISHER_INTERVAL_MS: u64 = 2_000;
pub const NETWORK_INTERVAL_MS: u64 = 5_000;
pub const AUDIO_INTERVAL_MS: u64 = 10_000;
pub const METADATA_INTERVAL_MS: u64 = 30_000;
pub const PRODUCTION_INTERVAL_MS: u64 = 2_000;
/// The camera is checked every 2 s while macOS approval is pending, else every 30 s.
pub const CAMERA_PENDING_INTERVAL_MS: u64 = 2_000;
pub const CAMERA_INTERVAL_MS: u64 = 30_000;
/// OBS is retried after 2 s, doubling on each failure up to 30 s, and polled
/// every 5 s once it answers.
pub const OBS_FIRST_BACKOFF_MS: u64 = 2_000;
pub const OBS_MAX_BACKOFF_MS: u64 = 30_000;
pub const OBS_POLL_MS: u64 = 5_000;

/// The wait before OBS is looked at again: 5 s once it answers, else twice
/// the last wait, at most 30 s.
pub open spec fn next_obs_backoff(current: u64, answered: bool) -> u64 {
    if answered {
        OBS_POLL_MS
    } else if current <= OBS_MAX_BACKOFF_MS / 2 {
        (current * 2) as u64
    } else {
        OBS_MAX_BACKOFF_MS
    }
}

/// The wait before OBS is looked at again never exceeds 30 s, never
/// shrinks while OBS stays unreachable, and starts over at 5 s once it
/// answers.
pub proof fn law_obs_backoff(current: u64, answered: bool)
    requires
        current <= OBS_MAX_BACKOFF_MS,
    ensures
        next_obs_backoff(current, answered) <= OBS_MAX_BACKOFF_MS,
        !answered ==> next_obs_backoff(current, answered) >= current,
        answered ==> next_obs_backoff(current, answered) == OBS_POLL_MS,
{
}

/// When each of the monitor's checks last ran, on a monotonic clock in ms;
/// `None` for a check that has not run yet and is due at once.
#[derive(Debug, Clone)]
pub struct MonitorSchedule {
    pub network_at: Option<u64>,
    pub audio_at: Option<u64>,
    pub publisher_at: Option<u64>,
    pub metadata_at: Option<u64>,
    pub production_at: Option<u64>,
    pub camera_at: Option<u64>,
    pub obs_at: Option<u64>,
    pub obs_backoff_ms: u64,
    /// The next metadata probe comes this much sooner than its interval
    /// (set when the drone connects, so the first probe follows quickly).
    pub metadata_head_start_ms: u64,
}

/// `interval` has passed since `at` (always, for a check that never ran).
pub open spec fn elapsed(at: Option<u64>, now: u64, interval: u64) -> bool {
    match at {
        Some(t) => now >= t && now - t >= interval,
        None => true,
    }
}

fn elapsed_exec(at: Option<u64>, now: u64, interval: u64) -> (b: bool)
    ensures
        b == elapsed(at, now, interval),
{
    match at {
        Some(t) => now >= t && now - t >= interval,
        None => true,
    }
}

/// The checks that are due on one tick of the monitor.
#[derive(Debug, Clone, Copy, PartialEq, Eq, Structural)]
pub struct DueChecks {
    pub network: bool,
    pub audio: bool,
    pub publisher: bool,
    pub production: bool,
    pub camera: bool,
    pub obs: bool,
}

pub open spec fn camera_interval(status: ServiceStatus) -> u64 {
    if status == ServiceStatus::Starting {
        CAMERA_PENDING_INTERVAL_MS
    } else {
        CAMERA_INTERVAL_MS
    }
}

impl MonitorSchedule {
    /// The schedule when the monitor starts at `now`: the publisher, audio
    /// and camera checks are due at once; the network, metadata, production
    /// and OBS checks wait for their first interval.
    pub fn new(now: u64) -> (s: Self)
        ensures
            s.network_at == Some(now),
            s.audio_at is None,
            s.publisher_at is None,
            s.metadata_at == Some(now),
            s.production_at == Some(now),
            s.camera_at is None,
            s.obs_at == Some(now),
            s.obs_backoff_ms == OBS_FIRST_BACKOFF_MS,
            s.metadata_head_start_ms == 0,
            obs_backoff_ok(s.obs_backoff_ms),
    {
        MonitorSchedule {
            network_at: Some(now),
            audio_at: None,
            publisher_at: None,
            metadata_at: Some(now),
            production_at: Some(now),
            camera_at: None,
            obs_at: Some(now),
            obs_backoff_ms: OBS_FIRST_BACKOFF_MS,
            metadata_head_start_ms: 0,
        }
    }

    /// Which checks are due at `now`; the camera's interval depends on its
    /// status, and OBS is only watched once the user has asked for it.
    pub fn due(&self, now: u64, camera_status: ServiceStatus, obs_monitoring: bool) -> (d: DueChecks)
        ensures
            d == (DueChecks {
                network: elapsed(self.network_at, now, NETWORK_INTERVAL_MS),
                audio: elapsed(self.audio_at, now, AUDIO_INTERVAL_MS),
                publisher: elapsed(self.publisher_at, now, PUBLISHER_INTERVAL_MS),
                production: elapsed(self.production_at, now, PRODUCTION_INTERVAL_MS),
                camera: elapsed(self.camera_at, now, camera_interval(camera_status)),
                obs: obs_monitoring && elapsed(self.obs_at, now, self.obs_backoff_ms),
            }),
    {
        let camera = if camera_status == ServiceStatus::Starting {
            CAMERA_PENDING_INTERVAL_MS
        } else {
            CAMERA_INTERVAL_MS
        };
        DueChecks {
            network: elapsed_exec(self.network_at, now, NETWORK_INTERVAL_MS),
            audio: elapsed_exec(self.audio_at, now, AUDIO_INTERVAL_MS),
            publisher: elapsed_exec(self.publisher_at, now, PUBLISHER_INTERVAL_MS),
            production: elapsed_exec(self.production_at, now, PRODUCTION_INTERVAL_MS),
            camera: elapsed_exec(self.camera_at, now, camera),
            obs: obs_monitoring && elapsed_exec(self.obs_at, now, self.obs_backoff_ms),
        }
    }

    /// The metadata probe is due: the drone is there and the interval (less
    /// any head start) has passed.
    pub fn metadata_due(&self, now: u64, publisher_present: bool) -> (due: bool)
        ensures
            due == (publisher_present && elapsed(
                self.metadata_at,
                now,
                if self.metadata_head_start_ms <= METADATA_INTERVAL_MS {
                    (METADATA_INTERVAL_MS - self.metadata_head_start_ms) as u64
                } else {
                    0u64
                },
            )),
    {
        let interval = if self.metadata_head_start_ms <= METADATA_INTERVAL_MS {
            METADATA_INTERVAL_MS - self.metadata_head_start_ms
        } else {
            0
        };
        publisher_present && elapsed_exec(self.metadata_at, now, interval)
    }

    /// The drone connected at `now`: the metadata probe follows within 2 s.
    pub fn drone_connected(&mut self, now: u64)
        ensures
            *final(self) == (MonitorSchedule {
                metadata_at: Some(now),
                metadata_head_start_ms: 28_000,
                ..*old(self)
            }),
    {
        self.metadata_at = Some(now);
        self.metadata_head_start_ms = 28_000;
    }

    /// The metadata probe ran at `now`.
    pub fn metadata_probed(&mut self, now: u64)
        ensures
            *final(self) == (MonitorSchedule {
                metadata_at: Some(now),
                metadata_head_start_ms: 0,
                ..*old(self)
            }),
    {
        self.metadata_at = Some(now);
        self.metadata_head_start_ms = 0;
    }

    /// The checks in `ran` ran at `now`.
    pub fn ran(&mut self, ran: DueChecks, now: u64)
        ensures
            final(self).network_at == (if ran.network {
                Some(now)
            } else {
                old(self).network_at
            }),
            final(self).audio_at == (if ran.audio {
                Some(now)
            } else {
                old(self).audio_at
            }),
            final(self).publisher_at == (if ran.publisher {
                Some(now)
            } else {
                old(self).publisher_at
            }),
            final(self).production_at == (if ran.production {
                Some(now)
            } else {
                old(self).production_at
            }),
            final(self).camera_at == (if ran.camera {
                Some(now)
            } else {
                old(self).camera_at
            }),
            final(self).obs_at == (if ran.obs {
                Some(now)
            } else {
                old(self).obs_at
            }),
            final(self).metadata_at == old(self).metadata_at,
            final(self).metadata_head_start_ms == old(self).metadata_head_start_ms,
            final(self).obs_backoff_ms == old(self).obs_backoff_ms,
    {
        if ran.network {
            self.network_at = Some(now);
        }
        if ran.audio {
            self.audio_at = Some(now);
        }
        if ran.publisher {
            self.publisher_at = Some(now);
        }
        if ran.production {
            self.production_at = Some(now);
        }
        if ran.camera {
            self.camera_at = Some(now);
        }
        if ran.obs {
            self.obs_at = Some(now);
        }
    }

    /// OBS answered (poll every 5 s) or did not (wait twice as long, at most
    /// 30 s).
    pub fn obs_result(&mut self, answered: bool)
        ensures
            final(self).obs_backoff_ms == next_obs_backoff(old(self).obs_backoff_ms, answered),
            *final(self) == (MonitorSchedule {
                obs_backoff_ms: final(self).obs_backoff_ms,
                ..*old(self)
            }),
            obs_backoff_ok(old(self).obs_backoff_ms) ==> obs_backoff_ok(final(self).obs_backoff_ms),
    {
        self.obs_backoff_ms = if answered {
            OBS_POLL_MS
        } else if self.obs_backoff_ms <= OBS_MAX_BACKOFF_MS / 2 {
            self.obs_backoff_ms * 2
        } else {
            OBS_MAX_BACKOFF_MS
        };
    }

    /// OBS was looked at on the tick at `now`: what it said, or that it could
    /// not be reached, goes into `obs`, and the next look waits as
    /// `after_obs_check` says.
    pub fn obs_checked(&mut self, obs: &mut ObsState, now: u64, inspection: ObsInspection)
        ensures
            *final(self) == after_obs_check(*old(self), now, inspection is Answered),
            obs_backoff_ok(old(self).obs_backoff_ms) ==> obs_backoff_ok(final(self).obs_backoff_ms),
            match inspection {
                ObsInspection::Answered(state) => *final(obs) == state,
                ObsInspection::Unreachable { installed, running, error } => *final(obs) == (ObsState {
                    installed,
                    running,
                    connected: false,
                    last_error: Some(error),
                    ..*old(obs)
                }),
            },
    {
        let answered = match inspection {
            ObsInspection::Answered(state) => {
                *obs = state;
                true
            },
            ObsInspection::Unreachable { installed, running, error } => {
                obs_unreachable(obs, installed, running, error);
                false
            },
        };
        self.obs_result(answered);
        self.obs_at = Some(now);
    }
}

/// What looking at OBS gave: its state, or, when it could not be reached,
/// what is known of its installation and the error.
#[derive(Debug, Clone)]
pub enum ObsInspection {
    Answered(ObsState),
    Unreachable { installed: bool, running: bool, error: String },
}

/// The wait before OBS is looked at again lies between the first wait (2 s)
/// and the longest (30 s).
pub open spec fn obs_backoff_ok(backoff: u64) -> bool {
    OBS_FIRST_BACKOFF_MS <= backoff <= OBS_MAX_BACKOFF_MS
}

/// The schedule once OBS was looked at on the tick at `now`.
pub open spec fn after_obs_check(s: MonitorSchedule, now: u64, answered: bool) -> MonitorSchedule {
    MonitorSchedule {
        obs_at: Some(now),
        obs_backoff_ms: next_obs_backoff(s.obs_backoff_ms, answered),
        ..s
    }
}

/// OBS polling: once OBS was looked at, at `now`, it is looked at again on
/// the first tick at which the wait has passed; that wait is 5 s after an
/// answer and twice the last wait, at most 30 s, after a failure, and it
/// stays between 2 s and 30 s.
pub proof fn law_obs_polling(s: MonitorSchedule, now: u64, answered: bool, later: u64)
    requires
        obs_backoff_ok(s.obs_backoff_ms),
        now <= later,
    ensures
        ({
            let t = after_obs_check(s, now, answered);
            &&& obs_backoff_ok(t.obs_backoff_ms)
            &&& answered ==> t.obs_backoff_ms == OBS_POLL_MS
            &&& !answered ==> t.obs_backoff_ms == (if 2 * s.obs_backoff_ms <= OBS_MAX_BACKOFF_MS {
                2 * s.obs_backoff_ms
            } else {
                OBS_MAX_BACKOFF_MS as int
            })
            &&& elapsed(t.obs_at, later, t.obs_backoff_ms) <==> later - now >= t.obs_backoff_ms
        }),
{
}


/// Why the live route cannot start from this workflow and configuration,
/// before any stream key is read: not Ready, or no destination enabled.
pub open spec fn live_start_problem(workflow: WorkflowState, config: AppConfig) -> Option<(ErrorKind, Seq<char>)> {
    if workflow != WorkflowState::Ready {
        Some((ErrorKind::InvalidTransition, "START LIVE requires the Ready state"@))
    } else if enabled_of(config.rtmp_destinations@).len() == 0 {
        Some((ErrorKind::Validation, "Enable at least one RTMP destination before starting"@))
    } else {
        None
    }
}

/// The enabled destinations, in their stored order.
pub open spec fn enabled_of(ds: Seq<RtmpDestinationConfig>) -> Seq<RtmpDestinationConfig>
    decreases ds.len(),
{
    if ds.len() == 0 {
        seq![]
    } else if ds.last().enabled {
        enabled_of(ds.drop_last()).push(ds.last())
    } else {
        enabled_of(ds.drop_last())
    }
}

/// The destinations START LIVE uses are exactly the enabled ones: each of
/// them is an enabled destination of the list, and each enabled destination
/// of the list is among them.
pub proof fn law_enabled_of(ds: Seq<RtmpDestinationConfig>)
    ensures
        enabled_of(ds).len() <= ds.len(),
        forall|i: int| 0 <= i < enabled_of(ds).len() ==> (#[trigger] enabled_of(ds)[i]).enabled
            && ds.contains(enabled_of(ds)[i]),
        forall|j: int| 0 <= j < ds.len() && (#[trigger] ds[j]).enabled ==> enabled_of(ds).contains(ds[j]),
    decreases ds.len(),
{
    if ds.len() > 0 {
        let rest = ds.drop_last();
        law_enabled_of(rest);
        assert forall|i: int| 0 <= i < enabled_of(ds).len() implies (#[trigger] enabled_of(ds)[i]).enabled
            && ds.contains(enabled_of(ds)[i]) by {
            if i < enabled_of(rest).len() {
                assert(enabled_of(ds)[i] == enabled_of(rest)[i]);
                let k = choose|k: int| 0 <= k < rest.len() && rest[k] == enabled_of(rest)[i];
                assert(ds[k] == rest[k]);
            } else {
                assert(ds[ds.len() - 1] == ds.last());
            }
        }
        assert forall|j: int| 0 <= j < ds.len() && (#[trigger] ds[j]).enabled implies enabled_of(
            ds,
        ).contains(ds[j]) by {
            if j < ds.len() - 1 {
                assert(rest[j] == ds[j]);
                let k = choose|k: int| 0 <= k < enabled_of(rest).len() && enabled_of(rest)[k] == rest[j];
                if ds.last().enabled {
                    assert(enabled_of(ds)[k] == enabled_of(rest)[k]);
                }
            } else {
                assert(enabled_of(ds)[enabled_of(ds).len() - 1] == ds.last());
            }
        }
    }
}

/// START LIVE may begin exactly when the workflow is Ready and at least one
/// destination is enabled.
pub proof fn law_live_start(workflow: WorkflowState, config: AppConfig)
    ensures
        live_start_problem(workflow, config) is None <==> (workflow == WorkflowState::Ready
            && exists|j: int|
            0 <= j < config.rtmp_destinations@.len()
                && (#[trigger] config.rtmp_destinations@[j]).enabled),
{
    let ds = config.rtmp_destinations@;
    law_enabled_of(ds);
    if exists|j: int| 0 <= j < ds.len() && (#[trigger] ds[j]).enabled {
        let j = choose|j: int| 0 <= j < ds.len() && (#[trigger] ds[j]).enabled;
        assert(enabled_of(ds).contains(ds[j]));
    }
    if enabled_of(ds).len() > 0 {
        assert(enabled_of(ds)[0].enabled);
        let k = choose|k: int| 0 <= k < ds.len() && ds[k] == enabled_of(ds)[0];
        assert(ds[k].enabled);
    }
}

/// The enabled destinations to go live with, once the workflow is Ready and
/// at least one is enabled.
pub fn live_start_destinations(workflow: WorkflowState, config: &AppConfig) -> (r: Result<
    Vec<RtmpDestinationConfig>,
    BridgeError,
>)
    ensures
        result_matches(r, live_start_problem(workflow, *config)),
        r matches Ok(ds) ==> ds@ == enabled_of(config.rtmp_destinations@),
{
    if workflow != WorkflowState::Ready {
        return Err(
            BridgeError::InvalidTransition(String::from_str("START LIVE requires the Ready state")),
        );
    }
    let all = &config.rtmp_destinations;
    let mut enabled: Vec<RtmpDestinationConfig> = Vec::new();
    let mut i: usize = 0;
    while i < all.len()
        invariant
            i <= all@.len(),
            enabled@ == enabled_of(all@.subrange(0, i as int)),
        decreases all@.len() - i,
    {
        assert(all@.subrange(0, i + 1).drop_last() =~= all@.subrange(0, i as int));
        if all[i].enabled {
            enabled.push(all[i].duplicate());
        }
        i = i + 1;
    }
    assert(all@.subrange(0, all@.len() as int) =~= all@);
    if enabled.len() == 0 {
        return Err(
            BridgeError::Validation(
                String::from_str("Enable at least one RTMP destination before starting"),
            ),
        );
    }
    Ok(enabled)
}

/// What is wrong with one destination and the key read for it (`None`
/// when the keychain had none).
pub open spec fn keyed_problem(d: RtmpDestinationConfig, key: Option<String>) -> Option<(ErrorKind, Seq<char>)> {
    match key {
        None => Some(
            (ErrorKind::Config, "Stream key is missing for destination '"@ + d.name@ + "'"@),
        ),
        Some(k) => validation(destination_problem(d.server@, k@)),
    }
}

/// The first problem among the first `n` destinations, in order.
pub open spec fn keyed_problems(ds: Seq<RtmpDestinationConfig>, keys: Seq<Option<String>>, n: int) -> Option<(ErrorKind, Seq<char>)>
    decreases n,
{
    if n <= 0 {
        None
    } else {
        match keyed_problems(ds, keys, n - 1) {
            Some(e) => Some(e),
            None => keyed_problem(ds[n - 1], keys[n - 1]),
        }
    }
}

pub open spec fn live_destinations_problem(
    ds: Seq<RtmpDestinationConfig>,
    keys: Seq<Option<String>>,
    engine: ProductionEngine,
) -> Option<(ErrorKind, Seq<char>)> {
    match keyed_problems(ds, keys, ds.len() as int) {
        Some(e) => Some(e),
        None => if engine == ProductionEngine::Obs && ds.len() > 1 {
            Some(
                (
                    ErrorKind::Validation,
                    "OBS streaming supports one RTMP destination here; use built-in production for multi-stream"@,
                ),
            )
        } else {
            None
        },
    }
}

proof fn lemma_first_problem(ds: Seq<RtmpDestinationConfig>, ks: Seq<Option<String>>, i: int, m: int)
    requires
        0 <= i < m,
        keyed_problems(ds, ks, i) is None,
        keyed_problem(ds[i], ks[i]) is Some,
    ensures
        keyed_problems(ds, ks, m) == keyed_problem(ds[i], ks[i]),
    decreases m,
{
    if m > i + 1 {
        lemma_first_problem(ds, ks, i, m - 1);
    }
}

proof fn lemma_keyed_none(ds: Seq<RtmpDestinationConfig>, ks: Seq<Option<String>>, n: int)
    requires
        0 <= n <= ds.len(),
        ks.len() == ds.len(),
    ensures
        keyed_problems(ds, ks, n) is None <==> forall|i: int|
            0 <= i < n ==> (#[trigger] ks[i] matches Some(k) && destination_problem(ds[i].server@, k@) is None),
    decreases n,
{
    if n > 0 {
        lemma_keyed_none(ds, ks, n - 1);
    }
}

/// START LIVE's destinations: accepted exactly when every enabled
/// destination has its key and is accepted with it, and OBS gets at most
/// one; the first destination without a key is named in the refusal.
pub proof fn law_live_destinations(
    ds: Seq<RtmpDestinationConfig>,
    ks: Seq<Option<String>>,
    engine: ProductionEngine,
)
    requires
        ks.len() == ds.len(),
    ensures
        live_destinations_problem(ds, ks, engine) is None <==> (forall|i: int|
            0 <= i < ds.len() ==> (#[trigger] ks[i] matches Some(k) && destination_problem(
                ds[i].server@,
                k@,
            ) is None)) && !(engine == ProductionEngine::Obs && ds.len() > 1),
        forall|i: int|
            0 <= i < ds.len() && #[trigger] ks[i] is None && (forall|j: int|
                0 <= j < i ==> (#[trigger] ks[j] matches Some(k) && destination_problem(
                    ds[j].server@,
                    k@,
                ) is None)) ==> live_destinations_problem(ds, ks, engine) == Some(
                (ErrorKind::Config, "Stream key is missing for destination '"@ + ds[i].name@ + "'"@),
            ),
{
    lemma_keyed_none(ds, ks, ds.len() as int);
    assert forall|i: int|
        0 <= i < ds.len() && #[trigger] ks[i] is None && (forall|j: int|
            0 <= j < i ==> (#[trigger] ks[j] matches Some(k) && destination_problem(
                ds[j].server@,
                k@,
            ) is None)) implies live_destinations_problem(ds, ks, engine) == Some(
            (ErrorKind::Config, "Stream key is missing for destination '"@ + ds[i].name@ + "'"@),
        ) by {
        lemma_keyed_none(ds, ks, i);
        lemma_first_problem(ds, ks, i, ds.len() as int);
    }
}

/// Pairs each enabled destination with its stream key: each key must be
/// there and pass `validate_rtmp_destination` with its server, checked in
/// order; OBS streams to one destination only.
pub fn live_destinations(
    destinations: &Vec<RtmpDestinationConfig>,
    keys: &Vec<Option<String>>,
    engine: ProductionEngine,
) -> (r: Result<Vec<(RtmpDestinationConfig, String)>, BridgeError>)
    requires
        keys@.len() == destinations@.len(),
    ensures
        result_matches(r, live_destinations_problem(destinations@, keys@, engine)),
        r matches Ok(pairs) ==> pairs@.len() == destinations@.len() && forall|i: int|
            0 <= i < pairs@.len() ==> (#[trigger] pairs@[i]).0 == destinations@[i] && keys@[i] == Some(
                pairs@[i].1,
            ),
{
    let ghost ds = destinations@;
    let ghost ks = keys@;
    let mut pairs: Vec<(RtmpDestinationConfig, String)> = Vec::new();
    let mut i: usize = 0;
    while i < destinations.len()
        invariant
            ds == destinations@,
            ks == keys@,
            i <= ds.len(),
            ds.len() == ks.len(),
            keyed_problems(ds, ks, i as int) is None,
            pairs@.len() == i,
            forall|j: int|
                0 <= j < i ==> (#[trigger] pairs@[j]).0 == ds[j] && ks[j] == Some(pairs@[j].1),
        decreases ds.len() - i,
    {
        let d = &destinations[i];
        let key = match &keys[i] {
            Some(key) => key.clone(),
            None => {
                proof {
                    lemma_first_problem(ds, ks, i as int, ds.len() as int);
                }
                return Err(
                    BridgeError::Config(
                        String::from_str("Stream key is missing for destination '").concat(
                            d.name.as_str(),
                        ).concat("'"),
                    ),
                );
            },
        };
        match validate_rtmp_destination(d.server.as_str(), key.as_str()) {
            Ok(()) => {},
            Err(e) => {
                proof {
                    lemma_first_problem(ds, ks, i as int, ds.len() as int);
                }
                return Err(e);
            },
        }
        pairs.push((d.duplicate(), key));
        i = i + 1;
    }
    if engine == ProductionEngine::Obs && pairs.len() > 1 {
        return Err(
            BridgeError::Validation(
                String::from_str(
                    "OBS streaming supports one RTMP destination here; use built-in production for multi-stream",
                ),
            ),
        );
    }
    Ok(pairs)
}

/// The report OBS's own stream gives its single destination once started.
pub fn obs_forward_status() -> (s: ForwardStatus)
    ensures
        s.pos == 0,
        s.state matches Some(x) && x@ == "forwarding"@,
        s.last_error is None,
        s.outbound_bytes == 0,
{
    ForwardStatus {
        pos: 0,
        state: Some(String::from_str("forwarding")),
        last_error: None,
        outbound_bytes: 0,
    }
}

/// The live route started: the built-in production is active on its path
/// with `encoder`; OBS streams. The destinations' reports come next.
pub fn went_live(snapshot: &mut BridgeSnapshot, engine: ProductionEngine, encoder: Option<String>)
    ensures
        engine == ProductionEngine::NativeFfmpeg ==> *final(snapshot) == (BridgeSnapshot {
            production: ProductionState {
                active: true,
                path_status: ServiceStatus::Ready,
                encoder: encoder,
                ..old(snapshot).production
            },
            ..*old(snapshot)
        }),
        engine == ProductionEngine::Obs ==> *final(snapshot) == (BridgeSnapshot {
            obs: ObsState { stream_active: Some(true), ..old(snapshot).obs },
            ..*old(snapshot)
        }),
{
    if engine == ProductionEngine::NativeFfmpeg {
        snapshot.production.active = true;
        snapshot.production.path_status = ServiceStatus::Ready;
        snapshot.production.encoder = encoder;
    } else {
        snapshot.obs.stream_active = Some(true);
    }
}

/// The snapshot once the live route started (what `went_live` makes of it).
pub open spec fn went_live_spec(s: BridgeSnapshot, engine: ProductionEngine, encoder: Option<String>) -> BridgeSnapshot {
    if engine == ProductionEngine::NativeFfmpeg {
        BridgeSnapshot {
            production: ProductionState {
                active: true,
                path_status: ServiceStatus::Ready,
                encoder: encoder,
                ..s.production
            },
            ..s
        }
    } else {
        BridgeSnapshot { obs: ObsState { stream_active: Some(true), ..s.obs }, ..s }
    }
}

/// How START LIVE ends once the route was started (`Ok`, with the built-in
/// production's encoder) or failed (`Err`). On success the started
/// destinations become the active ones, the route is marked live and the
/// workflow moves to Live; on failure the workflow goes back to Ready and the
/// failure is returned. A move the workflow graph refuses is returned instead.
pub fn live_outcome(
    snapshot: &mut BridgeSnapshot,
    active: &mut Vec<String>,
    started: Vec<String>,
    engine: ProductionEngine,
    outcome: Result<Option<String>, BridgeError>,
) -> (r: Result<(), BridgeError>)
    ensures
        outcome matches Ok(encoder) ==> {
            let live = went_live_spec(*old(snapshot), engine, encoder);
            &&& final(active)@ == started@
            &&& spec_can_transition(old(snapshot).workflow, WorkflowState::Live) ==> r is Ok
                && *final(snapshot) == (BridgeSnapshot {
                workflow: WorkflowState::Live,
                last_error: None,
                ..live
            })
            &&& !spec_can_transition(old(snapshot).workflow, WorkflowState::Live) ==> (r matches Err(
                e,
            ) && e@ == (
                ErrorKind::InvalidTransition,
                workflow_name(old(snapshot).workflow) + " -> "@ + workflow_name(WorkflowState::Live),
            )) && *final(snapshot) == live
        },
        outcome matches Err(failure) ==> {
            &&& final(active)@ == old(active)@
            &&& spec_can_transition(old(snapshot).workflow, WorkflowState::Ready) ==> (r matches Err(
                e,
            ) && e@ == failure@) && *final(snapshot) == (BridgeSnapshot {
                workflow: WorkflowState::Ready,
                last_error: None,
                ..*old(snapshot)
            })
            &&& !spec_can_transition(old(snapshot).workflow, WorkflowState::Ready) ==> (r matches Err(
                e,
            ) && e@ == (
                ErrorKind::InvalidTransition,
                workflow_name(old(snapshot).workflow) + " -> "@ + workflow_name(WorkflowState::Ready),
            )) && *final(snapshot) == *old(snapshot)
        },
{
    match outcome {
        Ok(encoder) => {
            *active = started;
            went_live(snapshot, engine, encoder);
            transition(snapshot, WorkflowState::Live)
        },
        Err(failure) => match transition(snapshot, WorkflowState::Ready) {
            Ok(()) => Err(failure),
            Err(refused) => Err(refused),
        },
    }
}

/// The step of starting the built-in live route that failed.
#[derive(Debug, Clone, Copy, PartialEq, Eq, Structural)]
pub enum NativeStartStep {
    /// Handing MediaMTX the forward list.
    ConfigureForwards,
    /// Planning or spawning the production encode.
    StartProduction,
    /// Waiting for `/production` to become ready.
    WaitForPath,
    /// Waiting for the forwards to settle.
    WaitForForwards,
}

/// What is undone after a failed start.
#[derive(Debug, Clone, Copy, PartialEq, Eq, Structural)]
pub struct StartCleanup {
    pub stop_production: bool,
    pub clear_forwards: bool,
}

/// The clean-up after a failed start of the built-in route: once the
/// forwards are configured they are cleared, and once the production runs
/// it is stopped.
pub fn native_start_cleanup(failed: NativeStartStep) -> (c: StartCleanup)
    ensures
        c.clear_forwards == (failed != NativeStartStep::ConfigureForwards),
        c.stop_production == (failed == NativeStartStep::WaitForPath || failed
            == NativeStartStep::WaitForForwards),
{
    match failed {
        NativeStartStep::ConfigureForwards => StartCleanup { stop_production: false, clear_forwards: false },
        NativeStartStep::StartProduction => StartCleanup { stop_production: false, clear_forwards: true },
        NativeStartStep::WaitForPath => StartCleanup { stop_production: true, clear_forwards: true },
        NativeStartStep::WaitForForwards => StartCleanup { stop_production: true, clear_forwards: true },
    }
}

/// What stops when the drone leaves.
#[derive(Debug, Clone, Copy, PartialEq, Eq, Structural)]
pub struct DisconnectCleanup {
    pub clear_forwards: bool,
    pub stop_production: bool,
    pub stop_obs_stream: bool,
    pub stop_recording: bool,
    pub stop_preview: bool,
    pub stop_camera_feed: bool,
}

/// When the drone leaves: a live built-in route has its forwards cleared
/// and its production stopped, a live OBS stream is stopped (and its service
/// restored); the recording, the preview transcode and the camera feed stop
/// in any case.
pub fn disconnect_cleanup(was_live: bool, engine: ProductionEngine) -> (c: DisconnectCleanup)
    ensures
        c.clear_forwards == (was_live && engine == ProductionEngine::NativeFfmpeg),
        c.stop_production == (was_live && engine == ProductionEngine::NativeFfmpeg),
        c.stop_obs_stream == (was_live && engine == ProductionEngine::Obs),
        c.stop_recording && c.stop_preview && c.stop_camera_feed,
        c == disconnect_actions(was_live, engine),
{
    let native = was_live && engine == ProductionEngine::NativeFfmpeg;
    DisconnectCleanup {
        clear_forwards: native,
        stop_production: native,
        stop_obs_stream: was_live && engine == ProductionEngine::Obs,
        stop_recording: true,
        stop_preview: true,
        stop_camera_feed: true,
    }
}

/// What stops when the drone leaves, as `disconnect_cleanup` decides it.
pub open spec fn disconnect_actions(was_live: bool, engine: ProductionEngine) -> DisconnectCleanup {
    DisconnectCleanup {
        clear_forwards: was_live && engine == ProductionEngine::NativeFfmpeg,
        stop_production: was_live && engine == ProductionEngine::NativeFfmpeg,
        stop_obs_stream: was_live && engine == ProductionEngine::Obs,
        stop_recording: true,
        stop_preview: true,
        stop_camera_feed: true,
    }
}

/// What a publisher sample leads to on the monitor's tick.
#[derive(Debug, Clone, Copy, PartialEq, Eq, Structural)]
pub enum PublisherStep {
    Unchanged,
    /// The drone arrived: the workflow moves on to DroneConnected.
    Connected,
    /// The drone left: these processes and streams are to be stopped.
    Left(DisconnectCleanup),
}

/// One publisher sample on the monitor's tick: the sample is recorded, and
/// when the drone has just left the snapshot is reset, the active
/// destinations are forgotten and the clean-up to perform is returned.
/// So a drone that leaves while a built-in live route runs has the forwards
/// cleared and the production, recording and preview transcode stopped, and
/// leaves the bridge waiting for it with nothing active, no byte counted
/// and every destination without state or error.
pub fn publisher_sampled(
    snapshot: &mut BridgeSnapshot,
    active: &mut Vec<String>,
    sample: &PublisherSample,
    now_ms: u64,
    engine: ProductionEngine,
) -> (step: PublisherStep)
    ensures
        ({
            let applied = sample_applied(*old(snapshot), *sample, now_ms);
            match publisher_change(
                old(snapshot).publisher_present,
                sample.present,
                old(snapshot).workflow == WorkflowState::Live,
            ) {
                PublisherChange::Unchanged => step == PublisherStep::Unchanged && *final(snapshot)
                    == applied && final(active)@ == old(active)@,
                PublisherChange::Connected => step == PublisherStep::Connected && *final(snapshot)
                    == applied && final(active)@ == old(active)@,
                PublisherChange::Disconnected { was_live } => step == PublisherStep::Left(
                    disconnect_actions(was_live, engine),
                ) && disconnect_reset(applied, *final(snapshot)) && final(active)@.len() == 0,
            }
        }),
        old(snapshot).publisher_present && old(snapshot).workflow == WorkflowState::Live
            && !sample.present && engine == ProductionEngine::NativeFfmpeg ==> {
            &&& step matches PublisherStep::Left(c) && c.clear_forwards && c.stop_production
                && c.stop_recording && c.stop_preview
            &&& final(snapshot).workflow == WorkflowState::WaitingForDrone
            &&& !final(snapshot).production.active
            &&& !final(snapshot).production.prepared
            &&& final(snapshot).production.outbound_bytes == 0
            &&& forall|j: int|
                0 <= j < final(snapshot).production.destinations@.len() ==> (
                #[trigger] final(snapshot).production.destinations@[j]).state is None
                    && final(snapshot).production.destinations@[j].last_error is None
            &&& final(active)@.len() == 0
        },
{
    let change = apply_publisher_sample(snapshot, sample, now_ms);
    match change {
        PublisherChange::Unchanged => PublisherStep::Unchanged,
        PublisherChange::Connected => PublisherStep::Connected,
        PublisherChange::Disconnected { was_live } => {
            let cleanup = disconnect_cleanup(was_live, engine);
            reset_after_disconnect(snapshot);
            active.clear();
            PublisherStep::Left(cleanup)
        },
    }
}

/// STOP LIVE is only accepted while live.
pub fn stop_live_check(workflow: WorkflowState) -> (r: Result<(), BridgeError>)
    ensures
        workflow == WorkflowState::Live <==> r is Ok,
        r matches Err(e) ==> e@ == (ErrorKind::InvalidTransition, "STOP LIVE requires the Live state"@),
{
    if workflow != WorkflowState::Live {
        return Err(
            BridgeError::InvalidTransition(String::from_str("STOP LIVE requires the Live state")),
        );
    }
    Ok(())
}

/// The live route stopped: nothing streams, and the destinations' reports
/// are forgotten.
pub fn live_stopped(snapshot: &mut BridgeSnapshot)
    ensures
        final(snapshot).obs == (ObsState { stream_active: Some(false), ..old(snapshot).obs }),
        final(snapshot).production == (ProductionState {
            active: false,
            path_status: ServiceStatus::Unavailable,
            forward_state: None,
            forward_error: None,
            outbound_bytes: 0,
            destinations: final(snapshot).production.destinations,
            ..old(snapshot).production
        }),
        final(snapshot).production.destinations@.len() == old(
            snapshot,
        ).production.destinations@.len(),
        forall|j: int|
            0 <= j < old(snapshot).production.destinations@.len() ==> with_runtime(
                old(snapshot).production.destinations@[j],
                #[trigger] final(snapshot).production.destinations@[j],
                (None, None, 0),
            ),
        *final(snapshot) == (BridgeSnapshot {
            obs: final(snapshot).obs,
            production: final(snapshot).production,
            ..*old(snapshot)
        }),
{
    snapshot.obs.stream_active = Some(false);
    snapshot.production.active = false;
    snapshot.production.path_status = ServiceStatus::Unavailable;
    snapshot.production.forward_state = None;
    snapshot.production.forward_error = None;
    snapshot.production.outbound_bytes = 0;
    clear_destination_runtime(&mut snapshot.production.destinations);
}

/// Before the built-in production is prepared: the drone must be there and
/// the workflow at DroneConnected or Ready; it then moves (through
/// DroneConnected) to PreparingObs.
pub fn native_production_precheck(snapshot: &mut BridgeSnapshot) -> (r: Result<(), BridgeError>)
    ensures
        !old(snapshot).publisher_present ==> (r matches Err(e) && e@ == (
            ErrorKind::Ffmpeg,
            "Built-in production requires an active drone publisher"@,
        )) && *final(snapshot) == *old(snapshot),
        old(snapshot).publisher_present && old(snapshot).workflow != WorkflowState::DroneConnected
            && old(snapshot).workflow != WorkflowState::Ready ==> (r matches Err(e) && e@ == (
            ErrorKind::InvalidTransition,
            "Built-in production can only be prepared after the drone connects"@,
        )) && *final(snapshot) == *old(snapshot),
        old(snapshot).publisher_present && (old(snapshot).workflow == WorkflowState::DroneConnected
            || old(snapshot).workflow == WorkflowState::Ready) ==> r is Ok && *final(snapshot) == (
        BridgeSnapshot { workflow: WorkflowState::PreparingObs, last_error: None, ..*old(snapshot) }),
{
    if !snapshot.publisher_present {
        return Err(
            BridgeError::Ffmpeg(
                String::from_str("Built-in production requires an active drone publisher"),
            ),
        );
    }
    if snapshot.workflow != WorkflowState::DroneConnected && snapshot.workflow
        != WorkflowState::Ready {
        return Err(
            BridgeError::InvalidTransition(
                String::from_str(
                    "Built-in production can only be prepared after the drone connects",
                ),
            ),
        );
    }
    snapshot.workflow = WorkflowState::DroneConnected;
    transition(snapshot, WorkflowState::PreparingObs)
}

/// Why the installed FFmpeg cannot run the built-in production.
pub open spec fn native_capabilities_problem(c: FfmpegCapabilities, with_microphone: bool) -> Option<(ErrorKind, Seq<char>)> {
    if c.ffmpeg_path is None || (!c.h264_videotoolbox && !c.libx264) || !c.aac {
        Some((ErrorKind::Ffmpeg, "Built-in production requires FFmpeg with H.264 and AAC encoders"@))
    } else if with_microphone && !c.avfoundation {
        Some((ErrorKind::Ffmpeg, "Commentary microphone requires FFmpeg AVFoundation input support"@))
    } else {
        None
    }
}

/// Built-in production can be prepared exactly when FFmpeg is there with an
/// H.264 encoder (VideoToolbox or libx264) and AAC, and, for commentary, its
/// AVFoundation input.
pub proof fn law_native_capabilities(c: FfmpegCapabilities, with_microphone: bool)
    ensures
        native_capabilities_problem(c, with_microphone) is None <==> (c.ffmpeg_path is Some && (
        c.h264_videotoolbox || c.libx264) && c.aac && (with_microphone ==> c.avfoundation)),
        native_capabilities_problem(c, with_microphone) matches Some(e) ==> e.0 == ErrorKind::Ffmpeg,
{
}

pub fn check_native_capabilities(capabilities: &FfmpegCapabilities, with_microphone: bool) -> (r: Result<(), BridgeError>)
    ensures
        result_matches(r, native_capabilities_problem(*capabilities, with_microphone)),
{
    if capabilities.ffmpeg_path.is_none() || (!capabilities.h264_videotoolbox
        && !capabilities.libx264) || !capabilities.aac {
        return Err(
            BridgeError::Ffmpeg(
                String::from_str("Built-in production requires FFmpeg with H.264 and AAC encoders"),
            ),
        );
    }
    if with_microphone && !capabilities.avfoundation {
        return Err(
            BridgeError::Ffmpeg(
                String::from_str("Commentary microphone requires FFmpeg AVFoundation input support"),
            ),
        );
    }
    Ok(())
}

/// The chosen production settings become the stored ones, and the built-in
/// production the engine.
pub fn store_production_settings(config: &mut AppConfig, settings: &NativeProductionSettings)
    ensures
        *final(config) == (AppConfig {
            production_engine: ProductionEngine::NativeFfmpeg,
            output_layout: settings.layout,
            fit_mode: settings.fit_mode,
            selected_microphone: settings.microphone,
            microphone_muted: settings.microphone_muted,
            microphone_volume: settings.microphone_volume,
            microphone_sync_ms: settings.microphone_sync_ms,
            noise_suppression: settings.noise_suppression,
            compressor: settings.compressor,
            limiter: settings.limiter,
            ..*old(config)
        }),
{
    config.production_engine = ProductionEngine::NativeFfmpeg;
    config.output_layout = settings.layout;
    config.fit_mode = settings.fit_mode;
    config.selected_microphone = settings.microphone.clone();
    config.microphone_muted = settings.microphone_muted;
    config.microphone_volume = MicrophoneVolume {
        text: settings.microphone_volume.text.clone(),
        in_range: settings.microphone_volume.in_range,
    };
    config.microphone_sync_ms = settings.microphone_sync_ms;
    config.noise_suppression = settings.noise_suppression;
    config.compressor = settings.compressor;
    config.limiter = settings.limiter;
}

/// The production the settings saved is prepared and idle: nothing runs,
/// nothing is reported yet.
pub fn production_prepared(production: &mut ProductionState, microphone: Option<String>)
    ensures
        *final(production) == (ProductionState {
            engine: ProductionEngine::NativeFfmpeg,
            prepared: true,
            active: false,
            path_status: ServiceStatus::Unavailable,
            encoder: None,
            selected_microphone: microphone,
            forward_state: None,
            forward_error: None,
            outbound_bytes: 0,
            destinations: final(production).destinations,
            ..*old(production)
        }),
        final(production).destinations@.len() == old(production).destinations@.len(),
        forall|j: int|
            0 <= j < old(production).destinations@.len() ==> with_runtime(
                old(production).destinations@[j],
                #[trigger] final(production).destinations@[j],
                (None, None, 0),
            ),
{
    production.engine = ProductionEngine::NativeFfmpeg;
    production.prepared = true;
    production.active = false;
    production.path_status = ServiceStatus::Unavailable;
    production.encoder = None;
    production.selected_microphone = microphone;
    production.forward_state = None;
    production.forward_error = None;
    production.outbound_bytes = 0;
    clear_destination_runtime(&mut production.destinations);
}

/// The settings the built-in production runs with, as stored.
pub fn stored_production_settings(config: &AppConfig) -> (s: NativeProductionSettings)
    ensures
        s.layout == config.output_layout,
        s.fit_mode == config.fit_mode,
        s.microphone == config.selected_microphone,
        s.microphone_muted == config.microphone_muted,
        s.microphone_volume == config.microphone_volume,
        s.microphone_sync_ms == config.microphone_sync_ms,
        s.noise_suppression == config.noise_suppression,
        s.compressor == config.compressor,
        s.limiter == config.limiter,
{
    NativeProductionSettings {
        layout: config.output_layout,
        fit_mode: config.fit_mode,
        microphone: config.selected_microphone.clone(),
        microphone_muted: config.microphone_muted,
        microphone_volume: MicrophoneVolume {
            text: config.microphone_volume.text.clone(),
            in_range: config.microphone_volume.in_range,
        },
        microphone_sync_ms: config.microphone_sync_ms,
        noise_suppression: config.noise_suppression,
        compressor: config.compressor,
        limiter: config.limiter,
    }
}

/// Whether the drone sends audio, for the production's audio choice: a
/// fresh probe when it answered (the periodic one may not have run yet),
/// else what the snapshot knows.
pub fn drone_has_audio(probed_audio_codec: Option<Option<String>>, snapshot: &BridgeSnapshot) -> (b: bool)
    ensures
        b == match probed_audio_codec {
            Some(codec) => codec is Some,
            None => snapshot.metadata.audio_codec is Some,
        },
{
    match probed_audio_codec {
        Some(codec) => codec.is_some(),
        None => snapshot.metadata.audio_codec.is_some(),
    }
}

/// Before OBS is prepared: the drone must be there; the workflow then moves
/// to PreparingObs where the graph allows.
pub fn obs_precheck(snapshot: &mut BridgeSnapshot) -> (r: Result<(), BridgeError>)
    ensures
        !old(snapshot).publisher_present ==> (r matches Err(e) && e@ == (
            ErrorKind::Obs,
            "OBS preparation requires an active drone publisher"@,
        )) && *final(snapshot) == *old(snapshot),
        old(snapshot).publisher_present && spec_can_transition(
            old(snapshot).workflow,
            WorkflowState::PreparingObs,
        ) ==> r is Ok && *final(snapshot) == (BridgeSnapshot {
            workflow: WorkflowState::PreparingObs,
            last_error: None,
            ..*old(snapshot)
        }),
        old(snapshot).publisher_present && !spec_can_transition(
            old(snapshot).workflow,
            WorkflowState::PreparingObs,
        ) ==> (r matches Err(e) && e@.0 == ErrorKind::InvalidTransition) && *final(snapshot)
            == *old(snapshot),
{
    if !snapshot.publisher_present {
        return Err(
            BridgeError::Obs(String::from_str("OBS preparation requires an active drone publisher")),
        );
    }
    transition(snapshot, WorkflowState::PreparingObs)
}

/// OBS is prepared with this layout: it becomes the stored engine.
pub fn store_obs_settings(config: &mut AppConfig, layout: OutputLayout, fit_mode: FitMode)
    ensures
        *final(config) == (AppConfig {
            production_engine: ProductionEngine::Obs,
            output_layout: layout,
            fit_mode: fit_mode,
            ..*old(config)
        }),
{
    config.production_engine = ProductionEngine::Obs;
    config.output_layout = layout;
    config.fit_mode = fit_mode;
}

/// OBS is the prepared engine; it takes no commentary microphone.
pub fn obs_prepared(production: &mut ProductionState)
    ensures
        *final(production) == (ProductionState {
            engine: ProductionEngine::Obs,
            prepared: true,
            selected_microphone: None,
            ..*old(production)
        }),
{
    production.engine = ProductionEngine::Obs;
    production.prepared = true;
    production.selected_microphone = None;
}

/// Commands that need the drone: the error each gives without it.
pub fn require_publisher(snapshot: &BridgeSnapshot, error: BridgeError) -> (r: Result<(), BridgeError>)
    ensures
        snapshot.publisher_present ==> r is Ok,
        !snapshot.publisher_present ==> (r matches Err(e) && e@ == error@),
{
    if snapshot.publisher_present {
        Ok(())
    } else {
        Err(error)
    }
}

/// Recording started, to `path`.
pub fn recording_started(production: &mut ProductionState, path: String)
    ensures
        *final(production) == (ProductionState {
            recording_active: true,
            recording_path: Some(path),
            ..*old(production)
        }),
{
    production.recording_active = true;
    production.recording_path = Some(path);
}

/// What shutting down does, by the workflow at that moment and the engine:
/// move to Stopping where the graph allows, and stop whatever streams live.
#[derive(Debug, Clone, Copy, PartialEq, Eq, Structural)]
pub struct ShutdownSteps {
    pub enter_stopping: bool,
    pub stop_native_production: bool,
    pub stop_obs_stream: bool,
}

/// The shutdown steps for a workflow and engine.
pub open spec fn steps_for(workflow: WorkflowState, engine: ProductionEngine) -> ShutdownSteps {
    ShutdownSteps {
        enter_stopping: spec_can_transition(workflow, WorkflowState::Stopping),
        stop_native_production: workflow == WorkflowState::Live && engine
            == ProductionEngine::NativeFfmpeg,
        stop_obs_stream: workflow == WorkflowState::Live && engine == ProductionEngine::Obs,
    }
}

pub fn shutdown_steps(workflow: WorkflowState, engine: ProductionEngine) -> (s: ShutdownSteps)
    ensures
        s == steps_for(workflow, engine),
        s.enter_stopping == spec_can_transition(workflow, WorkflowState::Stopping),
        s.stop_native_production == (workflow == WorkflowState::Live && engine
            == ProductionEngine::NativeFfmpeg),
        s.stop_obs_stream == (workflow == WorkflowState::Live && engine == ProductionEngine::Obs),
{
    let live = workflow == WorkflowState::Live;
    ShutdownSteps {
        enter_stopping: workflow.can_transition_to(WorkflowState::Stopping),
        stop_native_production: live && engine == ProductionEngine::NativeFfmpeg,
        stop_obs_stream: live && engine == ProductionEngine::Obs,
    }
}

/// Whether shutdown has begun: the platform may ask to exit more than once,
/// and only the first request cleans up.
#[derive(Debug)]
pub struct ShutdownGuard {
    started: bool,
}

impl View for ShutdownGuard {
    type V = bool;

    closed spec fn view(&self) -> bool {
        self.started
    }
}

/// The steps a shutdown request takes: those of the workflow the first
/// time, none once shutdown has begun.
pub open spec fn begin_steps(started: bool, workflow: WorkflowState, engine: ProductionEngine) -> Option<ShutdownSteps> {
    if started {
        None
    } else {
        Some(steps_for(workflow, engine))
    }
}

impl ShutdownGuard {
    pub fn new() -> (g: Self)
        ensures
            !g@,
    {
        ShutdownGuard { started: false }
    }

    /// A request to shut down: the steps to take, or `None` when shutdown
    /// has already begun. Shutdown has begun afterwards.
    pub fn begin(&mut self, workflow: WorkflowState, engine: ProductionEngine) -> (r: Option<ShutdownSteps>)
        ensures
            r == begin_steps(old(self)@, workflow, engine),
            final(self)@,
    {
        if self.started {
            return None;
        }
        self.started = true;
        Some(shutdown_steps(workflow, engine))
    }
}

/// Shutdown happens at most once: after a first request, every later one
/// takes no step, whatever the workflow and engine by then.
pub proof fn law_shutdown_at_most_once(
    w1: WorkflowState,
    e1: ProductionEngine,
    w2: WorkflowState,
    e2: ProductionEngine,
)
    ensures
        begin_steps(false, w1, e1) == Some(steps_for(w1, e1)),
        begin_steps(true, w2, e2) is None,
{
}


pub open spec fn is_some_str(o: Option<String>, s: Seq<char>) -> bool {
    o matches Some(x) && x@ == s
}

fn is_some_str_exec(o: &Option<String>, s: &str) -> (b: bool)
    ensures
        b == is_some_str(*o, s@),
{
    match o {
        Some(x) => eq_str(x.as_str(), s),
        None => false,
    }
}

/// Why the direct WebRTC preview most likely failed, from the codecs
/// ffprobe reported.
pub open spec fn preview_failure(m: StreamMetadata) -> Seq<char> {
    if is_some_str(m.audio_codec, "AAC"@) {
        "AAC is not a browser-compatible MediaMTX WebRTC audio codec"@
    } else if is_some_str(m.video_codec, "HEVC"@) || is_some_str(m.video_codec, "H265"@) {
        "H.265 browser decoding is not available in this WebView path"@
    } else if is_some_str(m.video_codec, "H264"@) {
        "Direct H.264 WHEP failed; likely profile/B-frame or local ICE compatibility"@
    } else {
        "Direct WHEP failed; codec or local ICE compatibility could not be confirmed"@
    }
}

pub fn preview_failure_reason(metadata: &StreamMetadata) -> (r: String)
    ensures
        r@ == preview_failure(*metadata),
{
    if is_some_str_exec(&metadata.audio_codec, "AAC") {
        String::from_str("AAC is not a browser-compatible MediaMTX WebRTC audio codec")
    } else if is_some_str_exec(&metadata.video_codec, "HEVC") || is_some_str_exec(
        &metadata.video_codec,
        "H265",
    ) {
        String::from_str("H.265 browser decoding is not available in this WebView path")
    } else if is_some_str_exec(&metadata.video_codec, "H264") {
        String::from_str(
            "Direct H.264 WHEP failed; likely profile/B-frame or local ICE compatibility",
        )
    } else {
        String::from_str(
            "Direct WHEP failed; codec or local ICE compatibility could not be confirmed",
        )
    }
}

/// The preview-only transcode is being prepared (the drone must be there),
/// with the reason the direct preview failed.
pub fn preview_fallback_starting(snapshot: &mut BridgeSnapshot) -> (r: Result<(), BridgeError>)
    ensures
        !old(snapshot).publisher_present ==> (r matches Err(e) && e@ == (
            ErrorKind::Ffmpeg,
            "Preview fallback requires an active /drone publisher"@,
        )) && *final(snapshot) == *old(snapshot),
        old(snapshot).publisher_present ==> r is Ok && *final(snapshot) == (BridgeSnapshot {
            preview: PreviewState {
                status: ServiceStatus::Starting,
                reason_key: final(snapshot).preview.reason_key,
                reason: final(snapshot).preview.reason,
                ..old(snapshot).preview
            },
            ..*old(snapshot)
        }) && is_some_str(final(snapshot).preview.reason_key, "preview.reason.preparingFallback"@)
            && is_some_str(final(snapshot).preview.reason, preview_failure(old(snapshot).metadata)),
{
    if !snapshot.publisher_present {
        return Err(
            BridgeError::Ffmpeg(
                String::from_str("Preview fallback requires an active /drone publisher"),
            ),
        );
    }
    let reason = preview_failure_reason(&snapshot.metadata);
    snapshot.preview.status = ServiceStatus::Starting;
    snapshot.preview.reason_key = Some(String::from_str("preview.reason.preparingFallback"));
    snapshot.preview.reason = Some(reason);
    Ok(())
}

/// The transcode publishes: the preview switches to it. Returns where the
/// browser reads it.
pub fn preview_transcode_ready(preview: &mut PreviewState, encoder: &str) -> (url: &'static str)
    ensures
        url@ == "http://127.0.0.1:8889/drone-preview/whep"@,
        *final(preview) == (PreviewState {
            mode: PreviewMode::Transcoded,
            status: ServiceStatus::Starting,
            reason_key: final(preview).reason_key,
            reason: final(preview).reason,
            ..*old(preview)
        }),
        is_some_str(final(preview).reason_key, "preview.reason.transcodeReady"@),
        is_some_str(
            final(preview).reason,
            "Preview-only transcode is ready with "@ + encoder@
                + " + Opus; ingest and production remain independent"@,
        ),
{
    preview.mode = PreviewMode::Transcoded;
    preview.status = ServiceStatus::Starting;
    preview.reason_key = Some(String::from_str("preview.reason.transcodeReady"));
    preview.reason = Some(
        String::from_str("Preview-only transcode is ready with ").concat(encoder).concat(
            " + Opus; ingest and production remain independent",
        ),
    );
    "http://127.0.0.1:8889/drone-preview/whep"
}

/// The fallback failed, with the error as displayed.
pub fn preview_failed(preview: &mut PreviewState, error: &BridgeError)
    ensures
        *final(preview) == (PreviewState {
            status: ServiceStatus::Failed,
            reason_key: final(preview).reason_key,
            reason: final(preview).reason,
            ..*old(preview)
        }),
        is_some_str(final(preview).reason_key, "preview.reason.failed"@),
        is_some_str(final(preview).reason, crate::error::error_text(error@)),
{
    preview.status = ServiceStatus::Failed;
    preview.reason_key = Some(String::from_str("preview.reason.failed"));
    preview.reason = Some(error.message());
}

/// The browser reports whether the preview plays. A connected direct
/// preview of an AAC stream carries a notice that its audio is not played.
pub fn report_preview_status(snapshot: &mut BridgeSnapshot, connected: bool, detail: Option<String>)
    ensures
        ({
            let notice = connected && old(snapshot).preview.mode == PreviewMode::Direct
                && is_some_str(old(snapshot).metadata.audio_codec, "AAC"@);
            &&& final(snapshot).preview.status == (if connected {
                ServiceStatus::Ready
            } else {
                ServiceStatus::Failed
            })
            &&& notice ==> is_some_str(final(snapshot).preview.reason_key, "preview.reason.aacNotice"@)
                && is_some_str(
                final(snapshot).preview.reason,
                "Direct WHEP video is connected; AAC is not carried to WebRTC preview. Use preview-only H.264 + Opus fallback when preview audio is required."@,
            )
            &&& !notice && detail is Some ==> is_some_str(
                final(snapshot).preview.reason_key,
                "preview.reason.failed"@,
            ) && final(snapshot).preview.reason == detail
            &&& !notice && detail is None ==> final(snapshot).preview.reason_key is None
                && final(snapshot).preview.reason is None
        }),
        *final(snapshot) == (BridgeSnapshot {
            preview: PreviewState {
                status: final(snapshot).preview.status,
                reason_key: final(snapshot).preview.reason_key,
                reason: final(snapshot).preview.reason,
                ..old(snapshot).preview
            },
            ..*old(snapshot)
        }),
{
    let notice = connected && snapshot.preview.mode == PreviewMode::Direct && is_some_str_exec(
        &snapshot.metadata.audio_codec,
        "AAC",
    );
    snapshot.preview.status = if connected {
        ServiceStatus::Ready
    } else {
        ServiceStatus::Failed
    };
    if notice {
        snapshot.preview.reason_key = Some(String::from_str("preview.reason.aacNotice"));
        snapshot.preview.reason = Some(
            String::from_str(
                "Direct WHEP video is connected; AAC is not carried to WebRTC preview. Use preview-only H.264 + Opus fallback when preview audio is required.",
            ),
        );
    } else {
        snapshot.preview.reason_key = if detail.is_some() {
            Some(String::from_str("preview.reason.failed"))
        } else {
            None
        };
        snapshot.preview.reason = detail;
    }
}

/// The camera was asked to start while its extension is not active: the
/// state just read replaces the shown one; while macOS approval is pending
/// the user is told where to approve it, else activation is to be requested.
pub fn camera_not_ready(snapshot: &mut BridgeSnapshot, camera: VirtualCameraState) -> (r: Result<(), BridgeError>)
    ensures
        *final(snapshot) == (BridgeSnapshot { virtual_camera: camera, ..*old(snapshot) }),
        camera.status == ServiceStatus::Starting ==> (r matches Err(e) && e@ == (
            ErrorKind::VirtualCamera,
            "macOS is waiting for you to allow DJI Live Bridge Camera in System Settings → General → Login Items & Extensions → Camera Extensions"@,
        )),
        camera.status != ServiceStatus::Starting ==> r is Ok,
{
    let awaiting_approval = camera.status == ServiceStatus::Starting;
    snapshot.virtual_camera = camera;
    if awaiting_approval {
        return Err(
            BridgeError::VirtualCamera(
                String::from_str(
                    "macOS is waiting for you to allow DJI Live Bridge Camera in System Settings → General → Login Items & Extensions → Camera Extensions",
                ),
            ),
        );
    }
    Ok(())
}

pub open spec fn camera_message(c: VirtualCameraState, status: ServiceStatus, key: Seq<char>, detail: Seq<char>) -> bool {
    c.status == status && c.detail_key@ == key && is_some_str(c.detail, detail)
}

/// Activation of the camera extension was requested from macOS.
pub fn camera_activation_requested(camera: &mut VirtualCameraState)
    ensures
        camera_message(
            *final(camera),
            ServiceStatus::Starting,
            "camera.detail.activationRequested"@,
            "Activation requested. Approve DJI Live Bridge Camera in System Settings if macOS asks."@,
        ),
        *final(camera) == (VirtualCameraState {
            status: ServiceStatus::Starting,
            detail_key: final(camera).detail_key,
            detail: final(camera).detail,
            ..*old(camera)
        }),
{
    camera.status = ServiceStatus::Starting;
    camera.detail_key = String::from_str("camera.detail.activationRequested");
    camera.detail = Some(
        String::from_str(
            "Activation requested. Approve DJI Live Bridge Camera in System Settings if macOS asks.",
        ),
    );
}

/// The camera feed runs.
pub fn camera_feed_started(camera: &mut VirtualCameraState)
    ensures
        final(camera).feed_active,
        final(camera).detail_key@ == "camera.detail.feedReady"@,
        is_some_str(
            final(camera).detail,
            "Portrait video is ready. DJI Live Bridge audio is disabled; select one microphone only in TikTok LIVE Studio."@,
        ),
        *final(camera) == (VirtualCameraState {
            feed_active: true,
            detail_key: final(camera).detail_key,
            detail: final(camera).detail,
            ..*old(camera)
        }),
{
    camera.feed_active = true;
    camera.detail_key = String::from_str("camera.detail.feedReady");
    camera.detail = Some(
        String::from_str(
            "Portrait video is ready. DJI Live Bridge audio is disabled; select one microphone only in TikTok LIVE Studio.",
        ),
    );
}

/// The camera feed stopped; the extension stays enabled.
pub fn camera_feed_stopped(camera: &mut VirtualCameraState)
    ensures
        !final(camera).feed_active,
        final(camera).detail_key@ == "camera.detail.feedStopped"@,
        is_some_str(final(camera).detail, "Camera extension is enabled; the video feed is stopped"@),
        *final(camera) == (VirtualCameraState {
            feed_active: false,
            detail_key: final(camera).detail_key,
            detail: final(camera).detail,
            ..*old(camera)
        }),
{
    camera.feed_active = false;
    camera.detail_key = String::from_str("camera.detail.feedStopped");
    camera.detail = Some(String::from_str("Camera extension is enabled; the video feed is stopped"));
}


/// OBS switched recording as asked: the state shows it, not paused, with
/// the file OBS reported (the last one kept when it reported none).
pub fn obs_recording_switched(obs: &mut ObsState, active: bool, path: Option<String>)
    ensures
        *final(obs) == (ObsState {
            recording_active: Some(active),
            recording_paused: Some(false),
            last_recording_path: if path is Some {
                path
            } else {
                old(obs).last_recording_path
            },
            ..*old(obs)
        }),
{
    obs.recording_active = Some(active);
    obs.recording_paused = Some(false);
    if path.is_some() {
        obs.last_recording_path = path;
    }
}

} // verus!
