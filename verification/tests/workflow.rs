use dji_live_bridge::config::{AppConfig, ProductionEngine, RtmpDestinationConfig, RtmpDestinationKind};
use dji_live_bridge::error::{BridgeError, ErrorKind};
use dji_live_bridge::state::{
    BridgeSnapshot, PreviewMode, ServiceStatus, StreamMetadata, WorkflowState,
};
use dji_live_bridge::workflow::{
    apply_publisher_sample, live_destinations, live_start_destinations, preview_failure_reason,
    report_preview_status, reset_after_disconnect, shutdown_steps, transition, DueChecks, ShutdownGuard,
    MonitorSchedule, PublisherChange, PublisherSample, OBS_FIRST_BACKOFF_MS, OBS_MAX_BACKOFF_MS,
    OBS_POLL_MS,
};

fn config_destination(id: &str, server: &str, enabled: bool) -> RtmpDestinationConfig {
    RtmpDestinationConfig {
        id: id.to_string(),
        name: format!("Destination {id}"),
        kind: RtmpDestinationKind::Custom,
        server: server.to_string(),
        enabled,
    }
}

#[test]
fn workflow_moves_along_its_graph_and_clears_the_error() {
    let mut snapshot = BridgeSnapshot::default();
    snapshot.last_error = Some(dji_live_bridge::error::ErrorPayload::from(BridgeError::Process(
        "old".to_string(),
    )));
    assert!(transition(&mut snapshot, WorkflowState::Preparing).is_ok());
    assert_eq!(snapshot.workflow, WorkflowState::Preparing);
    assert!(snapshot.last_error.is_none());
    assert!(transition(&mut snapshot, WorkflowState::WaitingForDrone).is_ok());
    assert!(transition(&mut snapshot, WorkflowState::WaitingForDrone).is_ok());
    assert_eq!(snapshot.workflow, WorkflowState::WaitingForDrone);
}

#[test]
fn refused_transition_names_both_states_and_changes_nothing() {
    let mut snapshot = BridgeSnapshot::default();
    let error = transition(&mut snapshot, WorkflowState::Live).unwrap_err();
    assert_eq!(error.kind(), ErrorKind::InvalidTransition);
    assert_eq!(error.detail(), "Idle -> Live");
    assert_eq!(error.message(), "Invalid workflow transition: Idle -> Live");
    assert_eq!(snapshot.workflow, WorkflowState::Idle);
}

#[test]
fn every_state_may_stay_where_it_is() {
    for state in [
        WorkflowState::Idle,
        WorkflowState::Preparing,
        WorkflowState::WaitingForDrone,
        WorkflowState::DroneConnected,
        WorkflowState::PreparingObs,
        WorkflowState::Ready,
        WorkflowState::GoingLive,
        WorkflowState::Live,
        WorkflowState::Stopping,
    ] {
        assert!(state.can_transition_to(state));
    }
    assert!(WorkflowState::Live.can_transition_to(WorkflowState::Stopping));
    assert!(!WorkflowState::Live.can_transition_to(WorkflowState::Ready));
    assert!(WorkflowState::Stopping.can_transition_to(WorkflowState::Idle));
}

#[test]
fn publisher_sample_reports_arrival_and_departure() {
    let mut snapshot = BridgeSnapshot::default();
    let arrived = PublisherSample {
        present: true,
        ready_since_unix_ms: None,
        metadata: StreamMetadata { received_bytes: 5_000, ..StreamMetadata::default() },
    };
    let change = apply_publisher_sample(&mut snapshot, &arrived, 10_000);
    assert_eq!(change, PublisherChange::Connected);
    assert_eq!(snapshot.media_mtx, ServiceStatus::Ready);
    assert_eq!(snapshot.publisher_since_unix_ms, Some(10_000));
    assert_eq!(snapshot.metadata.received_bytes, 5_000);
    assert_eq!(snapshot.metadata.uptime_seconds, Some(0));

    let still = PublisherSample {
        present: true,
        ready_since_unix_ms: None,
        metadata: StreamMetadata::default(),
    };
    assert_eq!(apply_publisher_sample(&mut snapshot, &still, 14_500), PublisherChange::Unchanged);
    assert_eq!(snapshot.metadata.uptime_seconds, Some(4));

    snapshot.workflow = WorkflowState::Live;
    let gone = PublisherSample {
        present: false,
        ready_since_unix_ms: None,
        metadata: StreamMetadata::default(),
    };
    assert_eq!(
        apply_publisher_sample(&mut snapshot, &gone, 20_000),
        PublisherChange::Disconnected { was_live: true }
    );
    assert!(!snapshot.publisher_present);
    assert_eq!(snapshot.publisher_since_unix_ms, None);
    assert_eq!(snapshot.metadata.uptime_seconds, None);
}

#[test]
fn reported_ready_time_wins_and_uptime_never_goes_negative() {
    let mut snapshot = BridgeSnapshot::default();
    let sample = PublisherSample {
        present: true,
        ready_since_unix_ms: Some(50_000),
        metadata: StreamMetadata::default(),
    };
    apply_publisher_sample(&mut snapshot, &sample, 40_000);
    assert_eq!(snapshot.publisher_since_unix_ms, Some(50_000));
    assert_eq!(snapshot.metadata.uptime_seconds, Some(0));
}

#[test]
fn disconnect_returns_to_waiting_and_forgets_the_stream() {
    let mut snapshot = BridgeSnapshot::default();
    snapshot.workflow = WorkflowState::Live;
    snapshot.metadata.video_codec = Some("H264".to_string());
    snapshot.metadata.received_bytes = 99;
    snapshot.production.active = true;
    snapshot.production.outbound_bytes = 7;
    snapshot.production.recording_active = true;
    snapshot.virtual_camera.feed_active = true;
    snapshot.preview.mode = PreviewMode::Transcoded;
    reset_after_disconnect(&mut snapshot);
    assert_eq!(snapshot.workflow, WorkflowState::WaitingForDrone);
    assert_eq!(snapshot.metadata.video_codec, None);
    assert_eq!(snapshot.metadata.received_bytes, 0);
    assert!(!snapshot.production.active);
    assert_eq!(snapshot.production.outbound_bytes, 0);
    assert!(!snapshot.production.recording_active);
    assert!(!snapshot.virtual_camera.feed_active);
    assert_eq!(snapshot.preview.mode, PreviewMode::Direct);
    assert_eq!(snapshot.obs.stream_active, Some(false));
}

#[test]
fn schedule_runs_each_check_at_its_own_interval() {
    let mut schedule = MonitorSchedule::new(0);
    let first = schedule.due(0, ServiceStatus::Ready, true);
    assert!(!first.network && first.audio && first.publisher && !first.production);
    assert!(first.camera && !first.obs);

    schedule.ran(first, 0);
    let later = schedule.due(2_000, ServiceStatus::Ready, true);
    assert!(later.publisher && later.production && later.obs);
    assert!(!later.network && !later.audio && !later.camera);

    let pending_camera = schedule.due(2_000, ServiceStatus::Starting, false);
    assert!(pending_camera.camera);
    assert!(!pending_camera.obs);
    assert_eq!(
        schedule.due(5_000, ServiceStatus::Ready, true),
        DueChecks { network: true, audio: false, publisher: true, production: true, camera: false, obs: true }
    );
}

#[test]
fn metadata_probe_comes_soon_after_the_drone_connects() {
    let mut schedule = MonitorSchedule::new(0);
    assert!(!schedule.metadata_due(10_000, true));
    schedule.drone_connected(10_000);
    assert!(!schedule.metadata_due(11_000, true));
    assert!(schedule.metadata_due(12_000, true));
    assert!(!schedule.metadata_due(12_000, false));
    schedule.metadata_probed(12_000);
    assert!(!schedule.metadata_due(40_000, true));
    assert!(schedule.metadata_due(42_000, true));
}

#[test]
fn obs_backoff_doubles_up_to_its_ceiling_and_resets_on_answer() {
    let mut schedule = MonitorSchedule::new(0);
    assert_eq!(schedule.obs_backoff_ms, OBS_FIRST_BACKOFF_MS);
    let mut seen = Vec::new();
    for _ in 0..6 {
        schedule.obs_result(false);
        seen.push(schedule.obs_backoff_ms);
    }
    assert_eq!(seen, vec![4_000, 8_000, 16_000, 30_000, 30_000, 30_000]);
    assert!(seen.iter().all(|b| *b <= OBS_MAX_BACKOFF_MS));
    schedule.obs_result(true);
    assert_eq!(schedule.obs_backoff_ms, OBS_POLL_MS);
}

#[test]
fn live_needs_ready_and_an_enabled_destination() {
    let mut config = AppConfig::default();
    let error = live_start_destinations(WorkflowState::DroneConnected, &config).unwrap_err();
    assert_eq!(error.kind(), ErrorKind::InvalidTransition);
    assert_eq!(error.detail(), "START LIVE requires the Ready state");

    config.rtmp_destinations = vec![config_destination("a", "rtmp://a.example.test/live", false)];
    let error = live_start_destinations(WorkflowState::Ready, &config).unwrap_err();
    assert_eq!(error.kind(), ErrorKind::Validation);
    assert_eq!(error.detail(), "Enable at least one RTMP destination before starting");

    config.rtmp_destinations.push(config_destination("b", "rtmp://b.example.test/live", true));
    config.rtmp_destinations.push(config_destination("c", "rtmp://c.example.test/live", true));
    let enabled = live_start_destinations(WorkflowState::Ready, &config).unwrap();
    let ids: Vec<_> = enabled.iter().map(|d| d.id.as_str()).collect();
    assert_eq!(ids, vec!["b", "c"]);
}

#[test]
fn each_destination_needs_its_key() {
    let destinations = vec![
        config_destination("a", "rtmp://a.example.test/live", true),
        config_destination("b", "rtmp://b.example.test/live", true),
    ];
    let keys = vec![Some("key-a".to_string()), None];
    let error = live_destinations(&destinations, &keys, ProductionEngine::NativeFfmpeg).unwrap_err();
    assert_eq!(error.kind(), ErrorKind::Config);
    assert_eq!(error.detail(), "Stream key is missing for destination 'Destination b'");

    let keys = vec![Some("key-a".to_string()), Some("key-b".to_string())];
    let pairs = live_destinations(&destinations, &keys, ProductionEngine::NativeFfmpeg).unwrap();
    assert_eq!(pairs.len(), 2);
    assert_eq!(pairs[1].1, "key-b");

    let error = live_destinations(&destinations, &keys, ProductionEngine::Obs).unwrap_err();
    assert_eq!(error.kind(), ErrorKind::Validation);
    assert_eq!(
        error.detail(),
        "OBS streaming supports one RTMP destination here; use built-in production for multi-stream"
    );
}

#[test]
fn shutdown_stops_what_is_live() {
    let steps = shutdown_steps(WorkflowState::Live, ProductionEngine::NativeFfmpeg);
    assert!(steps.enter_stopping && steps.stop_native_production && !steps.stop_obs_stream);
    let steps = shutdown_steps(WorkflowState::Live, ProductionEngine::Obs);
    assert!(steps.stop_obs_stream && !steps.stop_native_production);
    let steps = shutdown_steps(WorkflowState::Idle, ProductionEngine::Obs);
    assert!(!steps.enter_stopping && !steps.stop_obs_stream);
}

#[test]
fn preview_failure_names_the_likely_codec_problem() {
    let aac = StreamMetadata { audio_codec: Some("AAC".into()), ..StreamMetadata::default() };
    assert_eq!(
        preview_failure_reason(&aac),
        "AAC is not a browser-compatible MediaMTX WebRTC audio codec"
    );
    let hevc = StreamMetadata { video_codec: Some("HEVC".into()), ..StreamMetadata::default() };
    assert_eq!(
        preview_failure_reason(&hevc),
        "H.265 browser decoding is not available in this WebView path"
    );
    assert_eq!(
        preview_failure_reason(&StreamMetadata::default()),
        "Direct WHEP failed; codec or local ICE compatibility could not be confirmed"
    );
}

#[test]
fn connected_direct_preview_with_aac_explains_the_missing_audio() {
    let mut snapshot = BridgeSnapshot::default();
    snapshot.metadata.audio_codec = Some("AAC".into());
    report_preview_status(&mut snapshot, true, Some("ignored".into()));
    assert_eq!(snapshot.preview.status, ServiceStatus::Ready);
    assert_eq!(snapshot.preview.reason_key.as_deref(), Some("preview.reason.aacNotice"));

    let mut snapshot = BridgeSnapshot::default();
    report_preview_status(&mut snapshot, false, Some("ICE failed".into()));
    assert_eq!(snapshot.preview.status, ServiceStatus::Failed);
    assert_eq!(snapshot.preview.reason_key.as_deref(), Some("preview.reason.failed"));
    assert_eq!(snapshot.preview.reason.as_deref(), Some("ICE failed"));

    report_preview_status(&mut snapshot, true, None);
    assert_eq!(snapshot.preview.reason_key, None);
    assert_eq!(snapshot.preview.reason, None);
}

#[test]
fn streaming_is_reached_only_through_going_live() {
    let all = [
        WorkflowState::Idle,
        WorkflowState::Preparing,
        WorkflowState::WaitingForDrone,
        WorkflowState::DroneConnected,
        WorkflowState::PreparingObs,
        WorkflowState::Ready,
        WorkflowState::GoingLive,
        WorkflowState::Live,
        WorkflowState::Stopping,
    ];
    let into_live: Vec<_> = all.iter().filter(|s| s.can_transition_to(WorkflowState::Live)).collect();
    assert_eq!(into_live, vec![&WorkflowState::GoingLive, &WorkflowState::Live]);
    let into_going: Vec<_> = all.iter().filter(|s| s.can_transition_to(WorkflowState::GoingLive)).collect();
    assert_eq!(into_going, vec![&WorkflowState::Ready, &WorkflowState::GoingLive]);
}

#[test]
fn shutdown_cleans_up_only_once() {
    let mut guard = ShutdownGuard::new();
    let first = guard.begin(WorkflowState::Live, ProductionEngine::NativeFfmpeg).unwrap();
    assert!(first.enter_stopping && first.stop_native_production && !first.stop_obs_stream);
    assert!(guard.begin(WorkflowState::Live, ProductionEngine::NativeFfmpeg).is_none());
    assert!(guard.begin(WorkflowState::Ready, ProductionEngine::Obs).is_none());
}
