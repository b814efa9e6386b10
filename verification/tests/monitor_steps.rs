use dji_live_bridge::config::{ProductionEngine, RtmpDestinationKind};
use dji_live_bridge::error::{BridgeError, ErrorKind};
use dji_live_bridge::state::{BridgeSnapshot, ObsState, RtmpDestinationState, ServiceStatus, StreamMetadata, WorkflowState};
use dji_live_bridge::workflow::{
    disconnect_cleanup, live_outcome, native_start_cleanup, publisher_sampled, MonitorSchedule,
    NativeStartStep, ObsInspection, PublisherSample, PublisherStep, OBS_FIRST_BACKOFF_MS,
    OBS_MAX_BACKOFF_MS, OBS_POLL_MS,
};

fn running_destination(id: &str) -> RtmpDestinationState {
    RtmpDestinationState {
        id: id.to_string(),
        name: format!("Destination {id}"),
        kind: RtmpDestinationKind::Custom,
        server: "rtmp://example.test/live".to_string(),
        enabled: true,
        state: Some("running".to_string()),
        last_error: Some("slow".to_string()),
        outbound_bytes: 1_234,
    }
}

fn gone() -> PublisherSample {
    PublisherSample { present: false, ready_since_unix_ms: None, metadata: StreamMetadata::default() }
}

#[test]
fn drone_leaving_a_native_live_route_stops_everything_and_resets() {
    let mut snapshot = BridgeSnapshot::default();
    snapshot.workflow = WorkflowState::Live;
    snapshot.publisher_present = true;
    snapshot.publisher_since_unix_ms = Some(1_000);
    snapshot.production.active = true;
    snapshot.production.prepared = true;
    snapshot.production.outbound_bytes = 9_000;
    snapshot.production.destinations = vec![running_destination("a"), running_destination("b")];
    let mut active = vec!["a".to_string(), "b".to_string()];
    let step = publisher_sampled(&mut snapshot, &mut active, &gone(), 5_000, ProductionEngine::NativeFfmpeg);
    let PublisherStep::Left(cleanup) = step else { panic!("expected the drone to have left") };
    assert!(cleanup.clear_forwards && cleanup.stop_production);
    assert!(cleanup.stop_recording && cleanup.stop_preview && cleanup.stop_camera_feed);
    assert!(!cleanup.stop_obs_stream);
    assert_eq!(snapshot.workflow, WorkflowState::WaitingForDrone);
    assert!(!snapshot.production.active);
    assert!(!snapshot.production.prepared);
    assert_eq!(snapshot.production.outbound_bytes, 0);
    assert!(!snapshot.publisher_present);
    for d in &snapshot.production.destinations {
        assert_eq!(d.state, None);
        assert_eq!(d.last_error, None);
        assert_eq!(d.outbound_bytes, 0);
    }
    assert!(active.is_empty());
}

#[test]
fn drone_leaving_an_obs_live_route_stops_the_obs_stream() {
    let mut snapshot = BridgeSnapshot::default();
    snapshot.workflow = WorkflowState::Live;
    snapshot.publisher_present = true;
    let mut active = vec!["a".to_string()];
    let step = publisher_sampled(&mut snapshot, &mut active, &gone(), 5_000, ProductionEngine::Obs);
    let PublisherStep::Left(cleanup) = step else { panic!("expected the drone to have left") };
    assert!(cleanup.stop_obs_stream);
    assert!(!cleanup.clear_forwards && !cleanup.stop_production);
    assert_eq!(snapshot.obs.stream_active, Some(false));
    assert!(active.is_empty());
}

#[test]
fn arrival_and_steady_samples_keep_the_active_destinations() {
    let mut snapshot = BridgeSnapshot::default();
    let mut active = vec!["a".to_string()];
    let here = PublisherSample { present: true, ready_since_unix_ms: Some(2_000), metadata: StreamMetadata::default() };
    let step = publisher_sampled(&mut snapshot, &mut active, &here, 5_000, ProductionEngine::NativeFfmpeg);
    assert_eq!(step, PublisherStep::Connected);
    assert_eq!(snapshot.publisher_since_unix_ms, Some(2_000));
    assert_eq!(snapshot.metadata.uptime_seconds, Some(3));
    let step = publisher_sampled(&mut snapshot, &mut active, &here, 6_000, ProductionEngine::NativeFfmpeg);
    assert_eq!(step, PublisherStep::Unchanged);
    assert_eq!(active, vec!["a".to_string()]);
}

#[test]
fn disconnect_cleanup_depends_on_being_live() {
    let idle = disconnect_cleanup(false, ProductionEngine::NativeFfmpeg);
    assert!(!idle.clear_forwards && !idle.stop_production && !idle.stop_obs_stream);
    assert!(idle.stop_recording && idle.stop_preview && idle.stop_camera_feed);
    let obs = disconnect_cleanup(true, ProductionEngine::Obs);
    assert!(obs.stop_obs_stream && !obs.clear_forwards && !obs.stop_production);
}

#[test]
fn failed_native_start_undoes_what_it_had_done() {
    let c = native_start_cleanup(NativeStartStep::ConfigureForwards);
    assert!(!c.clear_forwards && !c.stop_production);
    let c = native_start_cleanup(NativeStartStep::StartProduction);
    assert!(c.clear_forwards && !c.stop_production);
    let c = native_start_cleanup(NativeStartStep::WaitForPath);
    assert!(c.clear_forwards && c.stop_production);
    let c = native_start_cleanup(NativeStartStep::WaitForForwards);
    assert!(c.clear_forwards && c.stop_production);
}

#[test]
fn successful_native_start_goes_live_with_its_destinations() {
    let mut snapshot = BridgeSnapshot::default();
    snapshot.workflow = WorkflowState::GoingLive;
    let mut active = Vec::new();
    let started = vec!["a".to_string(), "b".to_string()];
    let r = live_outcome(
        &mut snapshot,
        &mut active,
        started.clone(),
        ProductionEngine::NativeFfmpeg,
        Ok(Some("h264_videotoolbox".to_string())),
    );
    assert!(r.is_ok());
    assert_eq!(snapshot.workflow, WorkflowState::Live);
    assert!(snapshot.production.active);
    assert_eq!(snapshot.production.path_status, ServiceStatus::Ready);
    assert_eq!(snapshot.production.encoder.as_deref(), Some("h264_videotoolbox"));
    assert_eq!(active, started);
}

#[test]
fn failed_start_returns_to_ready_with_its_error() {
    let mut snapshot = BridgeSnapshot::default();
    snapshot.workflow = WorkflowState::GoingLive;
    let mut active = vec!["old".to_string()];
    let r = live_outcome(
        &mut snapshot,
        &mut active,
        vec!["a".to_string()],
        ProductionEngine::NativeFfmpeg,
        Err(BridgeError::MediaMtx("forward refused".to_string())),
    );
    let error = r.unwrap_err();
    assert_eq!(error.kind(), ErrorKind::MediaMtx);
    assert_eq!(error.detail(), "forward refused");
    assert_eq!(snapshot.workflow, WorkflowState::Ready);
    assert!(!snapshot.production.active);
    assert_eq!(active, vec!["old".to_string()]);
}

#[test]
fn start_outcome_outside_going_live_is_a_refused_move() {
    let mut snapshot = BridgeSnapshot::default();
    let mut active = Vec::new();
    let r = live_outcome(&mut snapshot, &mut active, Vec::new(), ProductionEngine::Obs, Ok(None));
    let error = r.unwrap_err();
    assert_eq!(error.kind(), ErrorKind::InvalidTransition);
    assert_eq!(error.detail(), "Idle -> Live");
    assert_eq!(snapshot.workflow, WorkflowState::Idle);
    assert_eq!(snapshot.obs.stream_active, Some(true));
}

#[test]
fn obs_is_polled_again_once_its_wait_has_passed() {
    let mut schedule = MonitorSchedule::new(0);
    let mut obs = ObsState::default();
    assert_eq!(schedule.obs_backoff_ms, OBS_FIRST_BACKOFF_MS);
    let mut now = 0u64;
    let mut waits = Vec::new();
    for _ in 0..6 {
        now += 1_000;
        while !schedule.due(now, ServiceStatus::Unavailable, true).obs {
            now += 1_000;
        }
        let unreachable = ObsInspection::Unreachable {
            installed: true,
            running: false,
            error: "connection refused".to_string(),
        };
        schedule.obs_checked(&mut obs, now, unreachable);
        waits.push(schedule.obs_backoff_ms);
        assert!(!obs.connected);
        assert_eq!(obs.last_error.as_deref(), Some("connection refused"));
        assert!(obs.installed && !obs.running);
    }
    assert_eq!(waits, vec![4_000, 8_000, 16_000, 30_000, 30_000, 30_000]);
    assert!(!schedule.due(now + OBS_MAX_BACKOFF_MS - 1_000, ServiceStatus::Unavailable, true).obs);
    assert!(schedule.due(now + OBS_MAX_BACKOFF_MS, ServiceStatus::Unavailable, true).obs);
    let answer = ObsState { connected: true, installed: true, running: true, ..ObsState::default() };
    schedule.obs_checked(&mut obs, now + OBS_MAX_BACKOFF_MS, ObsInspection::Answered(answer));
    assert!(obs.connected);
    assert_eq!(obs.last_error, None);
    assert_eq!(schedule.obs_backoff_ms, OBS_POLL_MS);
    assert!(!schedule.due(now + OBS_MAX_BACKOFF_MS, ServiceStatus::Unavailable, false).obs);
}
