use dji_live_bridge::error::ErrorKind;
use dji_live_bridge::obs::{
    media_source_overrides, media_source_step, record_step, remember_first, scene_creation_needed,
    scene_item_needed, MediaSetting, MediaSourceRequest, RecordStep,
};

fn list(items: &[&str]) -> Vec<String> {
    items.iter().map(|s| s.to_string()).collect()
}

#[test]
fn the_drone_source_reads_mediamtx_over_rtsp() {
    let overrides = media_source_overrides();
    let keys: Vec<_> = overrides.iter().map(|(k, _)| *k).collect();
    assert_eq!(keys, vec!["input", "is_local_file", "restart_on_activate", "close_when_inactive"]);
    assert!(matches!(&overrides[0].1, MediaSetting::Text(t) if t == "rtsp://127.0.0.1:8554/drone"));
    assert!(matches!(overrides[1].1, MediaSetting::Flag(false)));
    assert!(matches!(overrides[2].1, MediaSetting::Flag(true)));
    assert!(matches!(overrides[3].1, MediaSetting::Flag(false)));
}

#[test]
fn the_drone_input_is_updated_when_it_exists_and_created_otherwise() {
    let kinds = list(&["image_source", "ffmpeg_source"]);
    assert_eq!(
        media_source_step(&kinds, &list(&["Other", "DJI Drone"])).unwrap(),
        MediaSourceRequest::UpdateExisting
    );
    assert_eq!(media_source_step(&kinds, &list(&["Other"])).unwrap(), MediaSourceRequest::CreateInput);
    let error = media_source_step(&list(&["image_source"]), &list(&["DJI Drone"])).unwrap_err();
    assert_eq!(error.kind(), ErrorKind::UnsupportedAutomation);
    assert_eq!(error.detail(), "OBS does not advertise the ffmpeg_source input kind");
    assert!(scene_item_needed(false));
    assert!(!scene_item_needed(true));
}

#[test]
fn the_scene_is_created_only_when_missing() {
    assert!(scene_creation_needed(&list(&["Main"])));
    assert!(!scene_creation_needed(&list(&["Main", "DJI LIVE"])));
    assert!(scene_creation_needed(&Vec::new()));
}

#[test]
fn the_first_snapshot_of_obs_settings_is_kept() {
    let mut slot: Option<u32> = None;
    remember_first(&mut slot, 1);
    remember_first(&mut slot, 2);
    assert_eq!(slot, Some(1));
}

#[test]
fn recording_is_switched_only_when_needed() {
    match record_step(true, Some(false), Some("/old.mkv".into())) {
        RecordStep::Send(request) => assert_eq!(request, "StartRecord"),
        other => panic!("unexpected {other:?}"),
    }
    match record_step(false, Some(true), None) {
        RecordStep::Send(request) => assert_eq!(request, "StopRecord"),
        other => panic!("unexpected {other:?}"),
    }
    match record_step(true, Some(true), Some("/r.mkv".into())) {
        RecordStep::Done(path) => assert_eq!(path.as_deref(), Some("/r.mkv")),
        other => panic!("unexpected {other:?}"),
    }
    match record_step(false, None, None) {
        RecordStep::Done(path) => assert_eq!(path, None),
        other => panic!("unexpected {other:?}"),
    }
}
