use dji_live_bridge::config::FitMode;
use dji_live_bridge::error::ErrorKind;
use dji_live_bridge::obs::{
    authentication_string, bounds_type, check_identified, identify, media_source_check,
    needs_switch, obs_endpoint, record_request, require_requests, response_outcome,
    restored_video_settings, scene_ready, scene_requests, sorted_requests, state_from_version,
    stream_start_check, virtual_camera_request, AuthChallenge, ObsHello, ObsMessage,
    RecordStatus, RequestStatus, ResponseOutcome,
};

fn names(list: &[&str]) -> Vec<String> {
    list.iter().map(|s| s.to_string()).collect()
}

#[test]
fn authentication_follows_the_obs_websocket_protocol() {
    let answer = authentication_string(
        "supersecretpassword",
        "lM1GncleQOaCu9lT1yeUZhFYnqhsLLP1G5lAGo3ixaI=",
        "+IxH4CnCiqpX1rM9scsNynZzbOe4KhDeYcTNS3PDaeY=",
    );
    assert_eq!(answer, "1Ct943GAT+6YQUUX47Ia/ncufilbe6+oD6lY+5kaCu4=");
}

#[test]
fn endpoint_needs_a_host_and_a_port() {
    assert_eq!(obs_endpoint("127.0.0.1", 4455).unwrap(), "ws://127.0.0.1:4455");
    let error = obs_endpoint("  ", 4455).unwrap_err();
    assert_eq!(error.kind(), ErrorKind::Validation);
    assert_eq!(error.detail(), "OBS endpoint is invalid");
    assert!(obs_endpoint("localhost", 0).is_err());
}

#[test]
fn identify_answers_the_hello() {
    let plain = ObsHello { op: Some(0), has_data: true, rpc_version: Some(1), authentication: None };
    let id = identify(&plain, None).unwrap();
    assert_eq!(id.rpc_version, 1);
    assert!(id.authentication.is_none());

    let newer = ObsHello { op: Some(0), has_data: true, rpc_version: Some(3), authentication: None };
    assert_eq!(identify(&newer, None).unwrap().rpc_version, 1);

    let secured = ObsHello {
        op: Some(0),
        has_data: true,
        rpc_version: None,
        authentication: Some(AuthChallenge {
            salt: Some("lM1GncleQOaCu9lT1yeUZhFYnqhsLLP1G5lAGo3ixaI=".into()),
            challenge: Some("+IxH4CnCiqpX1rM9scsNynZzbOe4KhDeYcTNS3PDaeY=".into()),
        }),
    };
    let id = identify(&secured, Some("supersecretpassword")).unwrap();
    assert_eq!(id.authentication.as_deref(), Some("1Ct943GAT+6YQUUX47Ia/ncufilbe6+oD6lY+5kaCu4="));
    let error = identify(&secured, None).unwrap_err();
    assert_eq!(error.kind(), ErrorKind::Obs);
    assert_eq!(error.detail(), "OBS WebSocket requires a password; save it to Keychain");
}

#[test]
fn malformed_hellos_are_refused_in_order() {
    let not_hello = ObsHello { op: Some(5), has_data: true, rpc_version: None, authentication: None };
    assert_eq!(identify(&not_hello, None).unwrap_err().detail(), "OBS did not send protocol Hello");
    let no_data = ObsHello { op: Some(0), has_data: false, rpc_version: None, authentication: None };
    assert_eq!(identify(&no_data, None).unwrap_err().detail(), "OBS Hello payload is invalid");
    let no_salt = ObsHello {
        op: Some(0),
        has_data: true,
        rpc_version: None,
        authentication: Some(AuthChallenge { salt: None, challenge: Some("c".into()) }),
    };
    assert_eq!(identify(&no_salt, Some("pw")).unwrap_err().detail(), "OBS auth salt missing");
    let no_challenge = ObsHello {
        op: Some(0),
        has_data: true,
        rpc_version: None,
        authentication: Some(AuthChallenge { salt: Some("s".into()), challenge: None }),
    };
    assert_eq!(identify(&no_challenge, Some("pw")).unwrap_err().detail(), "OBS auth challenge missing");
    assert!(check_identified(Some(2)).is_ok());
    assert_eq!(check_identified(Some(3)).unwrap_err().detail(), "OBS authentication was rejected");
    assert!(check_identified(None).is_err());
}

#[test]
fn responses_are_matched_to_their_request() {
    let done = ObsMessage {
        op: Some(7),
        has_payload: true,
        request_id: Some("id-1".into()),
        status: Some(RequestStatus { result: Some(true), code: Some(100), comment: None }),
    };
    assert!(matches!(response_outcome("GetVersion", "id-1", &done), ResponseOutcome::Done));
    assert!(matches!(response_outcome("GetVersion", "id-2", &done), ResponseOutcome::Skip));
    let event = ObsMessage { op: Some(5), has_payload: true, request_id: None, status: None };
    assert!(matches!(response_outcome("GetVersion", "id-1", &event), ResponseOutcome::Skip));

    let failed = ObsMessage {
        op: Some(7),
        has_payload: true,
        request_id: Some("id-1".into()),
        status: Some(RequestStatus { result: Some(false), code: Some(604), comment: Some("no scene".into()) }),
    };
    match response_outcome("CreateScene", "id-1", &failed) {
        ResponseOutcome::Failed(error) => {
            assert_eq!(error.detail(), "CreateScene failed (604): no scene");
        }
        other => panic!("unexpected {other:?}"),
    }
    let bare = ObsMessage {
        op: Some(7),
        has_payload: true,
        request_id: Some("id-1".into()),
        status: Some(RequestStatus { result: None, code: None, comment: None }),
    };
    match response_outcome("StartStream", "id-1", &bare) {
        ResponseOutcome::Failed(error) => assert_eq!(error.detail(), "StartStream failed (0): request failed"),
        other => panic!("unexpected {other:?}"),
    }
    let no_status = ObsMessage { op: Some(7), has_payload: true, request_id: Some("id-1".into()), status: None };
    match response_outcome("StopStream", "id-1", &no_status) {
        ResponseOutcome::Failed(error) => assert_eq!(error.detail(), "StopStream: status missing"),
        other => panic!("unexpected {other:?}"),
    }
    let no_payload = ObsMessage { op: Some(7), has_payload: false, request_id: None, status: None };
    match response_outcome("StopStream", "id-1", &no_payload) {
        ResponseOutcome::Failed(error) => assert_eq!(error.detail(), "StopStream: invalid response payload"),
        other => panic!("unexpected {other:?}"),
    }
}

#[test]
fn missing_requests_are_named_in_the_order_required() {
    let available = names(&["GetVersion", "StartStream"]);
    assert!(require_requests(&available, &vec!["StartStream"]).is_ok());
    let error = require_requests(&available, &vec!["GetStreamStatus", "StartStream", "StopStream"]).unwrap_err();
    assert_eq!(error.kind(), ErrorKind::UnsupportedAutomation);
    assert_eq!(
        error.detail(),
        "OBS does not advertise required request(s): GetStreamStatus, StopStream"
    );
}

#[test]
fn advertised_requests_are_sorted_once_each() {
    let sorted = sorted_requests(&names(&["StopStream", "GetVersion", "StartStream", "GetVersion"]));
    assert_eq!(sorted, names(&["GetVersion", "StartStream", "StopStream"]));
    let state = state_from_version(
        true,
        Some("31.0.0".into()),
        Some("5.5.0".into()),
        &names(&["b", "a"]),
        Some(false),
        None,
        Some(RecordStatus { active: Some(true), paused: Some(false), path: Some("/r.mkv".into()) }),
    );
    assert_eq!(state.available_requests, names(&["a", "b"]));
    assert!(state.connected && state.running && !state.scene_ready);
    assert_eq!(state.recording_active, Some(true));
    assert_eq!(state.last_recording_path.as_deref(), Some("/r.mkv"));
}

#[test]
fn the_scene_is_ready_once_both_the_scene_and_the_input_exist() {
    let requests = names(&["GetSceneList", "GetInputList"]);
    let scenes = Some(names(&["Main", "DJI LIVE"]));
    let inputs = Some(names(&["DJI Drone"]));
    assert!(scene_ready(&requests, &scenes, &inputs));
    assert!(!scene_ready(&requests, &scenes, &None));
    assert!(!scene_ready(&requests, &Some(names(&["Main"])), &inputs));
    assert!(!scene_ready(&names(&["GetSceneList"]), &scenes, &inputs));
}

#[test]
fn outputs_switch_only_when_needed() {
    assert!(needs_switch(None, true));
    assert!(!needs_switch(Some(true), true));
    assert!(needs_switch(Some(true), false));
    assert!(!needs_switch(None, false));
    assert_eq!(record_request(true), "StartRecord");
    assert_eq!(record_request(false), "StopRecord");
    assert_eq!(virtual_camera_request(true), "StartVirtualCam");
    assert_eq!(virtual_camera_request(false), "StopVirtualCam");
}

#[test]
fn streaming_obs_keeps_its_settings() {
    assert!(stream_start_check(Some(false)).is_ok());
    assert!(stream_start_check(None).is_ok());
    assert_eq!(
        stream_start_check(Some(true)).unwrap_err().detail(),
        "OBS is already streaming; service settings were not changed"
    );
}

#[test]
fn scene_preparation_needs_the_ffmpeg_source() {
    assert!(media_source_check(&names(&["image_source", "ffmpeg_source"])).is_ok());
    let error = media_source_check(&names(&["image_source"])).unwrap_err();
    assert_eq!(error.kind(), ErrorKind::UnsupportedAutomation);
    assert_eq!(bounds_type(FitMode::Fit), "OBS_BOUNDS_SCALE_INNER");
    assert_eq!(bounds_type(FitMode::Fill), "OBS_BOUNDS_SCALE_OUTER");
    assert_eq!(scene_requests().len(), 12);
    assert_eq!(scene_requests()[0], "GetSceneList");
    assert_eq!(
        restored_video_settings(),
        vec!["fpsNumerator", "fpsDenominator", "baseWidth", "baseHeight", "outputWidth", "outputHeight"]
    );
}
