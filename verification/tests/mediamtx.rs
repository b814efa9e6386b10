use dji_live_bridge::mediamtx::{
    drone_presence, forward_dest, forward_statuses, forward_targets, forward_wait, metric_candidates,
    parse_rfc3339_rough, path_ready, sidecar_exit_message, ForwardItem, ForwardStatus, ForwardWait,
    PathItem,
};

#[test]
fn forward_dest_avoids_double_slash_and_keeps_query() {
    let key = "IG123?s_bl=1&s_vt=ig&a=Ab";
    assert_eq!(
        forward_dest("rtmps://edgetee-upload.example:443/rtmp/", key),
        "rtmps://edgetee-upload.example:443/rtmp#IG123?s_bl=1&s_vt=ig&a=Ab"
    );
    assert_eq!(forward_dest("rtmp://push.example/live", "abc"), "rtmp://push.example/live#abc");
}

#[test]
fn sigkill_points_at_code_signing() {
    let message = sidecar_exit_message("process exited with signal: 9 (SIGKILL)");
    assert!(message.contains("npm run build:mac"));
    assert!(message.contains("SIGKILL"));
}

#[test]
fn other_exits_are_reported_plainly() {
    let message = sidecar_exit_message("process exited with exit status: 1");
    assert!(message.contains("exit status: 1"));
    assert!(!message.contains("build:mac"));
}

fn item(pos: Option<u64>, state: &str, error: Option<&str>, bytes: u64) -> ForwardItem {
    ForwardItem {
        pos,
        state: Some(state.to_string()),
        last_error: error.map(str::to_string),
        outbound_bytes: Some(bytes),
    }
}

#[test]
fn forward_statuses_are_sorted_stably_by_position() {
    let items = vec![
        item(Some(2), "error", Some("rtmps://x/live?key=abc123 refused"), 0),
        item(Some(0), "forwarding", Some(""), 10),
        item(None, "starting", None, 0),
        item(Some(1), "forwarding", None, 7),
    ];
    let statuses = forward_statuses(&items);
    let order: Vec<(usize, Option<String>)> = statuses.iter().map(|s| (s.pos, s.state.clone())).collect();
    assert_eq!(
        order,
        vec![
            (0, Some("forwarding".to_string())),
            (0, Some("starting".to_string())),
            (1, Some("forwarding".to_string())),
            (2, Some("error".to_string())),
        ]
    );
    assert_eq!(statuses[0].last_error, None, "an empty error is no error");
    let redacted = statuses[3].last_error.as_deref().unwrap();
    assert!(!redacted.contains("abc123"));
}

fn status(state: &str, error: Option<&str>) -> ForwardStatus {
    ForwardStatus { pos: 0, state: Some(state.to_string()), last_error: error.map(str::to_string), outbound_bytes: 0 }
}

#[test]
fn waiting_for_forwards_goes_live_when_one_forwards() {
    let settled = vec![status("forwarding", None), status("error", Some("refused"))];
    assert!(matches!(forward_wait(&settled, 2, false), ForwardWait::Ready));
    let failed = vec![status("error", Some("refused")), status("error", Some("timeout"))];
    match forward_wait(&failed, 2, false) {
        ForwardWait::Failed(e) => assert_eq!(e.message(), "MediaMTX error: all production destinations failed: refused; timeout"),
        other => panic!("unexpected {other:?}"),
    }
    let silent = vec![status("error", None)];
    match forward_wait(&silent, 1, false) {
        ForwardWait::Failed(e) => assert_eq!(e.message(), "MediaMTX error: all production destinations failed: unknown error"),
        other => panic!("unexpected {other:?}"),
    }
    let pending = vec![status("starting", None)];
    assert!(matches!(forward_wait(&pending, 1, false), ForwardWait::Waiting));
    match forward_wait(&pending, 1, true) {
        ForwardWait::Failed(e) => assert_eq!(e.message(), "MediaMTX error: no production destination started within the readiness window"),
        other => panic!("unexpected {other:?}"),
    }
    let partial = vec![status("forwarding", None), status("starting", None)];
    assert!(matches!(forward_wait(&partial, 2, true), ForwardWait::Ready));
}

#[test]
fn forward_targets_need_a_valid_destination() {
    assert_eq!(
        forward_targets(&vec![]).unwrap_err().message(),
        "Validation error: At least one enabled RTMP destination is required"
    );
    let targets = forward_targets(&vec![("rtmps://live.example/app/".to_string(), "KEY".to_string())]).unwrap();
    assert_eq!(targets, vec!["rtmps://live.example/app#KEY".to_string()]);
    assert!(forward_targets(&vec![("http://x/".to_string(), "KEY".to_string())]).is_err());
}

#[test]
fn metrics_are_read_by_metric_and_path() {
    let body = "paths_inbound_bytes{name=\"other\"} 5\npaths_inbound_bytes{name=\"drone\",state=\"ready\"} 1234\npaths_bytes{name=\"drone\"} 9\n";
    assert_eq!(metric_candidates(body, "paths_inbound_bytes", "drone"), vec!["1234".to_string()]);
    assert!(metric_candidates(body, "paths_outbound", "drone").is_empty());
}

#[test]
fn ready_time_is_read_as_unix_milliseconds() {
    assert_eq!(parse_rfc3339_rough("2024-01-02T03:04:05.678Z"), Some(1_704_164_645_678));
    assert_eq!(parse_rfc3339_rough("1969-12-31T23:59:59Z"), None);
    assert_eq!(parse_rfc3339_rough("yesterday"), None);
}

#[test]
fn the_drone_path_is_found_by_name() {
    let items = vec![
        PathItem { name: Some("production".into()), ready: Some(true), ready_time: None },
        PathItem { name: Some("drone".into()), ready: Some(true), ready_time: Some("1970-01-01T00:00:01Z".into()) },
    ];
    assert_eq!(drone_presence(&Some(items.clone())), (true, Some(1000)));
    assert_eq!(drone_presence(&None), (false, None));
    assert!(path_ready(&items, "production"));
    assert!(!path_ready(&items, "drone-preview"));
}
