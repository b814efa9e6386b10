use dji_live_bridge::config::{validate_rtmp_destination, validate_rtmp_destination_config, RtmpDestinationConfig, RtmpDestinationKind};

#[test]
fn destination_validation_rejects_key_fragments() {
    let destination = RtmpDestinationConfig {
        id: "target-1".into(),
        name: "Target".into(),
        kind: RtmpDestinationKind::Custom,
        server: "rtmps://example.test/live#secret".into(),
        enabled: true,
    };
    assert!(validate_rtmp_destination_config(&destination).is_err());
}

#[test]
fn stream_keys_and_servers_are_checked() {
    assert!(validate_rtmp_destination("rtmps://live.example:443/app", "abc-123").is_ok());
    let message = |server: &str, key: &str| validate_rtmp_destination(server, key).unwrap_err().message();
    assert_eq!(message("not a url", "k"), "Validation error: RTMP server URL is invalid");
    assert_eq!(message("https://live.example/app", "k"), "Validation error: RTMP destination must use rtmp:// or rtmps://");
    assert_eq!(
        message("rtmp://user:pw@live.example/app", "k"),
        "Validation error: RTMP destination requires a host and must not contain credentials"
    );
    assert_eq!(
        message("rtmp://live.example/app#key", "k"),
        "Validation error: RTMP server URL must not contain a stream-key fragment"
    );
    assert_eq!(message("rtmp://live.example/app", "a b"), "Validation error: Stream key is invalid");
    assert_eq!(message("rtmp://live.example/app", "   "), "Validation error: Stream key is invalid");
}
