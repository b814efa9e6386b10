use dji_live_bridge::error::{BridgeError, ErrorKind, ErrorPayload};
use dji_live_bridge::redact::redact_secrets;

#[test]
fn payload_carries_a_stable_code_and_translation_keys() {
    let payload = ErrorPayload::from(BridgeError::VirtualCamera("not enabled".into()));
    assert_eq!(payload.code, "VIRTUAL_CAMERA");
    assert_eq!(payload.message_key, "errors.message.virtualCamera");
    assert_eq!(payload.action_key, "errors.action.virtualCamera");
    assert_eq!(payload.detail, "Virtual camera error: not enabled");
    let payload = ErrorPayload::from(BridgeError::MediaMtx("down".into()));
    assert_eq!(payload.code, "MEDIAMTX");
    assert_eq!(payload.detail, "MediaMTX error: down");
}

#[test]
fn payload_detail_never_carries_a_secret() {
    let payload = ErrorPayload::from(BridgeError::Ffmpeg(
        "could not open rtmps://live.example.test:443/app#SECRETKEY with password=hunter2&x=1".into(),
    ));
    assert!(!payload.detail.contains("SECRETKEY"));
    assert!(!payload.detail.contains("hunter2"));
    assert_eq!(
        payload.detail,
        "FFmpeg error: could not open rtmps://live.example.test:443/app#[REDACTED] with password=[REDACTED]&x=1"
    );
}

#[test]
fn errors_display_with_their_prefix() {
    let error = BridgeError::Validation("bad".into());
    assert_eq!(error.kind(), ErrorKind::Validation);
    assert_eq!(error.message(), "Validation error: bad");
    assert_eq!(BridgeError::Io("x".into()).message(), "I/O error: x");
    assert_eq!(BridgeError::Http("x".into()).message(), "HTTP error: x");
    assert_eq!(BridgeError::Serialization("x".into()).message(), "Serialization error: x");
    assert_eq!(BridgeError::Network("x".into()).message(), "Network discovery failed: x");
}

#[test]
fn redaction_hides_keys_passwords_and_url_fragments() {
    assert_eq!(redact_secrets("stream_key=abc def"), "stream_key=[REDACTED] def");
    assert_eq!(redact_secrets("KEY=abc&next=1"), "KEY=[REDACTED]&next=1");
    assert_eq!(redact_secrets("pass=x"), "pass=[REDACTED]");
    assert_eq!(redact_secrets("rtmp://h/app#k1 and 'rtmps://h/a#k2'"), "rtmp://h/app#[REDACTED] and 'rtmps://h/a#[REDACTED]'");
    assert_eq!(redact_secrets("nothing to hide"), "nothing to hide");
}

#[test]
fn text_without_markers_is_left_as_it_is() {
    for text in [
        "rtmp://host/app without fragment",
        "ffmpeg exited with status 1",
        "",
        "Connection refused (os error 61)",
    ] {
        assert_eq!(redact_secrets(text), text);
    }
}

#[test]
fn every_marker_in_redacted_text_is_followed_by_the_mark() {
    let input = "KEY=abc Pass=x&Stream_Key=y#z password=hunter2 rtmp://h/a?key=q#frag key=";
    let output = redact_secrets(input);
    let lower = output.to_ascii_lowercase();
    let mut seen = 0;
    for marker in ["stream_key=", "key=", "password=", "pass="] {
        let mut from = 0;
        while let Some(offset) = lower[from..].find(marker) {
            let after = from + offset + marker.len();
            assert!(output[after..].starts_with("[REDACTED]"), "{marker} at {after} in {output}");
            seen += 1;
            from = after;
        }
    }
    assert!(seen >= 6);
    assert!(!output.contains("hunter2"));
    assert!(!output.contains("abc"));
}
