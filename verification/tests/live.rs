use dji_live_bridge::config::RtmpDestinationKind;
use dji_live_bridge::live::apply_forward_statuses;
use dji_live_bridge::mediamtx::ForwardStatus;
use dji_live_bridge::state::{ProductionState, RtmpDestinationState};

fn destination(id: &str, name: &str) -> RtmpDestinationState {
    RtmpDestinationState {
        id: id.into(),
        name: name.into(),
        kind: RtmpDestinationKind::Custom,
        server: format!("rtmps://{id}.example.test/live"),
        enabled: true,
        state: None,
        last_error: None,
        outbound_bytes: 0,
    }
}

#[test]
fn forward_failures_are_isolated_per_destination() {
    let mut production = ProductionState {
        destinations: vec![destination("one", "One"), destination("two", "Two")],
        ..ProductionState::default()
    };
    let ids = vec!["one".to_string(), "two".to_string()];
    let statuses = vec![
        ForwardStatus { pos: 0, state: Some("forwarding".into()), last_error: None, outbound_bytes: 1_000 },
        ForwardStatus {
            pos: 1,
            state: Some("error".into()),
            last_error: Some("connection refused".into()),
            outbound_bytes: 0,
        },
    ];

    apply_forward_statuses(&mut production, &ids, &statuses);

    assert_eq!(production.forward_state.as_deref(), Some("partial"));
    assert_eq!(production.outbound_bytes, 1_000);
    assert_eq!(production.destinations[0].state.as_deref(), Some("forwarding"));
    assert_eq!(production.destinations[1].state.as_deref(), Some("error"));
    assert!(production.forward_error.as_deref().is_some_and(|error| error.contains("Two")));
}
