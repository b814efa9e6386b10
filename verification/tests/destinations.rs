use dji_live_bridge::config::{
    apply_destination_update, migrate_legacy_destination, prepare_destination_update,
    remove_destination, rtmp_keychain_account, set_destination_enabled, validate_config, AppConfig,
    DestinationMode, LegacyMigration, MicrophoneVolume, RtmpDestinationConfig, RtmpDestinationInput,
    RtmpDestinationKind, StreamKeySource,
};
use dji_live_bridge::error::ErrorKind;

fn input(id: Option<&str>, server: &str, key: Option<&str>) -> RtmpDestinationInput {
    RtmpDestinationInput {
        id: id.map(str::to_string),
        name: "  Instagram main ".to_string(),
        kind: RtmpDestinationKind::Instagram,
        server: server.to_string(),
        key: key.map(str::to_string),
        enabled: true,
    }
}

#[test]
fn a_new_destination_needs_a_key_and_is_appended() {
    let mut config = AppConfig::default();
    let error = prepare_destination_update(&config, input(None, "rtmps://live.example.test:443/rtmp/", None), "fresh-1".into(), false)
        .unwrap_err();
    assert_eq!(error.kind(), ErrorKind::Validation);
    assert_eq!(error.detail(), "A stream key is required for a new destination");

    let update = prepare_destination_update(
        &config,
        input(None, " rtmps://live.example.test:443/rtmp/# ", Some("IG-KEY")),
        "fresh-1".into(),
        false,
    )
    .unwrap();
    assert_eq!(update.destination.id, "fresh-1");
    assert_eq!(update.destination.name, "Instagram main");
    assert_eq!(update.destination.server, "rtmps://live.example.test:443/rtmp/");
    assert!(update.existing.is_none());
    assert!(matches!(&update.key, StreamKeySource::Provided(k) if k == "IG-KEY"));
    apply_destination_update(&mut config, update.destination, update.existing);
    assert_eq!(config.rtmp_destinations.len(), 1);
    assert!(validate_config(&config).is_ok());

    let edit = prepare_destination_update(
        &config,
        input(Some("fresh-1"), "rtmps://other.example.test/live", None),
        "unused".into(),
        false,
    )
    .unwrap();
    assert_eq!(edit.existing, Some(0));
    assert!(matches!(edit.key, StreamKeySource::Stored));
}

#[test]
fn editing_is_refused_while_live() {
    let config = AppConfig::default();
    let error = prepare_destination_update(&config, input(None, "rtmp://a.example.test/live", Some("k")), "x".into(), true)
        .unwrap_err();
    assert_eq!(error.kind(), ErrorKind::InvalidTransition);
    assert_eq!(error.detail(), "Stop the live route before editing destinations");
}

#[test]
fn removing_an_added_destination_restores_the_list() {
    let mut config = AppConfig::default();
    let first = RtmpDestinationConfig {
        id: "a".into(),
        name: "A".into(),
        kind: RtmpDestinationKind::Custom,
        server: "rtmp://a.example.test/live".into(),
        enabled: true,
    };
    config.rtmp_destinations.push(first);
    let before: Vec<String> = config.rtmp_destinations.iter().map(|d| d.id.clone()).collect();
    let added = RtmpDestinationConfig {
        id: "b".into(),
        name: "B".into(),
        kind: RtmpDestinationKind::TikTok,
        server: "rtmp://b.example.test/live".into(),
        enabled: false,
    };
    apply_destination_update(&mut config, added, None);
    assert_eq!(config.rtmp_destinations.len(), 2);
    remove_destination(&mut config, "b", false).unwrap();
    let after: Vec<String> = config.rtmp_destinations.iter().map(|d| d.id.clone()).collect();
    assert_eq!(after, before);

    let error = remove_destination(&mut config, "missing", false).unwrap_err();
    assert_eq!(error.detail(), "RTMP destination was not found");
    let error = remove_destination(&mut config, "a", true).unwrap_err();
    assert_eq!(error.kind(), ErrorKind::InvalidTransition);
    assert_eq!(config.rtmp_destinations.len(), 1);
}

#[test]
fn enabling_changes_only_that_destination() {
    let mut config = AppConfig::default();
    for id in ["a", "b"] {
        config.rtmp_destinations.push(RtmpDestinationConfig {
            id: id.into(),
            name: id.to_uppercase(),
            kind: RtmpDestinationKind::Custom,
            server: format!("rtmp://{id}.example.test/live"),
            enabled: true,
        });
    }
    set_destination_enabled(&mut config, "b", false, false).unwrap();
    assert!(config.rtmp_destinations[0].enabled);
    assert!(!config.rtmp_destinations[1].enabled);
    assert!(set_destination_enabled(&mut config, "zzz", true, false).is_err());
    assert_eq!(
        set_destination_enabled(&mut config, "a", false, true).unwrap_err().detail(),
        "Stop the live route before changing active destinations"
    );
}

#[test]
fn legacy_single_destination_moves_into_the_list() {
    let mut config = AppConfig::default();
    assert!(matches!(migrate_legacy_destination(&mut config).unwrap(), LegacyMigration::Absent));

    config.destination_mode = Some(DestinationMode::CustomRtmp);
    config.destination_server = Some("rtmps://example.test/live".into());
    match migrate_legacy_destination(&mut config).unwrap() {
        LegacyMigration::Added(id) => assert_eq!(id, "migrated-custom-rtmp"),
        other => panic!("unexpected {other:?}"),
    }
    assert_eq!(config.rtmp_destinations.len(), 1);
    assert_eq!(config.rtmp_destinations[0].name, "Custom RTMP");
    assert!(config.destination_mode.is_none() && config.destination_server.is_none());

    let mut studio = AppConfig::default();
    studio.destination_mode = Some(DestinationMode::TikTokLiveStudio);
    assert!(matches!(migrate_legacy_destination(&mut studio).unwrap(), LegacyMigration::Cleared));
    assert!(studio.rtmp_destinations.is_empty() && studio.destination_mode.is_none());
}

#[test]
fn a_configuration_is_checked_before_it_is_saved() {
    let mut config = AppConfig::default();
    config.obs_port = 0;
    assert_eq!(validate_config(&config).unwrap_err().detail(), "OBS host and port must be valid");
    let mut config = AppConfig::default();
    config.microphone_volume = MicrophoneVolume { text: "20".into(), in_range: false };
    assert_eq!(
        validate_config(&config).unwrap_err().detail(),
        "Microphone volume must be between -60 dB and +12 dB"
    );
    let mut config = AppConfig::default();
    let twin = RtmpDestinationConfig {
        id: "same".into(),
        name: "One".into(),
        kind: RtmpDestinationKind::Custom,
        server: "rtmp://a.example.test/live".into(),
        enabled: true,
    };
    config.rtmp_destinations = vec![twin.clone(), twin];
    assert_eq!(validate_config(&config).unwrap_err().detail(), "RTMP destination IDs must be unique");
    assert_eq!(rtmp_keychain_account("abc"), "rtmp-stream-key:abc");
}
