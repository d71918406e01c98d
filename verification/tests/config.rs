use rairstream::config::AppConfig;

#[test]
fn test_default_config_contract() {
    let config = AppConfig::default();

    assert!(config.auto_reconnect);
    assert!(config.preferred_device_id.is_none());
    assert!(config.paired_receivers.is_empty());
}

#[test]
fn test_default_config_starts_with_auto_reconnect_enabled() {
    let config = AppConfig::default();

    assert!(config.auto_reconnect);
    assert!(config.preferred_device_id.is_none());
}
