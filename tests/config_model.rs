use unison::config::{
    ActionType, UnisonConfig, UnisonConfigAction, UnisonConfigButton, UnisonConfigDevice,
    UnisonConfigRemote,
};

fn http_action(url: &str) -> UnisonConfigAction {
    UnisonConfigAction {
        action_type: ActionType::Http,
        url: Some(url.to_string()),
        method: None,
        topic: None,
        payload: None,
    }
}

fn sample_config() -> UnisonConfig {
    let mut remote = UnisonConfigRemote::new();
    remote.insert_button(
        "power".to_string(),
        UnisonConfigButton { action: Some(http_action("http://lamp/toggle")) },
    );
    remote.insert_button("mute".to_string(), UnisonConfigButton { action: None });
    let mut config = UnisonConfig::new(vec![
        UnisonConfigDevice { name: "lamp".to_string(), on_threshold_milliamps: 100 },
        UnisonConfigDevice { name: "fan".to_string(), on_threshold_milliamps: 50 },
    ]);
    config.insert_remote("tv".to_string(), remote);
    config
}

#[test]
fn lookup_finds_configured_action() {
    let config = sample_config();
    assert_eq!(config.lookup("tv", "power"), Some(&http_action("http://lamp/toggle")));
}

#[test]
fn lookup_unknown_remote_is_none() {
    assert_eq!(sample_config().lookup("radio", "power"), None);
}

#[test]
fn lookup_unknown_button_is_none() {
    assert_eq!(sample_config().lookup("tv", "volume_up"), None);
}

#[test]
fn lookup_button_without_action_is_none() {
    assert_eq!(sample_config().lookup("tv", "mute"), None);
}

#[test]
fn lookup_names_are_case_sensitive() {
    assert_eq!(sample_config().lookup("TV", "power"), None);
}

#[test]
fn insert_remote_replaces_same_name() {
    let mut config = sample_config();
    let mut other = UnisonConfigRemote::new();
    other.insert_button(
        "power".to_string(),
        UnisonConfigButton { action: Some(http_action("http://fan/toggle")) },
    );
    config.insert_remote("tv".to_string(), other);
    assert_eq!(config.lookup("tv", "power"), Some(&http_action("http://fan/toggle")));
    assert_eq!(config.lookup("tv", "mute"), None);
}

#[test]
fn insert_button_replaces_same_name() {
    let mut remote = UnisonConfigRemote::new();
    remote.insert_button("a".to_string(), UnisonConfigButton { action: None });
    remote.insert_button(
        "a".to_string(),
        UnisonConfigButton { action: Some(http_action("http://x")) },
    );
    assert_eq!(
        remote.get_button("a"),
        Some(&UnisonConfigButton { action: Some(http_action("http://x")) })
    );
    assert_eq!(remote.get_button("b"), None);
}

#[test]
fn device_for_channel_is_positional() {
    let config = sample_config();
    assert_eq!(config.device_for_channel(0).map(|d| d.name.as_str()), Some("lamp"));
    assert_eq!(config.device_for_channel(1).map(|d| d.on_threshold_milliamps), Some(50));
    assert_eq!(config.device_for_channel(2), None);
    assert_eq!(config.device_for_channel(usize::MAX), None);
}

#[test]
fn action_type_from_name() {
    assert_eq!(ActionType::from_name("http"), Some(ActionType::Http));
    assert_eq!(ActionType::from_name("mqtt"), Some(ActionType::Mqtt));
    assert_eq!(ActionType::from_name("HTTP"), None);
    assert_eq!(ActionType::from_name("ftp"), None);
    assert_eq!(ActionType::from_name(""), None);
}
