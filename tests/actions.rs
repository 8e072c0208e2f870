use unison::action::{
    handle_button_press, http_outcome, plan_action, publish_outcome, ActionError, ActionField,
    ActionRequest, ButtonPress, HttpMethod,
};
use unison::config::{
    ActionType, UnisonConfig, UnisonConfigAction, UnisonConfigButton, UnisonConfigRemote,
};

fn action(
    action_type: ActionType,
    url: Option<&str>,
    method: Option<&str>,
    topic: Option<&str>,
    payload: Option<&str>,
) -> UnisonConfigAction {
    UnisonConfigAction {
        action_type,
        url: url.map(|s| s.to_string()),
        method: method.map(|s| s.to_string()),
        topic: topic.map(|s| s.to_string()),
        payload: payload.map(|s| s.to_string()),
    }
}

fn press(remote: &str, button: &str) -> ButtonPress {
    ButtonPress { remote_name: remote.to_string(), button_name: button.to_string() }
}

fn config_with(button: &str, a: Option<UnisonConfigAction>) -> UnisonConfig {
    let mut remote = UnisonConfigRemote::new();
    remote.insert_button(button.to_string(), UnisonConfigButton { action: a });
    let mut config = UnisonConfig::new(Vec::new());
    config.insert_remote("tv".to_string(), remote);
    config
}

#[test]
fn http_without_url_is_missing_field() {
    let a = action(ActionType::Http, None, Some("get"), None, None);
    assert_eq!(plan_action(&a), Err(ActionError::MissingField(ActionField::Url)));
}

#[test]
fn http_method_defaults_to_post() {
    let a = action(ActionType::Http, Some("http://lamp/on"), None, None, None);
    assert_eq!(
        plan_action(&a),
        Ok(ActionRequest::Http { method: HttpMethod::Post, url: "http://lamp/on".to_string() })
    );
}

#[test]
fn http_method_is_case_insensitive() {
    let a = action(ActionType::Http, Some("http://x"), Some("GET"), None, None);
    assert_eq!(
        plan_action(&a),
        Ok(ActionRequest::Http { method: HttpMethod::Get, url: "http://x".to_string() })
    );
    let b = action(ActionType::Http, Some("http://x"), Some("pOsT"), None, None);
    assert_eq!(
        plan_action(&b),
        Ok(ActionRequest::Http { method: HttpMethod::Post, url: "http://x".to_string() })
    );
}

#[test]
fn http_unsupported_method_is_reported_lowercased() {
    let a = action(ActionType::Http, Some("http://x"), Some("PUT"), None, None);
    assert_eq!(plan_action(&a), Err(ActionError::UnsupportedMethod("put".to_string())));
}

#[test]
fn http_missing_url_checked_before_method() {
    let a = action(ActionType::Http, None, Some("delete"), None, None);
    assert_eq!(plan_action(&a), Err(ActionError::MissingField(ActionField::Url)));
}

#[test]
fn mqtt_missing_topic_is_missing_field() {
    let a = action(ActionType::Mqtt, None, None, None, Some("on"));
    assert_eq!(plan_action(&a), Err(ActionError::MissingField(ActionField::Topic)));
}

#[test]
fn mqtt_missing_payload_is_missing_field() {
    let a = action(ActionType::Mqtt, None, None, Some("home/lamp"), None);
    assert_eq!(plan_action(&a), Err(ActionError::MissingField(ActionField::Payload)));
}

#[test]
fn mqtt_missing_both_reports_topic() {
    let a = action(ActionType::Mqtt, None, None, None, None);
    assert_eq!(plan_action(&a), Err(ActionError::MissingField(ActionField::Topic)));
}

#[test]
fn mqtt_plan_publishes_payload_verbatim() {
    let a = action(ActionType::Mqtt, Some("ignored"), None, Some("home/lamp"), Some(" ON "));
    assert_eq!(
        plan_action(&a),
        Ok(ActionRequest::Publish { topic: "home/lamp".to_string(), payload: " ON ".to_string() })
    );
}

#[test]
fn method_names() {
    assert_eq!(HttpMethod::from_lowercase("get"), Some(HttpMethod::Get));
    assert_eq!(HttpMethod::from_lowercase("post"), Some(HttpMethod::Post));
    assert_eq!(HttpMethod::from_lowercase("GET"), None);
    assert_eq!(HttpMethod::from_name("Get"), Ok(HttpMethod::Get));
    assert_eq!(HttpMethod::from_name("head"), Err(ActionError::UnsupportedMethod("head".to_string())));
}

#[test]
fn http_outcome_maps_transport_failure() {
    let url = "http://x".to_string();
    assert_eq!(http_outcome(HttpMethod::Get, &url, Ok(())), Ok(()));
    assert_eq!(
        http_outcome(HttpMethod::Post, &url, Err("refused".to_string())),
        Err(ActionError::CallFailed {
            method: HttpMethod::Post,
            url: "http://x".to_string(),
            cause: "refused".to_string(),
        })
    );
}

#[test]
fn publish_outcome_maps_failure() {
    assert_eq!(publish_outcome(Ok(())), Ok(()));
    assert_eq!(
        publish_outcome(Err("timeout".to_string())),
        Err(ActionError::PublishFailed("timeout".to_string()))
    );
}

#[test]
fn press_of_unknown_remote_is_noop() {
    let config = config_with("power", Some(action(ActionType::Http, None, None, None, None)));
    assert_eq!(handle_button_press(&config, &press("radio", "power")), Ok(None));
}

#[test]
fn press_of_unknown_button_is_noop() {
    let config = config_with("power", Some(action(ActionType::Http, None, None, None, None)));
    assert_eq!(handle_button_press(&config, &press("tv", "mute")), Ok(None));
}

#[test]
fn press_of_button_without_action_is_noop() {
    let config = config_with("power", None);
    assert_eq!(handle_button_press(&config, &press("tv", "power")), Ok(None));
}

#[test]
fn press_of_configured_button_plans_request() {
    let config = config_with(
        "power",
        Some(action(ActionType::Mqtt, None, None, Some("home/tv"), Some("toggle"))),
    );
    assert_eq!(
        handle_button_press(&config, &press("tv", "power")),
        Ok(Some(ActionRequest::Publish {
            topic: "home/tv".to_string(),
            payload: "toggle".to_string(),
        }))
    );
}

#[test]
fn press_of_invalid_action_reports_error() {
    let config = config_with("power", Some(action(ActionType::Http, None, None, None, None)));
    assert_eq!(
        handle_button_press(&config, &press("tv", "power")),
        Err(ActionError::MissingField(ActionField::Url))
    );
}
