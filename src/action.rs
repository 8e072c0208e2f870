//! Planning of configured actions: which outside request an action asks for,
//! or why it cannot be carried out.
use vstd::prelude::*;
use crate::config::{
    ActionType, UnisonConfig, UnisonConfigAction, lemma_unconfigured_press_has_no_action,
};
use crate::text::str_eq;

verus! {

/// What `str::to_lowercase` makes of a string.
pub uninterp spec fn lower_of(s: Seq<char>) -> Seq<char>;

/// Relies on `str::to_lowercase`: the lower-case form depends on the characters alone.
#[verifier::external_body]
fn lowercase(s: &str) -> (r: String)
    ensures
        r@ == lower_of(s@),
{
    s.to_lowercase()
}

/// The request method of an http action.
#[derive(Clone, Copy, Debug, PartialEq, Eq, Structural)]
pub enum HttpMethod {
    Get,
    Post,
}

/// The method named by a lower-case method name.
pub open spec fn http_method_named(name: Seq<char>) -> Option<HttpMethod> {
    if name == "get"@ {
        Some(HttpMethod::Get)
    } else if name == "post"@ {
        Some(HttpMethod::Post)
    } else {
        None
    }
}

/// A field that an action of its kind must carry.
#[derive(Clone, Copy, Debug, PartialEq, Eq, Structural)]
pub enum ActionField {
    Url,
    Topic,
    Payload,
}

/// Why an action could not be carried out.
#[derive(Clone, Debug, PartialEq, Eq)]
pub enum ActionError {
    /// A field that the action's kind requires is absent.
    MissingField(ActionField),
    /// The http method, in lower case, is neither `get` nor `post`.
    UnsupportedMethod(String),
    /// The http call did not succeed.
    CallFailed { method: HttpMethod, url: String, cause: String },
    /// Publishing the message did not succeed.
    PublishFailed(String),
}

/// The outside request that a valid action asks for.
#[derive(Clone, Debug, PartialEq, Eq)]
pub enum ActionRequest {
    /// Call `url` with `method` and no body.
    Http { method: HttpMethod, url: String },
    /// Publish `payload` verbatim to `topic`.
    Publish { topic: String, payload: String },
}

/// The method of an http action whose method field is `method`; the lower-case
/// method name when it is not supported.
pub open spec fn method_of(method: Option<String>) -> Result<HttpMethod, Seq<char>> {
    match method {
        None => Ok(HttpMethod::Post),
        Some(m) => match http_method_named(lower_of(m@)) {
            Some(x) => Ok(x),
            None => Err(lower_of(m@)),
        },
    }
}

/// `r` is what planning `action` yields.
pub open spec fn is_plan(action: UnisonConfigAction, r: Result<ActionRequest, ActionError>) -> bool {
    match action.action_type {
        ActionType::Http => match action.url {
            None => r == Err::<ActionRequest, ActionError>(ActionError::MissingField(ActionField::Url)),
            Some(url) => match method_of(action.method) {
                Ok(method) => r == Ok::<ActionRequest, ActionError>(
                    (ActionRequest::Http { method, url }),
                ),
                Err(name) => match r {
                    Err(ActionError::UnsupportedMethod(s)) => s@ == name,
                    _ => false,
                },
            },
        },
        ActionType::Mqtt => match action.topic {
            None => r == Err::<ActionRequest, ActionError>(
                ActionError::MissingField(ActionField::Topic),
            ),
            Some(topic) => match action.payload {
                None => r == Err::<ActionRequest, ActionError>(
                    ActionError::MissingField(ActionField::Payload),
                ),
                Some(payload) => r == Ok::<ActionRequest, ActionError>(
                    (ActionRequest::Publish { topic, payload }),
                ),
            },
        },
    }
}

impl HttpMethod {
    /// The method named by `name`, which is already in lower case.
    pub fn from_lowercase(name: &str) -> (r: Option<HttpMethod>)
        ensures
            r == http_method_named(name@),
    {
        if str_eq(name, "get") {
            Some(HttpMethod::Get)
        } else if str_eq(name, "post") {
            Some(HttpMethod::Post)
        } else {
            None
        }
    }

    /// The method named by `name` in any case.
    pub fn from_name(name: &str) -> (r: Result<HttpMethod, ActionError>)
        ensures
            match http_method_named(lower_of(name@)) {
                Some(m) => r == Ok::<HttpMethod, ActionError>(m),
                None => match r {
                    Err(ActionError::UnsupportedMethod(s)) => s@ == lower_of(name@),
                    _ => false,
                },
            },
    {
        let lowered = lowercase(name);
        match HttpMethod::from_lowercase(lowered.as_str()) {
            Some(m) => Ok(m),
            None => Err(ActionError::UnsupportedMethod(lowered)),
        }
    }
}

/// Checks `action` against the fields its kind requires and resolves the
/// request it asks for; nothing is called or published here.
pub fn plan_action(action: &UnisonConfigAction) -> (r: Result<ActionRequest, ActionError>)
    ensures
        is_plan(*action, r),
{
    match action.action_type {
        ActionType::Http => {
            let url = match &action.url {
                None => return Err(ActionError::MissingField(ActionField::Url)),
                Some(u) => u.clone(),
            };
            let method = match &action.method {
                None => HttpMethod::Post,
                Some(m) => HttpMethod::from_name(m.as_str())?,
            };
            Ok(ActionRequest::Http { method, url })
        },
        ActionType::Mqtt => {
            let topic = match &action.topic {
                None => return Err(ActionError::MissingField(ActionField::Topic)),
                Some(t) => t.clone(),
            };
            let payload = match &action.payload {
                None => return Err(ActionError::MissingField(ActionField::Payload)),
                Some(p) => p.clone(),
            };
            Ok(ActionRequest::Publish { topic, payload })
        },
    }
}

/// The result of an http action once the transport has answered with
/// `transport` (the cause of a failure as text).
pub fn http_outcome(method: HttpMethod, url: &String, transport: Result<(), String>) -> (r: Result<
    (),
    ActionError,
>)
    ensures
        match transport {
            Ok(_) => r == Ok::<(), ActionError>(()),
            Err(cause) => r == Err::<(), ActionError>(
                (ActionError::CallFailed { method, url: *url, cause }),
            ),
        },
{
    match transport {
        Ok(_) => Ok(()),
        Err(cause) => Err(ActionError::CallFailed { method, url: url.clone(), cause }),
    }
}

/// The result of a publish action once the bus client has answered with
/// `transport` (the cause of a failure as text).
pub fn publish_outcome(transport: Result<(), String>) -> (r: Result<(), ActionError>)
    ensures
        match transport {
            Ok(_) => r == Ok::<(), ActionError>(()),
            Err(cause) => r == Err::<(), ActionError>(ActionError::PublishFailed(cause)),
        },
{
    match transport {
        Ok(_) => Ok(()),
        Err(cause) => Err(ActionError::PublishFailed(cause)),
    }
}

/// An http action without a url fails for want of it, before any request is made.
pub proof fn lemma_http_without_url_fails(
    action: UnisonConfigAction,
    r: Result<ActionRequest, ActionError>,
)
    requires
        action.action_type == ActionType::Http,
        action.url is None,
        is_plan(action, r),
    ensures
        r == Err::<ActionRequest, ActionError>(ActionError::MissingField(ActionField::Url)),
{
}

/// An http action without a method is a post to its url.
pub proof fn lemma_http_method_defaults_to_post(
    action: UnisonConfigAction,
    r: Result<ActionRequest, ActionError>,
)
    requires
        action.action_type == ActionType::Http,
        action.url is Some,
        action.method is None,
        is_plan(action, r),
    ensures
        r == Ok::<ActionRequest, ActionError>(
            (ActionRequest::Http { method: HttpMethod::Post, url: action.url->Some_0 }),
        ),
{
}

/// An mqtt action without a topic or without a payload fails for want of the
/// topic, or else of the payload, and nothing is published.
pub proof fn lemma_mqtt_without_field_fails(
    action: UnisonConfigAction,
    r: Result<ActionRequest, ActionError>,
)
    requires
        action.action_type == ActionType::Mqtt,
        action.topic is None || action.payload is None,
        is_plan(action, r),
    ensures
        r == Err::<ActionRequest, ActionError>(
            ActionError::MissingField(
                if action.topic is None {
                    ActionField::Topic
                } else {
                    ActionField::Payload
                },
            ),
        ),
{
}

/// A signal match reported by the controller.
#[derive(Clone, Debug, PartialEq, Eq)]
pub struct ButtonPress {
    pub remote_name: String,
    pub button_name: String,
}

/// `r` is the outcome of a press of `button_name` on `remote_name`.
pub open spec fn is_press_outcome(
    config: UnisonConfig,
    remote_name: Seq<char>,
    button_name: Seq<char>,
    r: Result<Option<ActionRequest>, ActionError>,
) -> bool {
    match config.action_for(remote_name, button_name) {
        None => r == Ok::<Option<ActionRequest>, ActionError>(None),
        Some(action) => match r {
            Ok(Some(req)) => is_plan(action, Ok(req)),
            Ok(None) => false,
            Err(e) => is_plan(action, Err(e)),
        },
    }
}

/// A press of a button on a remote that is not configured, of a button that
/// is not configured, or of a button without an action asks for nothing and
/// succeeds.
pub proof fn lemma_unconfigured_press_is_noop(
    config: UnisonConfig,
    remote_name: Seq<char>,
    button_name: Seq<char>,
    r: Result<Option<ActionRequest>, ActionError>,
)
    requires
        config.remote(remote_name) is None || config.remote(remote_name)->Some_0.button(
            button_name,
        ) is None || config.remote(remote_name)->Some_0.button(button_name)->Some_0.action is None,
        is_press_outcome(config, remote_name, button_name, r),
    ensures
        r == Ok::<Option<ActionRequest>, ActionError>(None),
{
    lemma_unconfigured_press_has_no_action(config, remote_name, button_name);
}

/// Resolves a button press to the request its configured action asks for.
/// `Ok(None)` means there is nothing to do: the remote or the button is not
/// configured, or the button has no action.
pub fn handle_button_press(config: &UnisonConfig, press: &ButtonPress) -> (r: Result<
    Option<ActionRequest>,
    ActionError,
>)
    ensures
        is_press_outcome(*config, press.remote_name@, press.button_name@, r),
{
    match config.lookup(press.remote_name.as_str(), press.button_name.as_str()) {
        None => Ok(None),
        Some(action) => match plan_action(action) {
            Ok(req) => Ok(Some(req)),
            Err(e) => Err(e),
        },
    }
}

} // verus!
