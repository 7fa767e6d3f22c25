//! The IFTTT webhook notifiers: one POST request to the maker service,
//! with the result as JSON or as two named values.

use crate::error::ErrorView;
use crate::json::{
    frame_object, frame_single, json_of_text, object_around, single_around, text_to_json,
};
use crate::notifiers::{
    joined_servers, HttpMethod, HttpRequest, HttpRequestView, Notification, NotificationView,
};
use crate::text::{join, joined, text_eq};
use crate::{
    env_outcome, get_env_var, is_client_error, is_success, result_json, status_is_client_error,
    status_is_success, CheckResult,
    CheckResultView, Environment, LibError,
};
use vstd::prelude::*;

verus! {

/// Names to identify the notifiers.
pub const IFTTT_WEBHOOK_JSON_NAME: &'static str = "ifttt-webhook-json";

pub const IFTTT_WEBHOOK_VALUES_NAME: &'static str = "ifttt-webhook-values";

/// Common environment variable to select the webhook event.
pub const ENV_NAME_IFTTT_WEBHOOK_EVENT: &'static str = "IFTTT_WEBHOOK_EVENT";

/// Common environment variable to input the user API KEY.
pub const ENV_NAME_IFTTT_WEBHOOK_KEY: &'static str = "IFTTT_WEBHOOK_KEY";

/// Holds the configuration for the API call.
#[derive(Clone, Debug, PartialEq, Eq)]
pub struct WebHookParameters {
    pub event: String,
    pub key: String,
}

/// What `WebHookParameters::new` answers: the event and the key, or the
/// first objection.
pub open spec fn parameters_outcome(event: Seq<char>, key: Seq<char>) -> Result<
    (Seq<char>, Seq<char>),
    ErrorView,
> {
    if event.len() == 0 {
        Err(ErrorView::ValueError { name: "ifttt webhook event"@, value: event })
    } else if key.len() == 0 {
        Err(ErrorView::ValueError { name: "ifttt webhook key"@, value: key })
    } else {
        Ok((event, key))
    }
}

/// What `WebHookParameters::from_env` answers.
pub open spec fn parameters_env_outcome(env: Environment) -> Result<
    (Seq<char>, Seq<char>),
    ErrorView,
> {
    match env_outcome(env, ENV_NAME_IFTTT_WEBHOOK_EVENT@) {
        Err(e) => Err(e),
        Ok(event) => match env_outcome(env, ENV_NAME_IFTTT_WEBHOOK_KEY@) {
            Err(e) => Err(e),
            Ok(key) => parameters_outcome(event, key),
        },
    }
}

/// The view of a result that holds parameters or a failure.
pub open spec fn parameters_view(r: Result<WebHookParameters, LibError>) -> Result<
    (Seq<char>, Seq<char>),
    ErrorView,
> {
    match r {
        Ok(parameters) => Ok((parameters.event@, parameters.key@)),
        Err(e) => Err(e@),
    }
}

impl WebHookParameters {
    /// Builds an instance from environment variables.
    pub fn from_env(env: &Environment) -> (r: Result<Self, LibError>)
        ensures
            parameters_view(r) == parameters_env_outcome(*env),
    {
        let event = get_env_var(env, ENV_NAME_IFTTT_WEBHOOK_EVENT)?;
        let key = get_env_var(env, ENV_NAME_IFTTT_WEBHOOK_KEY)?;
        Self::new(event.as_str(), key.as_str())
    }

    /// Builds a new instance; neither the event nor the key may be empty.
    /// IFTTT states no rule for either that it keeps itself, so nothing
    /// more is asked of them.
    pub fn new(event: &str, key: &str) -> (r: Result<Self, LibError>)
        ensures
            parameters_view(r) == parameters_outcome(event@, key@),
    {
        if event.is_empty() {
            return Err(
                LibError::ValueError {
                    name: "ifttt webhook event".to_owned(),
                    value: event.to_owned(),
                },
            );
        }
        if key.is_empty() {
            return Err(
                LibError::ValueError { name: "ifttt webhook key".to_owned(), value: key.to_owned() },
            );
        }
        Ok(Self { event: event.to_owned(), key: key.to_owned() })
    }
}

/// The request that posts a JSON body to the service.
pub open spec fn post_request(url: Seq<char>, body: Seq<char>) -> HttpRequestView {
    HttpRequestView {
        method: HttpMethod::Post,
        url,
        query: Seq::empty(),
        headers: seq![("Content-Type"@, "application/json"@)],
        body: Some(body),
    }
}

/// Prepares the request that posts a JSON body to the service.
pub fn post(url: &str, body: &str) -> (request: HttpRequest)
    ensures
        request@ == post_request(url@, body@),
{
    let query: Vec<(String, String)> = Vec::new();
    let mut headers: Vec<(String, String)> = Vec::new();
    headers.push(("Content-Type".to_owned(), "application/json".to_owned()));
    assert(query.deep_view() =~= Seq::<(Seq<char>, Seq<char>)>::empty());
    assert(headers.deep_view() =~= seq![("Content-Type"@, "application/json"@)]);
    HttpRequest {
        method: HttpMethod::Post,
        url: url.to_owned(),
        query,
        headers,
        body: Some(body.to_owned()),
    }
}

/// What `post_reply` answers.
pub open spec fn post_outcome(status: u16, messages: Seq<Seq<char>>) -> Result<(), ErrorView> {
    if status_is_success(status) {
        Ok(())
    } else if status_is_client_error(status) {
        Err(
            ErrorView::ApiError {
                message: "Error during IFTTT-WEBHOOK query: "@ + joined(messages, " / "@),
            },
        )
    } else {
        Err(ErrorView::ApiError { message: "Unknown IFTTT-WEBHOOK error"@ })
    }
}

/// Judges the answer of the service: success is fine, a fault of the
/// client is reported with the messages that the service gave, anything
/// else as unknown.
pub fn post_reply(status: u16, messages: &Vec<String>) -> (r: Result<(), LibError>)
    ensures
        crate::unit_result_view(r) == post_outcome(status, messages.deep_view()),
{
    if is_success(status) {
        return Ok(());
    }
    if is_client_error(status) {
        let mut message = "Error during IFTTT-WEBHOOK query: ".to_owned();
        message.append(join(messages, " / ").as_str());
        return Err(LibError::ApiError { message });
    }
    Err(LibError::ApiError { message: "Unknown IFTTT-WEBHOOK error".to_owned() })
}

/// The address that takes a JSON payload.
pub open spec fn json_url(event: Seq<char>, key: Seq<char>) -> Seq<char> {
    "https://maker.ifttt.com/trigger/"@ + event + "/json/with/key/"@ + key
}

/// The address that takes named values.
pub open spec fn values_url(event: Seq<char>, key: Seq<char>) -> Seq<char> {
    "https://maker.ifttt.com/trigger/"@ + event + "/with/key/"@ + key
}

/// What `WebHookJson::from_env` answers: the address, or the first
/// objection.
pub open spec fn json_hook_outcome(env: Environment) -> Result<Seq<char>, ErrorView> {
    match parameters_env_outcome(env) {
        Err(e) => Err(e),
        Ok((event, key)) => Ok(json_url(event, key)),
    }
}

/// What `WebHookValues::from_env` answers: the address, or the first
/// objection.
pub open spec fn values_hook_outcome(env: Environment) -> Result<Seq<char>, ErrorView> {
    match parameters_env_outcome(env) {
        Err(e) => Err(e),
        Ok((event, key)) => Ok(values_url(event, key)),
    }
}

/// Posts the result as it is, in JSON.
#[derive(Clone, Debug, PartialEq, Eq)]
pub struct WebHookJson {
    pub url: String,
}

impl WebHookJson {
    /// Creates an instance.
    pub fn new(parameters: &WebHookParameters) -> (hook: Self)
        ensures
            hook.url@ == json_url(parameters.event@, parameters.key@),
    {
        let mut url = "https://maker.ifttt.com/trigger/".to_owned();
        url.append(parameters.event.as_str());
        url.append("/json/with/key/");
        url.append(parameters.key.as_str());
        Self { url }
    }

    /// Builds a WebHook 'json' notifier from environment variables.
    pub fn from_env(env: &Environment) -> (r: Result<Self, LibError>)
        ensures
            match r {
                Ok(hook) => json_hook_outcome(*env) == Ok::<Seq<char>, ErrorView>(hook.url@),
                Err(e) => json_hook_outcome(*env) == Err::<Seq<char>, ErrorView>(e@),
            },
    {
        let parameters = WebHookParameters::from_env(env)?;
        Ok(Self::new(&parameters))
    }

    /// Gets the actual name of the notifier.
    pub fn name(&self) -> (name: &'static str)
        ensures
            name@ == IFTTT_WEBHOOK_JSON_NAME@,
    {
        IFTTT_WEBHOOK_JSON_NAME
    }

    /// Prepares the notification of a result.
    pub fn notify(&self, result: &CheckResult) -> (r: Result<Notification, LibError>)
        ensures
            r matches Ok(n) && n@ == NotificationView::Http(
                post_request(self.url@, result_json(result@)),
            ),
    {
        let body = result.to_json()?;
        Ok(Notification::Http(post(self.url.as_str(), body.as_str())))
    }

    /// Prepares the notification that tests the notifier.
    pub fn test(&self) -> (r: Result<Notification, LibError>)
        ensures
            r matches Ok(n) && n@ == NotificationView::Http(
                post_request(self.url@, result_json(crate::dummy_result())),
            ),
    {
        self.notify(&CheckResult::get_dummy())
    }
}

/// The JSON object that carries a result as two named values: the
/// provider's name under one tag, the comma separated servers under the
/// other, or the servers alone where the two tags are one.
pub open spec fn values_body(
    provider_tag: Seq<char>,
    server_tag: Seq<char>,
    result: CheckResultView,
) -> Seq<char> {
    if provider_tag == server_tag {
        single_around(json_of_text(server_tag), json_of_text(joined_servers(result)))
    } else {
        object_around(
            json_of_text(provider_tag),
            json_of_text(result.provider_name),
            json_of_text(server_tag),
            json_of_text(joined_servers(result)),
        )
    }
}

/// Posts the result as two named values.
#[derive(Clone, Debug, PartialEq, Eq)]
pub struct WebHookValues {
    pub url: String,
}

impl WebHookValues {
    /// Creates an instance.
    pub fn new(parameters: &WebHookParameters) -> (hook: Self)
        ensures
            hook.url@ == values_url(parameters.event@, parameters.key@),
    {
        let mut url = "https://maker.ifttt.com/trigger/".to_owned();
        url.append(parameters.event.as_str());
        url.append("/with/key/");
        url.append(parameters.key.as_str());
        Self { url }
    }

    /// Builds a POST body from the two tags and the result.
    pub fn build_body(&self, provider_tag: &str, server_tag: &str, result: &CheckResult) -> (r:
        Result<String, LibError>)
        ensures
            r matches Ok(body) && body@ == values_body(provider_tag@, server_tag@, result@),
    {
        let joined = join(&result.available_servers, ",");
        let server_key = match text_to_json(server_tag) {
            Ok(text) => text,
            Err(source) => {
                return Err(LibError::JsonError { source });
            },
        };
        let servers = match text_to_json(joined.as_str()) {
            Ok(text) => text,
            Err(source) => {
                return Err(LibError::JsonError { source });
            },
        };
        if text_eq(provider_tag, server_tag) {
            return Ok(frame_single(server_key.as_str(), servers.as_str()));
        }
        let provider_key = match text_to_json(provider_tag) {
            Ok(text) => text,
            Err(source) => {
                return Err(LibError::JsonError { source });
            },
        };
        let provider = match text_to_json(result.provider_name.as_str()) {
            Ok(text) => text,
            Err(source) => {
                return Err(LibError::JsonError { source });
            },
        };
        Ok(
            frame_object(
                provider_key.as_str(),
                provider.as_str(),
                server_key.as_str(),
                servers.as_str(),
            ),
        )
    }

    /// Builds a WebHook 'values' notifier from environment variables.
    pub fn from_env(env: &Environment) -> (r: Result<Self, LibError>)
        ensures
            match r {
                Ok(hook) => values_hook_outcome(*env) == Ok::<Seq<char>, ErrorView>(hook.url@),
                Err(e) => values_hook_outcome(*env) == Err::<Seq<char>, ErrorView>(e@),
            },
    {
        let parameters = WebHookParameters::from_env(env)?;
        Ok(Self::new(&parameters))
    }

    /// Gets the actual name of the notifier.
    pub fn name(&self) -> (name: &'static str)
        ensures
            name@ == IFTTT_WEBHOOK_VALUES_NAME@,
    {
        IFTTT_WEBHOOK_VALUES_NAME
    }

    /// Prepares the notification of a result.
    pub fn notify(&self, result: &CheckResult) -> (r: Result<Notification, LibError>)
        ensures
            r matches Ok(n) && n@ == NotificationView::Http(
                post_request(self.url@, values_body("value1"@, "value2"@, result@)),
            ),
    {
        let body = self.build_body("value1", "value2", result)?;
        Ok(Notification::Http(post(self.url.as_str(), body.as_str())))
    }

    /// Prepares the notification that tests the notifier.
    pub fn test(&self) -> (r: Result<Notification, LibError>)
        ensures
            r matches Ok(n) && n@ == NotificationView::Http(
                post_request(self.url@, values_body("value1"@, "value2"@, crate::dummy_result())),
            ),
    {
        self.notify(&CheckResult::get_dummy())
    }
}

} // verus!
