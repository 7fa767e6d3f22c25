//! The "simple" notifiers: one GET, POST or PUT request to an address of
//! the user's choice.

use crate::error::ErrorView;
use crate::notifiers::{
    joined_servers, notification_result_view, HttpMethod, HttpRequest, HttpRequestView,
    Notification, NotificationView,
};
use crate::text::{decimal, decimal_text, join, text_eq};
use crate::{
    env_outcome, get_env_var, is_success, result_json, status_is_success, CheckResult, CheckResultView,
    Environment, LibError,
};
use vstd::prelude::*;

verus! {

/// Common names to identify the notifiers.
pub const SIMPLE_GET_NAME: &'static str = "simple-get";

pub const SIMPLE_POST_NAME: &'static str = "simple-post";

pub const SIMPLE_PUT_NAME: &'static str = "simple-put";

/// Common environment variable to select the custom URL.
pub const ENV_SIMPLE_URL: &'static str = "SIMPLE_URL";

/// Environment variables to select the names of the query parameters of
/// the GET request.
pub const ENV_SIMPLE_GET_PARAM_NAME_PROVIDER: &'static str = "SIMPLE_GET_PARAM_NAME_PROVIDER";

pub const ENV_SIMPLE_GET_PARAM_NAME_SERVERS: &'static str = "SIMPLE_GET_PARAM_NAME_SERVERS";

/// The message that reports a refused notification.
pub open spec fn refusal_text(status: u16, notifier_name: Seq<char>, text: Seq<char>) -> Seq<
    char,
> {
    "Error "@ + decimal_text(status as nat) + " while notifying "@ + notifier_name + ": "@ + text
}

/// What `send_request` answers.
pub open spec fn reply_outcome(status: u16, notifier_name: Seq<char>, text: Seq<char>) -> Result<
    (),
    ErrorView,
> {
    if status_is_success(status) {
        Ok(())
    } else {
        Err(ErrorView::ApiError { message: refusal_text(status, notifier_name, text) })
    }
}

/// Judges the answer to a request that was sent: a status of success is
/// fine, any other is reported with the text that came with it.
pub fn send_request(status: u16, notifier_name: &str, text: &str) -> (r: Result<(), LibError>)
    ensures
        crate::unit_result_view(r) == reply_outcome(status, notifier_name@, text@),
{
    if is_success(status) {
        return Ok(());
    }
    let mut message = "Error ".to_owned();
    message.append(decimal(status as u128).as_str());
    message.append(" while notifying ");
    message.append(notifier_name);
    message.append(": ");
    message.append(text);
    Err(LibError::ApiError { message })
}

/// A GET request to a custom URL, with the provider's name in one query
/// parameter and the comma separated servers in another.
#[derive(Clone, Debug, PartialEq, Eq)]
pub struct SimpleGet {
    pub url: String,
    pub param_provider: String,
    pub param_servers: String,
}

/// What a `SimpleGet` holds, with every text as a sequence of characters.
pub struct SimpleGetView {
    pub url: Seq<char>,
    pub param_provider: Seq<char>,
    pub param_servers: Seq<char>,
}

impl View for SimpleGet {
    type V = SimpleGetView;

    open spec fn view(&self) -> SimpleGetView {
        SimpleGetView {
            url: self.url@,
            param_provider: self.param_provider@,
            param_servers: self.param_servers@,
        }
    }
}

/// The query parameters of the GET request: one parameter for the provider
/// and one for the servers, or the latter alone where both go by one name.
pub open spec fn query_parameters(get: SimpleGetView, result: CheckResultView) -> Seq<
    (Seq<char>, Seq<char>),
> {
    if get.param_provider == get.param_servers {
        seq![(get.param_servers, joined_servers(result))]
    } else {
        seq![
            (get.param_provider, result.provider_name),
            (get.param_servers, joined_servers(result)),
        ]
    }
}

/// What `SimpleGet::from_env` answers.
pub open spec fn simple_get_outcome(env: Environment) -> Result<SimpleGetView, ErrorView> {
    match env_outcome(env, ENV_SIMPLE_URL@) {
        Err(e) => Err(e),
        Ok(url) => match env_outcome(env, ENV_SIMPLE_GET_PARAM_NAME_PROVIDER@) {
            Err(e) => Err(e),
            Ok(param_provider) => match env_outcome(env, ENV_SIMPLE_GET_PARAM_NAME_SERVERS@) {
                Err(e) => Err(e),
                Ok(param_servers) => Ok(SimpleGetView { url, param_provider, param_servers }),
            },
        },
    }
}

/// The request that a `SimpleGet` makes of a result.
pub open spec fn simple_get_request(get: SimpleGetView, result: CheckResultView) -> HttpRequestView {
    HttpRequestView {
        method: HttpMethod::Get,
        url: get.url,
        query: query_parameters(get, result),
        headers: Seq::empty(),
        body: None,
    }
}

/// The request that carries a result as a JSON body.
pub open spec fn body_request(method: HttpMethod, url: Seq<char>, result: CheckResultView) -> HttpRequestView {
    HttpRequestView {
        method,
        url,
        query: Seq::empty(),
        headers: Seq::empty(),
        body: Some(result_json(result)),
    }
}

impl SimpleGet {
    /// Builds a SimpleGet notifier from environment variables.
    pub fn from_env(env: &Environment) -> (r: Result<Self, LibError>)
        ensures
            match r {
                Ok(get) => simple_get_outcome(*env) == Ok::<SimpleGetView, ErrorView>(get@),
                Err(e) => simple_get_outcome(*env) == Err::<SimpleGetView, ErrorView>(e@),
            },
    {
        let url = get_env_var(env, ENV_SIMPLE_URL)?;
        let param_provider = get_env_var(env, ENV_SIMPLE_GET_PARAM_NAME_PROVIDER)?;
        let param_servers = get_env_var(env, ENV_SIMPLE_GET_PARAM_NAME_SERVERS)?;
        Ok(Self { url, param_provider, param_servers })
    }

    /// Builds the query parameters from the structure's data.
    pub fn build_query_parameters(&self, result: &CheckResult) -> (params: Vec<(String, String)>)
        ensures
            params.deep_view() == query_parameters(self@, result@),
    {
        let joined = join(&result.available_servers, ",");
        let mut params: Vec<(String, String)> = Vec::new();
        if !text_eq(self.param_provider.as_str(), self.param_servers.as_str()) {
            params.push((self.param_provider.clone(), result.provider_name.clone()));
        }
        params.push((self.param_servers.clone(), joined));
        assert(params.deep_view() =~= query_parameters(self@, result@));
        params
    }

    /// Gets the actual name of the notifier.
    pub fn name(&self) -> (name: &'static str)
        ensures
            name@ == SIMPLE_GET_NAME@,
    {
        SIMPLE_GET_NAME
    }

    /// Prepares the notification of a result.
    pub fn notify(&self, result: &CheckResult) -> (r: Result<Notification, LibError>)
        ensures
            notification_result_view(r) == Ok::<NotificationView, ErrorView>(
                NotificationView::Http(simple_get_request(self@, result@)),
            ),
    {
        let query = self.build_query_parameters(result);
        let headers: Vec<(String, String)> = Vec::new();
        assert(headers.deep_view() =~= Seq::<(Seq<char>, Seq<char>)>::empty());
        Ok(
            Notification::Http(
                HttpRequest {
                    method: HttpMethod::Get,
                    url: self.url.clone(),
                    query,
                    headers,
                    body: None,
                },
            ),
        )
    }

    /// Prepares the notification that tests the notifier.
    pub fn test(&self) -> (r: Result<Notification, LibError>)
        ensures
            notification_result_view(r) == Ok::<NotificationView, ErrorView>(
                NotificationView::Http(simple_get_request(self@, crate::dummy_result())),
            ),
    {
        self.notify(&CheckResult::get_dummy())
    }
}

/// Prepares the request that carries a result as its JSON body.
pub fn body_notification(method: HttpMethod, url: &str, result: &CheckResult) -> (r: Result<
    Notification,
    LibError,
>)
    ensures
        r matches Ok(n) && n@ == NotificationView::Http(body_request(method, url@, result@)),
{
    let json = result.to_json()?;
    let query: Vec<(String, String)> = Vec::new();
    let headers: Vec<(String, String)> = Vec::new();
    assert(query.deep_view() =~= Seq::<(Seq<char>, Seq<char>)>::empty());
    assert(headers.deep_view() =~= Seq::<(Seq<char>, Seq<char>)>::empty());
    Ok(Notification::Http(HttpRequest { method, url: url.to_owned(), query, headers, body: Some(json) }))
}

/// What `from_env` answers for a notifier that needs an address alone.
pub open spec fn url_outcome(env: Environment) -> Result<Seq<char>, ErrorView> {
    env_outcome(env, ENV_SIMPLE_URL@)
}

/// A POST request to a custom URL, with the JSON of the result as body.
#[derive(Clone, Debug, PartialEq, Eq)]
pub struct SimplePost {
    pub url: String,
}

impl SimplePost {
    /// Builds a SimplePost notifier from environment variables.
    pub fn from_env(env: &Environment) -> (r: Result<Self, LibError>)
        ensures
            match r {
                Ok(post) => url_outcome(*env) == Ok::<Seq<char>, ErrorView>(post.url@),
                Err(e) => url_outcome(*env) == Err::<Seq<char>, ErrorView>(e@),
            },
    {
        let url = get_env_var(env, ENV_SIMPLE_URL)?;
        Ok(Self { url })
    }

    /// Gets the actual name of the notifier.
    pub fn name(&self) -> (name: &'static str)
        ensures
            name@ == SIMPLE_POST_NAME@,
    {
        SIMPLE_POST_NAME
    }

    /// Prepares the notification of a result.
    pub fn notify(&self, result: &CheckResult) -> (r: Result<Notification, LibError>)
        ensures
            r matches Ok(n) && n@ == NotificationView::Http(
                body_request(HttpMethod::Post, self.url@, result@),
            ),
    {
        body_notification(HttpMethod::Post, self.url.as_str(), result)
    }

    /// Prepares the notification that tests the notifier.
    pub fn test(&self) -> (r: Result<Notification, LibError>)
        ensures
            r matches Ok(n) && n@ == NotificationView::Http(
                body_request(HttpMethod::Post, self.url@, crate::dummy_result()),
            ),
    {
        self.notify(&CheckResult::get_dummy())
    }
}

/// A PUT request to a custom URL, with the JSON of the result as body.
#[derive(Clone, Debug, PartialEq, Eq)]
pub struct SimplePut {
    pub url: String,
}

impl SimplePut {
    /// Builds a SimplePut notifier from environment variables.
    pub fn from_env(env: &Environment) -> (r: Result<Self, LibError>)
        ensures
            match r {
                Ok(put) => url_outcome(*env) == Ok::<Seq<char>, ErrorView>(put.url@),
                Err(e) => url_outcome(*env) == Err::<Seq<char>, ErrorView>(e@),
            },
    {
        let url = get_env_var(env, ENV_SIMPLE_URL)?;
        Ok(Self { url })
    }

    /// Gets the actual name of the notifier.
    pub fn name(&self) -> (name: &'static str)
        ensures
            name@ == SIMPLE_PUT_NAME@,
    {
        SIMPLE_PUT_NAME
    }

    /// Prepares the notification of a result.
    pub fn notify(&self, result: &CheckResult) -> (r: Result<Notification, LibError>)
        ensures
            r matches Ok(n) && n@ == NotificationView::Http(
                body_request(HttpMethod::Put, self.url@, result@),
            ),
    {
        body_notification(HttpMethod::Put, self.url.as_str(), result)
    }

    /// Prepares the notification that tests the notifier.
    pub fn test(&self) -> (r: Result<Notification, LibError>)
        ensures
            r matches Ok(n) && n@ == NotificationView::Http(
                body_request(HttpMethod::Put, self.url@, crate::dummy_result()),
            ),
    {
        self.notify(&CheckResult::get_dummy())
    }
}

} // verus!
