//! The notifiers, and what is common to them. A notifier does not send
//! anything itself: it prepares the one request or message that reports a
//! result, and judges what came back once the caller has sent it.

use crate::error::ErrorView;
use crate::notifiers::email::{
    mailboxes_outcome, message_for, smtp_outcome, submission_outcome, EmailViaSendmail,
    EmailViaSmtp, EmailViaSmtpView, EMAIL_SENDMAIL_NAME, EMAIL_SMTP_NAME,
};
use crate::notifiers::ifttt_webhook::{
    json_hook_outcome, post_outcome, post_reply, post_request, values_body, values_hook_outcome,
    WebHookJson, WebHookValues, IFTTT_WEBHOOK_JSON_NAME, IFTTT_WEBHOOK_VALUES_NAME,
};
use crate::notifiers::simple::{
    body_request, reply_outcome, send_request, simple_get_outcome, simple_get_request,
    url_outcome, SimpleGet, SimpleGetView, SimplePost, SimplePut, SIMPLE_GET_NAME,
    SIMPLE_POST_NAME, SIMPLE_PUT_NAME,
};
use crate::sorting::{sort_strings, sorted_texts};
use crate::text::text_eq;
use crate::{
    dummy_result, is_client_error, is_success, result_json, status_is_client_error,
    status_is_success, CheckResult, CheckResultView, Environment, LibError,
};
use vstd::prelude::*;

pub mod email;
pub mod ifttt_webhook;
pub mod simple;

verus! {

/// The method of an HTTP request.
#[derive(Clone, Copy, Debug, PartialEq, Eq, Structural)]
pub enum HttpMethod {
    Get,
    Post,
    Put,
}

/// An HTTP request for the caller to send.
#[derive(Clone, Debug, PartialEq, Eq)]
pub struct HttpRequest {
    pub method: HttpMethod,
    pub url: String,
    /// Query parameters, by name and value.
    pub query: Vec<(String, String)>,
    /// Headers, by name and value.
    pub headers: Vec<(String, String)>,
    pub body: Option<String>,
}

/// What an `HttpRequest` holds, with every text as a sequence of characters.
pub struct HttpRequestView {
    pub method: HttpMethod,
    pub url: Seq<char>,
    pub query: Seq<(Seq<char>, Seq<char>)>,
    pub headers: Seq<(Seq<char>, Seq<char>)>,
    pub body: Option<Seq<char>>,
}

impl View for HttpRequest {
    type V = HttpRequestView;

    open spec fn view(&self) -> HttpRequestView {
        HttpRequestView {
            method: self.method,
            url: self.url@,
            query: self.query.deep_view(),
            headers: self.headers.deep_view(),
            body: match self.body {
                Some(text) => Some(text@),
                None => None,
            },
        }
    }
}

/// An email for the caller to compose and hand to a transport.
#[derive(Clone, Debug, PartialEq, Eq)]
pub struct EmailDraft {
    pub from: String,
    pub to: String,
    pub subject: String,
    pub body: String,
}

/// What an `EmailDraft` holds, with every text as a sequence of characters.
pub struct EmailDraftView {
    pub from: Seq<char>,
    pub to: Seq<char>,
    pub subject: Seq<char>,
    pub body: Seq<char>,
}

impl View for EmailDraft {
    type V = EmailDraftView;

    open spec fn view(&self) -> EmailDraftView {
        EmailDraftView {
            from: self.from@,
            to: self.to@,
            subject: self.subject@,
            body: self.body@,
        }
    }
}

/// How the connection to an SMTP relay is secured.
#[derive(Clone, Copy, Debug, PartialEq, Eq, Structural)]
pub enum SmtpSecurity {
    /// TLS from the first byte.
    Tls,
    /// Plain at first, then upgraded with STARTTLS.
    StartTls,
}

/// An email together with the relay that is to take it.
#[derive(Clone, Debug, PartialEq, Eq)]
pub struct SmtpSubmission {
    pub draft: EmailDraft,
    pub host: String,
    pub port: u16,
    pub user: String,
    pub password: String,
    pub security: SmtpSecurity,
}

/// What an `SmtpSubmission` holds, with every text as a sequence of
/// characters.
pub struct SmtpSubmissionView {
    pub draft: EmailDraftView,
    pub host: Seq<char>,
    pub port: u16,
    pub user: Seq<char>,
    pub password: Seq<char>,
    pub security: SmtpSecurity,
}

impl View for SmtpSubmission {
    type V = SmtpSubmissionView;

    open spec fn view(&self) -> SmtpSubmissionView {
        SmtpSubmissionView {
            draft: self.draft@,
            host: self.host@,
            port: self.port,
            user: self.user@,
            password: self.password@,
            security: self.security,
        }
    }
}

/// The one thing that a notifier asks the caller to send for a result.
#[derive(Clone, Debug, PartialEq, Eq)]
pub enum Notification {
    /// An HTTP request.
    Http(HttpRequest),
    /// An email for the local `sendmail`.
    Sendmail(EmailDraft),
    /// An email for an SMTP relay.
    Smtp(SmtpSubmission),
}

/// What a `Notification` holds, with every text as a sequence of
/// characters.
pub enum NotificationView {
    Http(HttpRequestView),
    Sendmail(EmailDraftView),
    Smtp(SmtpSubmissionView),
}

impl View for Notification {
    type V = NotificationView;

    open spec fn view(&self) -> NotificationView {
        match *self {
            Notification::Http(request) => NotificationView::Http(request@),
            Notification::Sendmail(draft) => NotificationView::Sendmail(draft@),
            Notification::Smtp(submission) => NotificationView::Smtp(submission@),
        }
    }
}

/// The view of a result that holds a notification or a failure.
pub open spec fn notification_result_view(r: Result<Notification, crate::LibError>) -> Result<
    NotificationView,
    ErrorView,
> {
    match r {
        Ok(n) => Ok(n@),
        Err(e) => Err(e@),
    }
}

/// What a result looks like on the wire where servers are joined by commas.
pub open spec fn joined_servers(result: crate::CheckResultView) -> Seq<char> {
    crate::text::joined(result.available_servers, ","@)
}

/// Every notifier that the library knows.
#[derive(Clone, Debug, PartialEq, Eq)]
pub enum Notifier {
    SimpleGet(SimpleGet),
    SimplePost(SimplePost),
    SimplePut(SimplePut),
    WebHookJson(WebHookJson),
    WebHookValues(WebHookValues),
    EmailViaSendmail(EmailViaSendmail),
    EmailViaSmtp(EmailViaSmtp),
}

/// What a `Notifier` holds, with every text as a sequence of characters:
/// for the notifiers that post a body their address, for `sendmail` the
/// sender and the recipient.
pub enum NotifierView {
    SimpleGet(SimpleGetView),
    SimplePost(Seq<char>),
    SimplePut(Seq<char>),
    WebHookJson(Seq<char>),
    WebHookValues(Seq<char>),
    EmailViaSendmail(Seq<char>, Seq<char>),
    EmailViaSmtp(EmailViaSmtpView),
}

impl View for Notifier {
    type V = NotifierView;

    open spec fn view(&self) -> NotifierView {
        match *self {
            Notifier::SimpleGet(get) => NotifierView::SimpleGet(get@),
            Notifier::SimplePost(post) => NotifierView::SimplePost(post.url@),
            Notifier::SimplePut(put) => NotifierView::SimplePut(put.url@),
            Notifier::WebHookJson(hook) => NotifierView::WebHookJson(hook.url@),
            Notifier::WebHookValues(hook) => NotifierView::WebHookValues(hook.url@),
            Notifier::EmailViaSendmail(mail) => NotifierView::EmailViaSendmail(mail.from@, mail.to@),
            Notifier::EmailViaSmtp(smtp) => NotifierView::EmailViaSmtp(smtp@),
        }
    }
}

impl NotifierView {
    /// The name under which the notifier is registered.
    pub open spec fn name(self) -> Seq<char> {
        match self {
            NotifierView::SimpleGet(_) => SIMPLE_GET_NAME@,
            NotifierView::SimplePost(_) => SIMPLE_POST_NAME@,
            NotifierView::SimplePut(_) => SIMPLE_PUT_NAME@,
            NotifierView::WebHookJson(_) => IFTTT_WEBHOOK_JSON_NAME@,
            NotifierView::WebHookValues(_) => IFTTT_WEBHOOK_VALUES_NAME@,
            NotifierView::EmailViaSendmail(_, _) => EMAIL_SENDMAIL_NAME@,
            NotifierView::EmailViaSmtp(_) => EMAIL_SMTP_NAME@,
        }
    }

    /// The one notification that the notifier makes of a result, or the
    /// failure that its configuration leads to.
    pub open spec fn planned(self, result: CheckResultView) -> Result<NotificationView, ErrorView> {
        match self {
            NotifierView::SimpleGet(get) => Ok(NotificationView::Http(simple_get_request(get, result))),
            NotifierView::SimplePost(url) => Ok(
                NotificationView::Http(body_request(HttpMethod::Post, url, result)),
            ),
            NotifierView::SimplePut(url) => Ok(
                NotificationView::Http(body_request(HttpMethod::Put, url, result)),
            ),
            NotifierView::WebHookJson(url) => Ok(
                NotificationView::Http(post_request(url, result_json(result))),
            ),
            NotifierView::WebHookValues(url) => Ok(
                NotificationView::Http(post_request(url, values_body("value1"@, "value2"@, result))),
            ),
            NotifierView::EmailViaSendmail(from, to) => Ok(
                NotificationView::Sendmail(message_for(result, to, from)),
            ),
            NotifierView::EmailViaSmtp(smtp) => submission_outcome(smtp, result),
        }
    }
}

/// What of the answer to an HTTP notification has to be read before the
/// answer can be judged.
#[derive(Clone, Copy, Debug, PartialEq, Eq, Structural)]
pub enum ReplyPart {
    /// The status says it all.
    Nothing,
    /// The body, as text.
    Text,
    /// The messages of the refusal that the body holds.
    Messages,
}

impl NotifierView {
    /// Tells whether the notifier posts to the IFTTT service.
    pub open spec fn posts_to_ifttt(self) -> bool {
        self is WebHookJson || self is WebHookValues
    }

    /// What has to be read of an answer with this status: for the IFTTT
    /// service its messages where it blames the client, for any other
    /// address the text where the status is not one of success.
    pub open spec fn wanted_part(self, status: u16) -> ReplyPart {
        if self.posts_to_ifttt() {
            if status_is_client_error(status) {
                ReplyPart::Messages
            } else {
                ReplyPart::Nothing
            }
        } else if status_is_success(status) {
            ReplyPart::Nothing
        } else {
            ReplyPart::Text
        }
    }

    /// What comes of an answer: the IFTTT service is judged by its status
    /// and messages, any other address by its status and text.
    pub open spec fn judged(self, status: u16, text: Seq<char>, messages: Seq<Seq<char>>) -> Result<
        (),
        ErrorView,
    > {
        if self.posts_to_ifttt() {
            post_outcome(status, messages)
        } else {
            reply_outcome(status, self.name(), text)
        }
    }
}

impl Notifier {
    /// Says what of the answer to the notifier's HTTP request has to be
    /// read before the answer can be judged.
    pub fn reply_part(&self, status: u16) -> (part: ReplyPart)
        ensures
            part == self@.wanted_part(status),
    {
        match self {
            Notifier::WebHookJson(_) | Notifier::WebHookValues(_) => {
                if is_client_error(status) {
                    ReplyPart::Messages
                } else {
                    ReplyPart::Nothing
                }
            },
            _ => {
                if is_success(status) {
                    ReplyPart::Nothing
                } else {
                    ReplyPart::Text
                }
            },
        }
    }

    /// Judges the answer to the notifier's HTTP request, from its status
    /// and from what was read of its body; what was not asked for is not
    /// looked at.
    pub fn judge_reply(&self, status: u16, text: &str, messages: &Vec<String>) -> (r: Result<
        (),
        LibError,
    >)
        ensures
            crate::unit_result_view(r) == self@.judged(status, text@, messages.deep_view()),
    {
        match self {
            Notifier::WebHookJson(_) | Notifier::WebHookValues(_) => post_reply(status, messages),
            _ => send_request(status, self.name(), text),
        }
    }

    /// Gets the actual name of the notifier.
    pub fn name(&self) -> (name: &'static str)
        ensures
            name@ == self@.name(),
    {
        match self {
            Notifier::SimpleGet(get) => get.name(),
            Notifier::SimplePost(post) => post.name(),
            Notifier::SimplePut(put) => put.name(),
            Notifier::WebHookJson(hook) => hook.name(),
            Notifier::WebHookValues(hook) => hook.name(),
            Notifier::EmailViaSendmail(mail) => mail.name(),
            Notifier::EmailViaSmtp(smtp) => smtp.name(),
        }
    }

    /// Prepares the one notification that reports a result.
    pub fn notify(&self, result: &CheckResult) -> (r: Result<Notification, LibError>)
        ensures
            notification_result_view(r) == self@.planned(result@),
    {
        match self {
            Notifier::SimpleGet(get) => get.notify(result),
            Notifier::SimplePost(post) => post.notify(result),
            Notifier::SimplePut(put) => put.notify(result),
            Notifier::WebHookJson(hook) => hook.notify(result),
            Notifier::WebHookValues(hook) => hook.notify(result),
            Notifier::EmailViaSendmail(mail) => mail.notify(result),
            Notifier::EmailViaSmtp(smtp) => smtp.notify(result),
        }
    }

    /// Prepares the notification that tests the notifier: that of a fixed
    /// result, whatever any provider says.
    pub fn test(&self) -> (r: Result<Notification, LibError>)
        ensures
            notification_result_view(r) == self@.planned(dummy_result()),
    {
        self.notify(&CheckResult::get_dummy())
    }
}

/// The names of the notifiers, in the order of the registry.
pub open spec fn notifier_names() -> Seq<Seq<char>> {
    seq![
        SIMPLE_GET_NAME@,
        SIMPLE_POST_NAME@,
        SIMPLE_PUT_NAME@,
        IFTTT_WEBHOOK_JSON_NAME@,
        IFTTT_WEBHOOK_VALUES_NAME@,
        EMAIL_SENDMAIL_NAME@,
        EMAIL_SMTP_NAME@,
    ]
}

/// What the factory answers for a name: the notifier that is registered
/// under it, built from the environment, or the failure to build it, or
/// the complaint that no notifier goes by the name.
pub open spec fn factory_outcome(notifier: Seq<char>, env: Environment) -> Result<
    NotifierView,
    ErrorView,
> {
    if notifier == SIMPLE_GET_NAME@ {
        match simple_get_outcome(env) {
            Ok(get) => Ok(NotifierView::SimpleGet(get)),
            Err(e) => Err(e),
        }
    } else if notifier == SIMPLE_POST_NAME@ {
        match url_outcome(env) {
            Ok(url) => Ok(NotifierView::SimplePost(url)),
            Err(e) => Err(e),
        }
    } else if notifier == SIMPLE_PUT_NAME@ {
        match url_outcome(env) {
            Ok(url) => Ok(NotifierView::SimplePut(url)),
            Err(e) => Err(e),
        }
    } else if notifier == IFTTT_WEBHOOK_JSON_NAME@ {
        match json_hook_outcome(env) {
            Ok(url) => Ok(NotifierView::WebHookJson(url)),
            Err(e) => Err(e),
        }
    } else if notifier == IFTTT_WEBHOOK_VALUES_NAME@ {
        match values_hook_outcome(env) {
            Ok(url) => Ok(NotifierView::WebHookValues(url)),
            Err(e) => Err(e),
        }
    } else if notifier == EMAIL_SENDMAIL_NAME@ {
        match mailboxes_outcome(env) {
            Ok((from, to)) => Ok(NotifierView::EmailViaSendmail(from, to)),
            Err(e) => Err(e),
        }
    } else if notifier == EMAIL_SMTP_NAME@ {
        match smtp_outcome(env) {
            Ok(smtp) => Ok(NotifierView::EmailViaSmtp(smtp)),
            Err(e) => Err(e),
        }
    } else {
        Err(ErrorView::UnknownNotifier { notifier })
    }
}

/// The view of a result that holds a notifier or a failure.
pub open spec fn notifier_result_view(r: Result<Notifier, LibError>) -> Result<
    NotifierView,
    ErrorView,
> {
    match r {
        Ok(notifier) => Ok(notifier@),
        Err(e) => Err(e@),
    }
}

/// Helps create notifiers.
pub struct Factory;

impl Factory {
    /// The names of all notifiers, in the order of the registry.
    pub fn names() -> (names: Vec<String>)
        ensures
            names.deep_view() == notifier_names(),
    {
        let mut names: Vec<String> = Vec::new();
        names.push(SIMPLE_GET_NAME.to_owned());
        names.push(SIMPLE_POST_NAME.to_owned());
        names.push(SIMPLE_PUT_NAME.to_owned());
        names.push(IFTTT_WEBHOOK_JSON_NAME.to_owned());
        names.push(IFTTT_WEBHOOK_VALUES_NAME.to_owned());
        names.push(EMAIL_SENDMAIL_NAME.to_owned());
        names.push(EMAIL_SMTP_NAME.to_owned());
        assert(names.deep_view() =~= notifier_names());
        names
    }

    /// Selects the desired notifier type and builds it from environment
    /// variables.
    pub fn from_env_by_name(notifier: &str, env: &Environment) -> (r: Result<Notifier, LibError>)
        ensures
            notifier_result_view(r) == factory_outcome(notifier@, *env),
            r matches Ok(built) ==> built@.name() == notifier@,
            !notifier_names().contains(notifier@) ==> r is Err,
    {
        proof {
            let names = notifier_names();
            assert(names[0] == SIMPLE_GET_NAME@ && names[1] == SIMPLE_POST_NAME@ && names[2]
                == SIMPLE_PUT_NAME@ && names[3] == IFTTT_WEBHOOK_JSON_NAME@ && names[4]
                == IFTTT_WEBHOOK_VALUES_NAME@ && names[5] == EMAIL_SENDMAIL_NAME@ && names[6]
                == EMAIL_SMTP_NAME@);
        }
        if text_eq(notifier, SIMPLE_GET_NAME) {
            Ok(Notifier::SimpleGet(SimpleGet::from_env(env)?))
        } else if text_eq(notifier, SIMPLE_POST_NAME) {
            Ok(Notifier::SimplePost(SimplePost::from_env(env)?))
        } else if text_eq(notifier, SIMPLE_PUT_NAME) {
            Ok(Notifier::SimplePut(SimplePut::from_env(env)?))
        } else if text_eq(notifier, IFTTT_WEBHOOK_JSON_NAME) {
            Ok(Notifier::WebHookJson(WebHookJson::from_env(env)?))
        } else if text_eq(notifier, IFTTT_WEBHOOK_VALUES_NAME) {
            Ok(Notifier::WebHookValues(WebHookValues::from_env(env)?))
        } else if text_eq(notifier, EMAIL_SENDMAIL_NAME) {
            Ok(Notifier::EmailViaSendmail(EmailViaSendmail::from_env(env)?))
        } else if text_eq(notifier, EMAIL_SMTP_NAME) {
            Ok(Notifier::EmailViaSmtp(EmailViaSmtp::from_env(env)?))
        } else {
            Err(LibError::UnknownNotifier { notifier: notifier.to_owned() })
        }
    }
}

/// Lists the notifiers.
pub struct ListRunner;

impl ListRunner {
    /// The heading of the list.
    pub fn heading() -> (text: &'static str)
        ensures
            text@ == "Available notifiers:"@,
    {
        "Available notifiers:"
    }

    /// The names of all available notifiers, sorted.
    pub fn names() -> (names: Vec<String>)
        ensures
            names.deep_view() == sorted_texts(notifier_names()),
    {
        sort_strings(&Factory::names())
    }
}

/// Tests a notifier.
#[derive(Clone, Debug, PartialEq, Eq)]
pub struct TestRunner {
    pub notifier: Notifier,
}

impl TestRunner {
    /// Builds an instance for the notifier that goes by a name.
    pub fn new(notifier_name: &str, env: &Environment) -> (r: Result<Self, LibError>)
        ensures
            match r {
                Ok(runner) => factory_outcome(notifier_name@, *env) == Ok::<
                    NotifierView,
                    ErrorView,
                >(runner.notifier@),
                Err(e) => factory_outcome(notifier_name@, *env) == Err::<NotifierView, ErrorView>(
                    e@,
                ),
            },
    {
        Ok(Self { notifier: Factory::from_env_by_name(notifier_name, env)? })
    }

    /// Prepares the notification that tests the selected notifier.
    pub fn test(&self) -> (r: Result<Notification, LibError>)
        ensures
            notification_result_view(r) == self.notifier@.planned(dummy_result()),
    {
        self.notifier.test()
    }
}

} // verus!
