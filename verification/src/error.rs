//! The failures that the library reports.

use vstd::prelude::*;

verus! {

/// `std::io::Error`, carried through untouched.
#[verifier::external_type_specification]
#[verifier::external_body]
pub struct ExIoError(std::io::Error);

/// `reqwest::Error`, carried through untouched.
#[verifier::external_type_specification]
#[verifier::external_body]
pub struct ExRequestError(reqwest::Error);

/// `serde_json::Error`, carried through untouched.
#[verifier::external_type_specification]
#[verifier::external_body]
pub struct ExJsonError(serde_json::Error);

/// Why an environment variable has no usable value.
#[derive(Clone, Copy, Debug, PartialEq, Eq, Structural)]
pub enum EnvFault {
    /// The variable is not set.
    NotPresent,
    /// The variable is set to something that is not valid Unicode.
    NotUnicode,
}

/// Every failure that this library reports.
#[derive(Debug)]
pub enum LibError {
    /// Input/output failure.
    IOError { source: std::io::Error },
    /// Missing or unreadable environment variable.
    EnvError { name: String, source: EnvFault },
    /// A configuration value that does not pass validation.
    ValueError { name: String, value: String },
    /// Anything from a DNS resolution failure to a connection time out.
    RequestError { source: reqwest::Error },
    /// The remote side answered, and reported a failure.
    ApiError { message: String },
    /// Failure while writing or reading JSON.
    JsonError { source: serde_json::Error },
    /// The provider does not know this server reference.
    UnknownServer { server: String },
    /// No notifier goes by this name.
    UnknownNotifier { notifier: String },
    /// No provider goes by this name.
    UnknownProvider { provider: String },
    /// Failure while composing or sending an email.
    EmailError { message: String },
}

/// What a `LibError` holds, with every text as a sequence of characters.
pub enum ErrorView {
    IOError { source: std::io::Error },
    EnvError { name: Seq<char>, source: EnvFault },
    ValueError { name: Seq<char>, value: Seq<char> },
    RequestError { source: reqwest::Error },
    ApiError { message: Seq<char> },
    JsonError { source: serde_json::Error },
    UnknownServer { server: Seq<char> },
    UnknownNotifier { notifier: Seq<char> },
    UnknownProvider { provider: Seq<char> },
    EmailError { message: Seq<char> },
}

impl View for LibError {
    type V = ErrorView;

    open spec fn view(&self) -> ErrorView {
        match *self {
            LibError::IOError { source } => ErrorView::IOError { source },
            LibError::EnvError { name, source } => ErrorView::EnvError { name: name@, source },
            LibError::ValueError { name, value } => ErrorView::ValueError {
                name: name@,
                value: value@,
            },
            LibError::RequestError { source } => ErrorView::RequestError { source },
            LibError::ApiError { message } => ErrorView::ApiError { message: message@ },
            LibError::JsonError { source } => ErrorView::JsonError { source },
            LibError::UnknownServer { server } => ErrorView::UnknownServer { server: server@ },
            LibError::UnknownNotifier { notifier } => ErrorView::UnknownNotifier {
                notifier: notifier@,
            },
            LibError::UnknownProvider { provider } => ErrorView::UnknownProvider {
                provider: provider@,
            },
            LibError::EmailError { message } => ErrorView::EmailError { message: message@ },
        }
    }
}

impl LibError {
    /// The message that describes this failure.
    pub open spec fn message_text(v: ErrorView) -> Seq<char> {
        match v {
            ErrorView::IOError { .. } => "Input/output error"@,
            ErrorView::EnvError { name, .. } => "Environment variable `"@ + name + "` error"@,
            ErrorView::ValueError { name, value } => "Invalid variable `"@ + name
                + "` error with value `"@ + value + "`"@,
            ErrorView::RequestError { .. } => "Network error"@,
            ErrorView::ApiError { message } => "API error `"@ + message + "`"@,
            ErrorView::JsonError { .. } => "Json error"@,
            ErrorView::UnknownServer { server } => "Unknown server `"@ + server + "`"@,
            ErrorView::UnknownNotifier { notifier } => "Unknown notifier `"@ + notifier + "`"@,
            ErrorView::UnknownProvider { provider } => "Unknown provider `"@ + provider + "` "@,
            ErrorView::EmailError { message } => "Email error `"@ + message + "`"@,
        }
    }

    /// Describes this failure in one line.
    pub fn to_string(&self) -> (text: String)
        ensures
            text@ == Self::message_text(self@),
    {
        match self {
            LibError::IOError { .. } => "Input/output error".to_owned(),
            LibError::EnvError { name, .. } => {
                let mut text = "Environment variable `".to_owned();
                text.append(name.as_str());
                text.append("` error");
                text
            },
            LibError::ValueError { name, value } => {
                let mut text = "Invalid variable `".to_owned();
                text.append(name.as_str());
                text.append("` error with value `");
                text.append(value.as_str());
                text.append("`");
                text
            },
            LibError::RequestError { .. } => "Network error".to_owned(),
            LibError::ApiError { message } => {
                let mut text = "API error `".to_owned();
                text.append(message.as_str());
                text.append("`");
                text
            },
            LibError::JsonError { .. } => "Json error".to_owned(),
            LibError::UnknownServer { server } => {
                let mut text = "Unknown server `".to_owned();
                text.append(server.as_str());
                text.append("`");
                text
            },
            LibError::UnknownNotifier { notifier } => {
                let mut text = "Unknown notifier `".to_owned();
                text.append(notifier.as_str());
                text.append("`");
                text
            },
            LibError::UnknownProvider { provider } => {
                let mut text = "Unknown provider `".to_owned();
                text.append(provider.as_str());
                text.append("` ");
                text
            },
            LibError::EmailError { message } => {
                let mut text = "Email error `".to_owned();
                text.append(message.as_str());
                text.append("`");
                text
            },
        }
    }
}

} // verus!
