//! The email notifiers: the report of a result as a message from one
//! mailbox to another, for the local `sendmail` or for an SMTP relay.

use crate::error::ErrorView;
use crate::notifiers::{
    EmailDraft, EmailDraftView, Notification, NotificationView, SmtpSecurity, SmtpSubmission,
    SmtpSubmissionView,
};
use crate::text::{chars_of, decimal, decimal_text, trim_end, trimmed_end};
use crate::{
    env_outcome, get_env_var, report_text, CheckResult, CheckResultView, Environment, LibError,
};
use lettre::message::Mailbox;
use vstd::prelude::*;

verus! {

/// Environment variables that hold the two mailboxes.
pub const ENV_EMAIL_FROM: &'static str = "EMAIL_FROM";

pub const ENV_EMAIL_TO: &'static str = "EMAIL_TO";

/// Common name to identify the notifier that goes through `sendmail`.
pub const EMAIL_SENDMAIL_NAME: &'static str = "email-sendmail";

/// Environment variables that describe the SMTP relay.
pub const ENV_EMAIL_SMTP_HOST: &'static str = "EMAIL_SMTP_HOST";

pub const ENV_EMAIL_SMTP_PORT: &'static str = "EMAIL_SMTP_PORT";

pub const ENV_EMAIL_SMTP_USER: &'static str = "EMAIL_SMTP_USER";

pub const ENV_EMAIL_SMTP_PASSWORD: &'static str = "EMAIL_SMTP_PASSWORD";

/// Common name to identify the notifier that goes through an SMTP relay.
pub const EMAIL_SMTP_NAME: &'static str = "email-smtp";

/// The port of SMTP over TLS.
pub const SUBMISSIONS_PORT: u16 = 465;

/// The ports on which a relay upgrades with STARTTLS.
pub const SMTP_PORT: u16 = 25;

pub const SUBMISSION_PORT: u16 = 587;

/// The failure that reports what went wrong with a piece of an email:
/// the complaint, then the piece between backquotes.
pub open spec fn email_fault(complaint: Seq<char>, about: Seq<char>) -> ErrorView {
    ErrorView::EmailError { message: complaint + " in `"@ + about + "`"@ }
}

/// Reports what went wrong with a piece of an email.
pub fn email_error(complaint: &str, about: &str) -> (e: LibError)
    ensures
        e@ == email_fault(complaint@, about@),
{
    let mut message = complaint.to_owned();
    message.append(" in `");
    message.append(about);
    message.append("`");
    LibError::EmailError { message }
}

/// What the `lettre` crate objects to in a text that is to name a mailbox:
/// nothing where the text is an address, with or without a name before it,
/// else its complaint.
pub uninterp spec fn mailbox_fault(text: Seq<char>) -> Option<Seq<char>>;

/// Reads a text as a mailbox with `Mailbox::from_str` of the `lettre`
/// crate, and where that refuses the text hands back the refusal's own
/// message, as `to_string` renders it. Both depend on the text alone.
#[verifier::external_body]
fn parse_mailbox(text: &str) -> (r: Result<(), String>)
    ensures
        match r {
            Ok(_) => mailbox_fault(text@) is None,
            Err(complaint) => mailbox_fault(text@) == Some(complaint@),
        },
{
    match text.parse::<Mailbox>() {
        Ok(_) => Ok(()),
        Err(source) => Err(source.to_string()),
    }
}

/// What `mailbox_from_string` answers: the text itself where it names a
/// mailbox, else the failure that says why it does not.
pub open spec fn mailbox_outcome(mailbox: Seq<char>) -> Result<Seq<char>, ErrorView> {
    match mailbox_fault(mailbox) {
        None => Ok(mailbox),
        Some(complaint) => Err(email_fault(complaint, mailbox)),
    }
}

/// What the environment gives for a mailbox: the variable's text where it
/// is set and names a mailbox.
pub open spec fn env_mailbox_outcome(env: Environment, name: Seq<char>) -> Result<
    Seq<char>,
    ErrorView,
> {
    match env_outcome(env, name) {
        Err(e) => Err(e),
        Ok(mailbox) => mailbox_outcome(mailbox),
    }
}

/// Accepts a text that names a mailbox.
pub fn mailbox_from_string(mailbox: &str) -> (r: Result<String, LibError>)
    ensures
        crate::text_result_view(r) == mailbox_outcome(mailbox@),
{
    match parse_mailbox(mailbox) {
        Ok(_) => Ok(mailbox.to_owned()),
        Err(complaint) => Err(email_error(complaint.as_str(), mailbox)),
    }
}

/// Gets the destination mailbox from the environment.
pub fn env_mailbox_to(env: &Environment) -> (r: Result<String, LibError>)
    ensures
        crate::text_result_view(r) == env_mailbox_outcome(*env, ENV_EMAIL_TO@),
{
    let email = get_env_var(env, ENV_EMAIL_TO)?;
    mailbox_from_string(email.as_str())
}

/// Gets the originating mailbox from the environment.
pub fn env_mailbox_from(env: &Environment) -> (r: Result<String, LibError>)
    ensures
        crate::text_result_view(r) == env_mailbox_outcome(*env, ENV_EMAIL_FROM@),
{
    let email = get_env_var(env, ENV_EMAIL_FROM)?;
    mailbox_from_string(email.as_str())
}

/// The message that reports a result: a subject that names the provider,
/// and the report as body.
pub open spec fn message_for(result: CheckResultView, to: Seq<char>, from: Seq<char>) -> EmailDraftView {
    EmailDraftView {
        from,
        to,
        subject: "Server availability notification for "@ + result.provider_name,
        body: report_text(result),
    }
}

/// Builds a report message.
pub fn create_message(result: &CheckResult, to: &str, from: &str) -> (draft: EmailDraft)
    ensures
        draft@ == message_for(result@, to@, from@),
{
    let mut subject = "Server availability notification for ".to_owned();
    subject.append(result.provider_name.as_str());
    EmailDraft { from: from.to_owned(), to: to.to_owned(), subject, body: result.to_string() }
}

/// What `env_create_message` answers.
pub open spec fn env_message_outcome(env: Environment, result: CheckResultView) -> Result<
    EmailDraftView,
    ErrorView,
> {
    match env_mailbox_outcome(env, ENV_EMAIL_FROM@) {
        Err(e) => Err(e),
        Ok(from) => match env_mailbox_outcome(env, ENV_EMAIL_TO@) {
            Err(e) => Err(e),
            Ok(to) => Ok(message_for(result, to, from)),
        },
    }
}

/// Builds a report message between the mailboxes that the environment
/// names.
pub fn env_create_message(env: &Environment, result: &CheckResult) -> (r: Result<
    EmailDraft,
    LibError,
>)
    ensures
        match r {
            Ok(draft) => env_message_outcome(*env, result@) == Ok::<EmailDraftView, ErrorView>(
                draft@,
            ),
            Err(e) => env_message_outcome(*env, result@) == Err::<EmailDraftView, ErrorView>(e@),
        },
{
    let from = env_mailbox_from(env)?;
    let to = env_mailbox_to(env)?;
    Ok(create_message(result, to.as_str(), from.as_str()))
}

/// Sends through the local `sendmail`.
#[derive(Clone, Debug, PartialEq, Eq)]
pub struct EmailViaSendmail {
    pub from: String,
    pub to: String,
}

/// What `EmailViaSendmail::from_env` answers: the two mailboxes, sender
/// first, each set and well formed, or the first objection.
pub open spec fn mailboxes_outcome(env: Environment) -> Result<(Seq<char>, Seq<char>), ErrorView> {
    match env_mailbox_outcome(env, ENV_EMAIL_FROM@) {
        Err(e) => Err(e),
        Ok(from) => match env_mailbox_outcome(env, ENV_EMAIL_TO@) {
            Err(e) => Err(e),
            Ok(to) => Ok((from, to)),
        },
    }
}

impl EmailViaSendmail {
    /// Reports that `sendmail` did not take a message.
    pub fn sending_error(complaint: &str, message: &str) -> (e: LibError)
        ensures
            e@ == email_fault(complaint@, message@),
    {
        email_error(complaint, message)
    }

    /// Builds a notifier from environment variables.
    pub fn from_env(env: &Environment) -> (r: Result<Self, LibError>)
        ensures
            match r {
                Ok(mail) => mailboxes_outcome(*env) == Ok::<(Seq<char>, Seq<char>), ErrorView>(
                    (mail.from@, mail.to@),
                ),
                Err(e) => mailboxes_outcome(*env) == Err::<(Seq<char>, Seq<char>), ErrorView>(e@),
            },
    {
        let from = env_mailbox_from(env)?;
        let to = env_mailbox_to(env)?;
        Ok(Self { from, to })
    }

    /// Gets the actual name of the notifier.
    pub fn name(&self) -> (name: &'static str)
        ensures
            name@ == EMAIL_SENDMAIL_NAME@,
    {
        EMAIL_SENDMAIL_NAME
    }

    /// Prepares the notification of a result.
    pub fn notify(&self, result: &CheckResult) -> (r: Result<Notification, LibError>)
        ensures
            r matches Ok(n) && n@ == NotificationView::Sendmail(
                message_for(result@, self.to@, self.from@),
            ),
    {
        Ok(Notification::Sendmail(create_message(result, self.to.as_str(), self.from.as_str())))
    }

    /// Prepares the notification that tests the notifier.
    pub fn test(&self) -> (r: Result<Notification, LibError>)
        ensures
            r matches Ok(n) && n@ == NotificationView::Sendmail(
                message_for(crate::dummy_result(), self.to@, self.from@),
            ),
    {
        self.notify(&CheckResult::get_dummy())
    }
}

/// Why a text is no port number.
#[derive(Clone, Copy, Debug, PartialEq, Eq, Structural)]
pub enum PortFault {
    /// The text is empty.
    Empty,
    /// The text holds something else than decimal digits behind an
    /// optional plus sign.
    InvalidDigit,
    /// The number does not fit in sixteen bits.
    TooLarge,
}

/// Tells whether a character is a decimal digit.
pub open spec fn is_digit(c: char) -> bool {
    '0' <= c <= '9'
}

/// The number that decimal digits write, read from the left: the first
/// character that is no digit stops the reading, and so does the first
/// digit with which the number outgrows sixteen bits.
pub open spec fn digits_outcome(digits: Seq<char>) -> Result<nat, PortFault>
    decreases digits.len(),
{
    if digits.len() == 0 {
        Ok(0)
    } else {
        match digits_outcome(digits.drop_last()) {
            Err(fault) => Err(fault),
            Ok(before) => if !is_digit(digits.last()) {
                Err(PortFault::InvalidDigit)
            } else if before * 10 + (digits.last() as nat - '0' as nat) > 0xffff {
                Err(PortFault::TooLarge)
            } else {
                Ok((before * 10 + (digits.last() as nat - '0' as nat)) as nat)
            },
        }
    }
}

/// The port that a text names: decimal digits, with or without a plus
/// sign before them, and nothing else.
pub open spec fn port_outcome(text: Seq<char>) -> Result<nat, PortFault> {
    if text.len() == 0 {
        Err(PortFault::Empty)
    } else if text.len() == 1 && (text[0] == '+' || text[0] == '-') {
        Err(PortFault::InvalidDigit)
    } else if text[0] == '+' {
        digits_outcome(text.drop_first())
    } else {
        digits_outcome(text)
    }
}

/// What says why a text is no port number.
pub open spec fn port_fault_text(fault: PortFault) -> Seq<char> {
    match fault {
        PortFault::Empty => "cannot parse integer from empty string"@,
        PortFault::InvalidDigit => "invalid digit found in string"@,
        PortFault::TooLarge => "number too large to fit in target type"@,
    }
}

impl PortFault {
    /// Says why a text is no port number.
    pub fn to_string(&self) -> (text: String)
        ensures
            text@ == port_fault_text(*self),
    {
        match self {
            PortFault::Empty => "cannot parse integer from empty string".to_owned(),
            PortFault::InvalidDigit => "invalid digit found in string".to_owned(),
            PortFault::TooLarge => "number too large to fit in target type".to_owned(),
        }
    }
}

proof fn lemma_digits_failure_stays(digits: Seq<char>, upto: int)
    requires
        0 <= upto <= digits.len(),
        digits_outcome(digits.take(upto)) is Err,
    ensures
        digits_outcome(digits) == digits_outcome(digits.take(upto)),
    decreases digits.len() - upto,
{
    if upto == digits.len() {
        assert(digits.take(upto) =~= digits);
    } else {
        assert(digits.take(upto + 1).drop_last() =~= digits.take(upto));
        lemma_digits_failure_stays(digits, upto + 1);
    }
}

/// Reads a port number.
pub fn parse_port(text: &str) -> (r: Result<u16, PortFault>)
    ensures
        match r {
            Ok(port) => port_outcome(text@) == Ok::<nat, PortFault>(port as nat),
            Err(fault) => port_outcome(text@) == Err::<nat, PortFault>(fault),
        },
{
    let chars = chars_of(text);
    if chars.len() == 0 {
        return Err(PortFault::Empty);
    }
    let first: char = chars[0];
    if chars.len() == 1 && (first == '+' || first == '-') {
        return Err(PortFault::InvalidDigit);
    }
    let start: usize = if first == '+' {
        1
    } else {
        0
    };
    let ghost digits = chars@.skip(start as int);
    proof {
        assert(chars@.drop_first() =~= chars@.skip(1));
        assert(chars@.skip(0) =~= chars@);
        assert(digits.take(0) =~= Seq::<char>::empty());
    }
    let mut value: u32 = 0;
    let mut i: usize = start;
    while i < chars.len()
        invariant
            start <= i <= chars.len(),
            digits == chars@.skip(start as int),
            port_outcome(text@) == digits_outcome(digits),
            value <= 0xffff,
            digits_outcome(digits.take(i - start)) == Ok::<nat, PortFault>(value as nat),
        decreases chars.len() - i,
    {
        let c: char = chars[i];
        proof {
            assert(digits.take(i - start + 1).drop_last() =~= digits.take(i - start));
            assert(digits.take(i - start + 1).last() == c);
        }
        if !('0' <= c && c <= '9') {
            proof {
                lemma_digits_failure_stays(digits, i - start + 1);
            }
            return Err(PortFault::InvalidDigit);
        }
        let digit: u32 = (c as u32) - ('0' as u32);
        let next: u32 = value * 10 + digit;
        if next > 0xffff {
            proof {
                lemma_digits_failure_stays(digits, i - start + 1);
            }
            return Err(PortFault::TooLarge);
        }
        value = next;
        i += 1;
    }
    assert(digits.take(chars.len() - start) =~= digits);
    Ok(value as u16)
}

/// Sends through an SMTP relay.
#[derive(Clone, Debug, PartialEq, Eq)]
pub struct EmailViaSmtp {
    pub host: String,
    pub port: u16,
    pub user: String,
    pub password: String,
    pub from: String,
    pub to: String,
}

/// What an `EmailViaSmtp` holds, with every text as a sequence of
/// characters.
pub struct EmailViaSmtpView {
    pub host: Seq<char>,
    pub port: u16,
    pub user: Seq<char>,
    pub password: Seq<char>,
    pub from: Seq<char>,
    pub to: Seq<char>,
}

impl View for EmailViaSmtp {
    type V = EmailViaSmtpView;

    open spec fn view(&self) -> EmailViaSmtpView {
        EmailViaSmtpView {
            host: self.host@,
            port: self.port,
            user: self.user@,
            password: self.password@,
            from: self.from@,
            to: self.to@,
        }
    }
}

/// The failure that reports a text which names no port.
pub open spec fn port_value_error(fault: PortFault, text: Seq<char>) -> ErrorView {
    ErrorView::ValueError {
        name: ENV_EMAIL_SMTP_PORT@,
        value: port_fault_text(fault) + ": "@ + text,
    }
}

/// What `EmailViaSmtp::from_env` answers.
pub open spec fn smtp_outcome(env: Environment) -> Result<EmailViaSmtpView, ErrorView> {
    match env_outcome(env, ENV_EMAIL_SMTP_HOST@) {
        Err(e) => Err(e),
        Ok(host) => match env_outcome(env, ENV_EMAIL_SMTP_PORT@) {
            Err(e) => Err(e),
            Ok(port_text) => match port_outcome(port_text) {
                Err(fault) => Err(port_value_error(fault, port_text)),
                Ok(port) => match env_outcome(env, ENV_EMAIL_SMTP_USER@) {
                    Err(e) => Err(e),
                    Ok(user) => match env_outcome(env, ENV_EMAIL_SMTP_PASSWORD@) {
                        Err(e) => Err(e),
                        Ok(password) => match mailboxes_outcome(env) {
                            Err(e) => Err(e),
                            Ok((from, to)) => Ok(
                                EmailViaSmtpView {
                                    host,
                                    port: port as u16,
                                    user,
                                    password,
                                    from,
                                    to,
                                },
                            ),
                        },
                    },
                },
            },
        }
    }
}

/// How the connection to a relay on `port` is secured, or the failure
/// that reports a port which tells nothing about it.
pub open spec fn security_outcome(port: u16) -> Result<SmtpSecurity, ErrorView> {
    if port == SUBMISSIONS_PORT {
        Ok(SmtpSecurity::Tls)
    } else if port == SMTP_PORT || port == SUBMISSION_PORT {
        Ok(SmtpSecurity::StartTls)
    } else {
        Err(
            ErrorView::ValueError {
                name: ENV_EMAIL_SMTP_PORT@,
                value: "Unknown STARTTLS or TLS from port "@ + decimal_text(port as nat),
            },
        )
    }
}

/// What `EmailViaSmtp::notify` answers.
pub open spec fn submission_outcome(smtp: EmailViaSmtpView, result: CheckResultView) -> Result<
    NotificationView,
    ErrorView,
> {
    match security_outcome(smtp.port) {
        Err(e) => Err(e),
        Ok(security) => Ok(
            NotificationView::Smtp(
                SmtpSubmissionView {
                    draft: message_for(result, smtp.to, smtp.from),
                    host: smtp.host,
                    port: smtp.port,
                    user: smtp.user,
                    password: smtp.password,
                    security,
                },
            ),
        ),
    }
}

/// How bad the relay's answer is, by the first digit of its code.
#[derive(Clone, Copy, Debug, PartialEq, Eq, Structural)]
pub enum SmtpSeverity {
    PositiveCompletion,
    PositiveIntermediate,
    TransientNegativeCompletion,
    PermanentNegativeCompletion,
}

/// The lines of an answer, each closed by a line feed.
pub open spec fn lines_text(lines: Seq<Seq<char>>) -> Seq<char>
    decreases lines.len(),
{
    if lines.len() == 0 {
        Seq::<char>::empty()
    } else {
        lines_text(lines.drop_last()) + lines.last() + "\n"@
    }
}

/// What `reply` answers.
pub open spec fn reply_outcome(severity: SmtpSeverity, lines: Seq<Seq<char>>) -> Result<
    (),
    ErrorView,
> {
    match severity {
        SmtpSeverity::PositiveCompletion | SmtpSeverity::PositiveIntermediate => Ok(()),
        SmtpSeverity::TransientNegativeCompletion => Err(
            ErrorView::EmailError {
                message: "Negative smtp TRANSIENT response : "@ + trimmed_end(lines_text(lines)),
            },
        ),
        SmtpSeverity::PermanentNegativeCompletion => Err(
            ErrorView::EmailError {
                message: "Negative smtp PERMANENT response : "@ + trimmed_end(lines_text(lines)),
            },
        ),
    }
}

impl EmailViaSmtp {
    /// Tells how to secure the connection to the relay.
    pub fn security(&self) -> (r: Result<SmtpSecurity, LibError>)
        ensures
            match r {
                Ok(security) => security_outcome(self.port) == Ok::<SmtpSecurity, ErrorView>(
                    security,
                ),
                Err(e) => security_outcome(self.port) == Err::<SmtpSecurity, ErrorView>(e@),
            },
    {
        if self.port == SUBMISSIONS_PORT {
            Ok(SmtpSecurity::Tls)
        } else if self.port == SMTP_PORT || self.port == SUBMISSION_PORT {
            Ok(SmtpSecurity::StartTls)
        } else {
            let mut value = "Unknown STARTTLS or TLS from port ".to_owned();
            value.append(decimal(self.port as u128).as_str());
            Err(LibError::ValueError { name: ENV_EMAIL_SMTP_PORT.to_owned(), value })
        }
    }

    /// Reports that no transport to the relay could be set up.
    pub fn transport_error(complaint: &str) -> (e: LibError)
        ensures
            e@ == (ErrorView::EmailError {
                message: "Error when creating SMTP transport : "@ + complaint@,
            }),
    {
        let mut message = "Error when creating SMTP transport : ".to_owned();
        message.append(complaint);
        LibError::EmailError { message }
    }

    /// Reports that the relay did not take the message.
    pub fn sending_error(complaint: &str) -> (e: LibError)
        ensures
            e@ == (ErrorView::EmailError {
                message: "Smtp error when sending email message : "@ + complaint@,
            }),
    {
        let mut message = "Smtp error when sending email message : ".to_owned();
        message.append(complaint);
        LibError::EmailError { message }
    }

    /// Judges the relay's answer to a message: a positive answer is fine, a
    /// negative one is reported with its lines.
    pub fn reply(severity: SmtpSeverity, lines: &Vec<String>) -> (r: Result<(), LibError>)
        ensures
            crate::unit_result_view(r) == reply_outcome(severity, lines.deep_view()),
    {
        let mut messages = String::new();
        let mut i: usize = 0;
        let ghost all = lines.deep_view();
        assert(all.take(0) =~= Seq::<Seq<char>>::empty());
        while i < lines.len()
            invariant
                i <= lines.len(),
                all == lines.deep_view(),
                messages@ == lines_text(all.take(i as int)),
            decreases lines.len() - i,
        {
            proof {
                assert(all.take(i + 1).drop_last() =~= all.take(i as int));
                assert(all.take(i + 1).last() == lines@[i as int]@);
            }
            messages.append(lines[i].as_str());
            messages.append("\n");
            assert(messages@ =~= lines_text(all.take(i + 1)));
            i += 1;
        }
        assert(all.take(lines.len() as int) =~= all);
        let messages = trim_end(messages.as_str());
        match severity {
            SmtpSeverity::PositiveCompletion | SmtpSeverity::PositiveIntermediate => Ok(()),
            SmtpSeverity::TransientNegativeCompletion => {
                let mut message = "Negative smtp TRANSIENT response : ".to_owned();
                message.append(messages.as_str());
                Err(LibError::EmailError { message })
            },
            SmtpSeverity::PermanentNegativeCompletion => {
                let mut message = "Negative smtp PERMANENT response : ".to_owned();
                message.append(messages.as_str());
                Err(LibError::EmailError { message })
            },
        }
    }

    /// Builds a notifier from environment variables.
    pub fn from_env(env: &Environment) -> (r: Result<Self, LibError>)
        ensures
            match r {
                Ok(smtp) => smtp_outcome(*env) == Ok::<EmailViaSmtpView, ErrorView>(smtp@),
                Err(e) => smtp_outcome(*env) == Err::<EmailViaSmtpView, ErrorView>(e@),
            },
    {
        let host = get_env_var(env, ENV_EMAIL_SMTP_HOST)?;
        let port_text = get_env_var(env, ENV_EMAIL_SMTP_PORT)?;
        let port = match parse_port(port_text.as_str()) {
            Ok(port) => port,
            Err(fault) => {
                let mut value = fault.to_string();
                value.append(": ");
                value.append(port_text.as_str());
                return Err(LibError::ValueError { name: ENV_EMAIL_SMTP_PORT.to_owned(), value });
            },
        };
        let user = get_env_var(env, ENV_EMAIL_SMTP_USER)?;
        let password = get_env_var(env, ENV_EMAIL_SMTP_PASSWORD)?;
        let from = env_mailbox_from(env)?;
        let to = env_mailbox_to(env)?;
        Ok(EmailViaSmtp { host, port, user, password, from, to })
    }

    /// Gets the actual name of the notifier.
    pub fn name(&self) -> (name: &'static str)
        ensures
            name@ == EMAIL_SMTP_NAME@,
    {
        EMAIL_SMTP_NAME
    }

    /// Prepares the notification of a result.
    pub fn notify(&self, result: &CheckResult) -> (r: Result<Notification, LibError>)
        ensures
            crate::notifiers::notification_result_view(r) == submission_outcome(self@, result@),
    {
        let security = self.security()?;
        Ok(
            Notification::Smtp(
                SmtpSubmission {
                    draft: create_message(result, self.to.as_str(), self.from.as_str()),
                    host: self.host.clone(),
                    port: self.port,
                    user: self.user.clone(),
                    password: self.password.clone(),
                    security,
                },
            ),
        )
    }

    /// Prepares the notification that tests the notifier.
    pub fn test(&self) -> (r: Result<Notification, LibError>)
        ensures
            crate::notifiers::notification_result_view(r) == submission_outcome(
                self@,
                crate::dummy_result(),
            ),
    {
        self.notify(&CheckResult::get_dummy())
    }
}

} // verus!
