//! Queries dedicated-server providers for inventory and availability,
//! builds a `CheckResult` from what they answer, and prepares the
//! notifications that report a result or its change since the last check.
//!
//! The library decides and computes; reading the environment, talking to
//! the network and touching the disk are left to the program around it,
//! which hands in what it read and carries out what the library asks for.

use crate::error::ErrorView;
use crate::json::{frame_object, json_of_list, json_of_text, list_to_json, object_around, text_to_json};
use crate::text::{split, split_on, trim, trimmed};
use vstd::prelude::*;

pub mod controller;
pub mod error;
pub mod json;
pub mod notifiers;
pub mod providers;
pub mod sorting;
pub mod storage;
pub mod text;

pub use crate::error::{EnvFault, LibError};

verus! {

/// One environment variable as the program found it; `value` is `None`
/// where the variable holds something that is not valid Unicode.
#[derive(Clone, Debug)]
pub struct EnvVar {
    pub name: String,
    pub value: Option<String>,
}

/// A snapshot of the process environment.
#[derive(Clone, Debug)]
pub struct Environment {
    pub vars: Vec<EnvVar>,
}

/// What the first variable called `name` holds: `None` where there is no
/// such variable, `Some(None)` where it is not valid Unicode.
pub open spec fn env_lookup(vars: Seq<EnvVar>, name: Seq<char>) -> Option<Option<Seq<char>>>
    decreases vars.len(),
{
    if vars.len() == 0 {
        None
    } else if vars.first().name@ == name {
        Some(
            match vars.first().value {
                Some(text) => Some(text@),
                None => None,
            },
        )
    } else {
        env_lookup(vars.drop_first(), name)
    }
}

/// The trimmed text of the variable `name`, where it is set and readable.
pub open spec fn env_text(env: Environment, name: Seq<char>) -> Option<Seq<char>> {
    match env_lookup(env.vars@, name) {
        Some(Some(text)) => Some(trimmed(text)),
        _ => None,
    }
}

/// What `get_env_var` answers for the variable `name`.
pub open spec fn env_outcome(env: Environment, name: Seq<char>) -> Result<Seq<char>, ErrorView> {
    match env_lookup(env.vars@, name) {
        Some(Some(text)) => Ok(trimmed(text)),
        Some(None) => Err(ErrorView::EnvError { name, source: EnvFault::NotUnicode }),
        None => Err(ErrorView::EnvError { name, source: EnvFault::NotPresent }),
    }
}

/// The view of a result that holds a text or a failure.
pub open spec fn text_result_view(r: Result<String, LibError>) -> Result<Seq<char>, ErrorView> {
    match r {
        Ok(text) => Ok(text@),
        Err(e) => Err(e@),
    }
}

/// Gets an environment variable by name and trims it.
pub fn get_env_var(env: &Environment, name: &str) -> (r: Result<String, LibError>)
    ensures
        text_result_view(r) == env_outcome(*env, name@),
{
    let mut i: usize = 0;
    assert(env.vars@.skip(0) =~= env.vars@);
    while i < env.vars.len()
        invariant
            i <= env.vars.len(),
            env_lookup(env.vars@, name@) == env_lookup(env.vars@.skip(i as int), name@),
        decreases env.vars.len() - i,
    {
        let var = &env.vars[i];
        proof {
            assert(env.vars@.skip(i as int).first() == env.vars@[i as int]);
            assert(env.vars@.skip(i as int).drop_first() =~= env.vars@.skip(i + 1));
        }
        if crate::text::text_eq(var.name.as_str(), name) {
            return match &var.value {
                Some(text) => Ok(trim(text.as_str())),
                None => Err(
                    LibError::EnvError { name: name.to_owned(), source: EnvFault::NotUnicode },
                ),
            };
        }
        i += 1;
    }
    Err(LibError::EnvError { name: name.to_owned(), source: EnvFault::NotPresent })
}

/// Same as `get_env_var`, but as an option instead of a result.
pub fn get_env_var_option(env: &Environment, name: &str) -> (r: Option<String>)
    ensures
        match r {
            Some(text) => env_text(*env, name@) == Some(text@),
            None => env_text(*env, name@) is None,
        },
{
    match get_env_var(env, name) {
        Ok(text) => Some(text),
        Err(_) => None,
    }
}

/// Same as `get_env_var_option`, with a default in place of a missing value.
pub fn get_env_var_default(env: &Environment, name: &str, default: &str) -> (text: String)
    ensures
        text@ == match env_text(*env, name@) {
            Some(found) => found,
            None => default@,
        },
{
    match get_env_var_option(env, name) {
        Some(text) => text,
        None => default.to_owned(),
    }
}

/// The trimmed pieces of a comma separated text.
pub open spec fn csv_tokens(csv: Seq<char>) -> Seq<Seq<char>> {
    split_on(csv, ',').map_values(|piece: Seq<char>| trimmed(piece))
}

/// Tells whether one of the texts is empty.
pub open spec fn has_empty(tokens: Seq<Seq<char>>) -> bool {
    exists|i: int| 0 <= i < tokens.len() && #[trigger] tokens[i].len() == 0
}

/// Splits a comma separated text and trims every piece.
pub fn split_csv(csv: &str) -> (tokens: Vec<String>)
    ensures
        tokens.deep_view() == csv_tokens(csv@),
{
    let pieces = split(csv, ',');
    let mut tokens: Vec<String> = Vec::new();
    let mut i: usize = 0;
    while i < pieces.len()
        invariant
            i <= pieces.len(),
            tokens.len() == i,
            forall|k: int| 0 <= k < i ==> (#[trigger] tokens@[k])@ == trimmed(pieces@[k]@),
        decreases pieces.len() - i,
    {
        tokens.push(trim(pieces[i].as_str()));
        i += 1;
    }
    assert(tokens.deep_view() =~= csv_tokens(csv@));
    tokens
}

/// Tells whether one of the strings is empty.
pub fn any_empty(tokens: &Vec<String>) -> (found: bool)
    ensures
        found == has_empty(tokens.deep_view()),
{
    let mut i: usize = 0;
    while i < tokens.len()
        invariant
            i <= tokens.len(),
            forall|k: int| 0 <= k < i ==> (#[trigger] tokens.deep_view()[k]).len() != 0,
        decreases tokens.len() - i,
    {
        if tokens[i].as_str().is_empty() {
            assert(tokens.deep_view()[i as int].len() == 0);
            return true;
        }
        i += 1;
    }
    false
}

/// What `tokenize_optional_csv_str` answers.
pub open spec fn csv_outcome(csv: Option<Seq<char>>) -> Result<Seq<Seq<char>>, ErrorView> {
    match csv {
        None => Ok(Seq::empty()),
        Some(text) => if has_empty(csv_tokens(text)) {
            Err(
                ErrorView::ValueError {
                    name: "found empty token in comma separated string"@,
                    value: text,
                },
            )
        } else {
            Ok(csv_tokens(text))
        },
    }
}

/// The view of an optional text.
pub open spec fn option_text(text: Option<String>) -> Option<Seq<char>> {
    match text {
        Some(t) => Some(t@),
        None => None,
    }
}

/// The view of a result that holds a list of texts or a failure.
pub open spec fn list_result_view(r: Result<Vec<String>, LibError>) -> Result<
    Seq<Seq<char>>,
    ErrorView,
> {
    match r {
        Ok(list) => Ok(list.deep_view()),
        Err(e) => Err(e@),
    }
}

/// Splits a comma separated text into trimmed tokens and refuses a text
/// with an empty token; no text at all gives no token.
pub fn tokenize_optional_csv_str(csv: &Option<String>) -> (r: Result<Vec<String>, LibError>)
    ensures
        list_result_view(r) == csv_outcome(option_text(*csv)),
{
    match csv {
        Some(text) => {
            let tokens = split_csv(text.as_str());
            if any_empty(&tokens) {
                return Err(
                    LibError::ValueError {
                        name: "found empty token in comma separated string".to_owned(),
                        value: text.clone(),
                    },
                );
            }
            Ok(tokens)
        },
        None => {
            let tokens: Vec<String> = Vec::new();
            assert(tokens.deep_view() =~= Seq::<Seq<char>>::empty());
            Ok(tokens)
        },
    }
}

/// The header that authenticates a request.
#[derive(Clone, Debug)]
pub struct Authentication {
    pub header: String,
    pub value: String,
}

impl Authentication {
    /// The secret as it is, in an `X-Auth-Token` header.
    pub fn x_auth_token(secret: &str) -> (auth: Self)
        ensures
            auth.header@ == "X-Auth-Token"@,
            auth.value@ == secret@,
    {
        Self { header: "X-Auth-Token".to_owned(), value: secret.to_owned() }
    }

    /// The secret as a bearer token, in an `Authorization` header.
    pub fn bearer_token(secret: &str) -> (auth: Self)
        ensures
            auth.header@ == "Authorization"@,
            auth.value@ == "Bearer "@ + secret@,
    {
        let mut value = "Bearer ".to_owned();
        value.append(secret);
        Self { header: "Authorization".to_owned(), value }
    }
}

/// The outcome of one check of a provider: the servers that were asked for
/// and found available, in the order in which they were asked for.
#[derive(Clone, Debug, PartialEq, Eq)]
pub struct CheckResult {
    pub provider_name: String,
    pub available_servers: Vec<String>,
}

/// What a `CheckResult` holds, with every text as a sequence of characters.
pub struct CheckResultView {
    pub provider_name: Seq<char>,
    pub available_servers: Seq<Seq<char>>,
}

impl View for CheckResult {
    type V = CheckResultView;

    open spec fn view(&self) -> CheckResultView {
        CheckResultView {
            provider_name: self.provider_name@,
            available_servers: self.available_servers.deep_view(),
        }
    }
}

/// The name of the provider in the result that notifiers are tested with.
pub const DUMMY_PROVIDER_NAME: &'static str = "dummy_provider";

/// What the result holds that notifiers are tested with.
pub open spec fn dummy_result() -> CheckResultView {
    CheckResultView {
        provider_name: DUMMY_PROVIDER_NAME@,
        available_servers: seq!["foo_server"@, "bar_server"@, "baz_server"@],
    }
}

/// One line per server: a dash, a space, the server and a line feed.
pub open spec fn bullet_lines(servers: Seq<Seq<char>>) -> Seq<char>
    decreases servers.len(),
{
    if servers.len() == 0 {
        Seq::<char>::empty()
    } else {
        bullet_lines(servers.drop_last()) + "- "@ + servers.last() + "\n"@
    }
}

/// The report that a person reads: a heading that names the provider, then
/// the available servers one per line, or a sentence that says there is none.
pub open spec fn report_text(result: CheckResultView) -> Seq<char> {
    "Report of available server types for "@ + result.provider_name + " :\n\n"@ + (
    if result.available_servers.len() == 0 {
        "No server available for the selected types !\n"@
    } else {
        bullet_lines(result.available_servers)
    })
}

/// The compact JSON object for a result: the provider's name, then the list
/// of available servers.
pub open spec fn result_json(result: CheckResultView) -> Seq<char> {
    object_around(
        "\"provider_name\""@,
        json_of_text(result.provider_name),
        "\"available_servers\""@,
        json_of_list(result.available_servers),
    )
}

impl CheckResult {
    /// A result for `provider_name` with no server in it.
    pub fn new(provider_name: &str) -> (result: Self)
        ensures
            result@.provider_name == provider_name@,
            result@.available_servers == Seq::<Seq<char>>::empty(),
    {
        let result = Self {
            provider_name: provider_name.to_owned(),
            available_servers: Vec::<String>::new(),
        };
        assert(result@.available_servers =~= Seq::<Seq<char>>::empty());
        result
    }

    /// The fixed result that notifiers are tested with.
    pub fn get_dummy() -> (result: Self)
        ensures
            result@ == dummy_result(),
    {
        let mut servers: Vec<String> = Vec::new();
        servers.push("foo_server".to_owned());
        servers.push("bar_server".to_owned());
        servers.push("baz_server".to_owned());
        assert(servers.deep_view() =~= seq!["foo_server"@, "bar_server"@, "baz_server"@]);
        Self { provider_name: DUMMY_PROVIDER_NAME.to_owned(), available_servers: servers }
    }

    /// Writes the JSON object around an encoded name and an encoded list.
    pub fn frame_json(name_json: &str, servers_json: &str) -> (text: String)
        ensures
            text@ == object_around(
                "\"provider_name\""@,
                name_json@,
                "\"available_servers\""@,
                servers_json@,
            ),
    {
        frame_object("\"provider_name\"", name_json, "\"available_servers\"", servers_json)
    }

    /// Serializes to JSON: the provider's name, then the available servers.
    pub fn to_json(&self) -> (r: Result<String, LibError>)
        ensures
            r matches Ok(text) && text@ == result_json(self@),
    {
        let name_json = match text_to_json(self.provider_name.as_str()) {
            Ok(text) => text,
            Err(source) => {
                return Err(LibError::JsonError { source });
            },
        };
        let servers_json = match list_to_json(&self.available_servers) {
            Ok(text) => text,
            Err(source) => {
                return Err(LibError::JsonError { source });
            },
        };
        Ok(Self::frame_json(name_json.as_str(), servers_json.as_str()))
    }

    /// The report that a person reads.
    pub fn to_string(&self) -> (text: String)
        ensures
            text@ == report_text(self@),
    {
        let mut text = "Report of available server types for ".to_owned();
        text.append(self.provider_name.as_str());
        text.append(" :\n\n");
        if self.available_servers.len() == 0 {
            text.append("No server available for the selected types !\n");
        } else {
            let ghost head = text@;
            let ghost servers = self.available_servers.deep_view();
            let mut i: usize = 0;
            assert(servers.take(0) =~= Seq::<Seq<char>>::empty());
            assert(text@ =~= head + bullet_lines(servers.take(0)));
            while i < self.available_servers.len()
                invariant
                    i <= self.available_servers.len(),
                    servers == self.available_servers.deep_view(),
                    text@ == head + bullet_lines(servers.take(i as int)),
                decreases self.available_servers.len() - i,
            {
                proof {
                    assert(servers.take(i + 1).drop_last() =~= servers.take(i as int));
                    assert(servers.take(i + 1).last() == self.available_servers@[i as int]@);
                }
                text.append("- ");
                text.append(self.available_servers[i].as_str());
                text.append("\n");
                assert(text@ =~= head + bullet_lines(servers.take(i + 1)));
                i += 1;
            }
            assert(servers.take(servers.len() as int) =~= servers);
        }
        text
    }
}

/// Tells whether an HTTP status is one of success, 200 to 299.
pub open spec fn status_is_success(status: u16) -> bool {
    200 <= status <= 299
}

/// Tells whether an HTTP status blames the client, 400 to 499.
pub open spec fn status_is_client_error(status: u16) -> bool {
    400 <= status <= 499
}

/// Tells whether an HTTP status is one of success.
pub fn is_success(status: u16) -> (b: bool)
    ensures
        b == status_is_success(status),
{
    200 <= status && status <= 299
}

/// Tells whether an HTTP status blames the client.
pub fn is_client_error(status: u16) -> (b: bool)
    ensures
        b == status_is_client_error(status),
{
    400 <= status && status <= 499
}

/// The HTTP status "not found".
pub const STATUS_NOT_FOUND: u16 = 404;

/// The message that reports a status other than success.
pub open spec fn api_error_text(context: Seq<char>, status: u16) -> Seq<char> {
    context + " (status "@ + crate::text::decimal_text(status as nat) + ")"@
}

/// What `api_error_check` answers.
pub open spec fn status_outcome(context: Seq<char>, status: u16) -> Result<(), ErrorView> {
    if status_is_success(status) {
        Ok(())
    } else {
        Err(ErrorView::ApiError { message: api_error_text(context, status) })
    }
}

/// The view of a result that holds nothing or a failure.
pub open spec fn unit_result_view(r: Result<(), LibError>) -> Result<(), ErrorView> {
    match r {
        Ok(_) => Ok(()),
        Err(e) => Err(e@),
    }
}

/// Accepts an answer whose status is one of success and turns any other
/// status into an `ApiError` that names the context and the status.
pub fn api_error_check(status: u16, context: &str) -> (r: Result<(), LibError>)
    ensures
        unit_result_view(r) == status_outcome(context@, status),
{
    if is_success(status) {
        Ok(())
    } else {
        let mut message = context.to_owned();
        message.append(" (status ");
        message.append(crate::text::decimal(status as u128).as_str());
        message.append(")");
        Err(LibError::ApiError { message })
    }
}

/// The failure of the first outcome that is one, if any is.
pub open spec fn first_failure_of<T>(outcomes: Seq<Result<T, LibError>>) -> Option<ErrorView>
    decreases outcomes.len(),
{
    if outcomes.len() == 0 {
        None
    } else {
        match first_failure_of(outcomes.drop_last()) {
            Some(e) => Some(e),
            None => match outcomes.last() {
                Err(e) => Some(e@),
                Ok(_) => None,
            },
        }
    }
}

/// What the outcomes hold that are no failures, in order.
pub open spec fn successes_of<T>(outcomes: Seq<Result<T, LibError>>) -> Seq<T>
    decreases outcomes.len(),
{
    if outcomes.len() == 0 {
        Seq::empty()
    } else {
        match outcomes.last() {
            Ok(value) => successes_of(outcomes.drop_last()).push(value),
            Err(_) => successes_of(outcomes.drop_last()),
        }
    }
}

/// Makes one outcome of many that were gathered one after another: the
/// first failure where there is one, else all that was gathered, in order.
pub fn all_or_first_failure<T>(outcomes: Vec<Result<T, LibError>>) -> (r: Result<Vec<T>, LibError>)
    ensures
        match first_failure_of(outcomes@) {
            Some(failure) => r matches Err(e) && e@ == failure,
            None => r matches Ok(values) && values@ == successes_of(outcomes@),
        },
{
    let mut values: Vec<T> = Vec::new();
    let mut failure: Option<LibError> = None;
    let ghost all = outcomes@;
    assert(all.take(0) =~= Seq::<Result<T, LibError>>::empty());
    for outcome in it: outcomes
        invariant
            it.seq() == all,
            values@ == successes_of(all.take(it.index() as int)),
            match failure {
                Some(e) => first_failure_of(all.take(it.index() as int)) == Some(e@),
                None => first_failure_of(all.take(it.index() as int)) is None,
            },
    {
        let ghost done = it.index() as int;
        proof {
            assert(done < all.len());
            assert(all.take(done + 1).drop_last() =~= all.take(done));
            assert(all.take(done + 1).last() == outcome);
        }
        match outcome {
            Ok(value) => {
                values.push(value);
            },
            Err(e) => {
                if failure.is_none() {
                    failure = Some(e);
                }
            },
        }
    }
    assert(all.take(all.len() as int) =~= all);
    match failure {
        Some(e) => Err(e),
        None => Ok(values),
    }
}

} // verus!
