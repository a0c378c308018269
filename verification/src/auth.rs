//! The credential for the registry: where it comes from at start-up, and what
//! each step of a login means.
//!
//! The caller reads the environment and the cache file, asks the identity
//! service for the user name and runs the login command. The token reaches the
//! login command on its standard input, never among its arguments.

use vstd::prelude::*;
use vstd::string::*;
use crate::text::{blank, first_meaningful_line, first_text_line, is_blank, join2, trim, trimmed};
use crate::updates::opt_text;

verus! {

/// The environment variables that may carry the credential, in the order in
/// which they are looked at.
pub fn credential_variables() -> (names: Vec<&'static str>)
    ensures
        names@.len() == 3,
        names@[0]@ == "GHCR_TOKEN"@,
        names@[1]@ == "GITHUB_TOKEN"@,
        names@[2]@ == "GH_TOKEN"@,
{
    let mut names: Vec<&'static str> = Vec::new();
    names.push("GHCR_TOKEN");
    names.push("GITHUB_TOKEN");
    names.push("GH_TOKEN");
    names
}

/// The first value that is present, in the order given.
pub open spec fn first_present(values: Seq<Option<String>>) -> Option<Seq<char>>
    decreases values.len(),
{
    if values.len() == 0 {
        None
    } else {
        match values[0] {
            Some(value) => Some(value@),
            None => first_present(values.drop_first()),
        }
    }
}

/// The credential that a cache file of this content holds: the content without
/// the white space around it, or none if nothing is left.
pub open spec fn cached_credential(cached: Option<String>) -> Option<Seq<char>> {
    match cached {
        Some(content) => if is_blank(content@) {
            None
        } else {
            Some(trimmed(content@))
        },
        None => None,
    }
}

/// The credential at start-up: the first environment variable that is set
/// wins, then the cache file; with neither there is no credential.
pub open spec fn resolved_credential(variables: Seq<Option<String>>, cached: Option<String>) -> Option<
    Seq<char>,
> {
    match first_present(variables) {
        Some(value) => Some(value),
        None => cached_credential(cached),
    }
}

/// Resolves the credential at start-up. `variables` holds the values of the
/// credential variables in their order of priority, `cached` the content of
/// the cache file if there is one.
pub fn resolve_credential(variables: &Vec<Option<String>>, cached: &Option<String>) -> (token: Option<
    String,
>)
    ensures
        opt_text(token) == resolved_credential(variables@, *cached),
{
    let mut i: usize = 0;
    assert(variables@.skip(0) =~= variables@);
    while i < variables.len()
        invariant
            i <= variables.len(),
            first_present(variables@) == first_present(variables@.skip(i as int)),
        decreases variables.len() - i,
    {
        let ghost rest = variables@.skip(i as int);
        assert(rest.drop_first() =~= variables@.skip(i + 1));
        match &variables[i] {
            Some(value) => {
                return Some(value.clone());
            },
            None => {},
        }
        i += 1;
    }
    match cached {
        Some(content) => {
            if blank(content.as_str()) {
                None
            } else {
                Some(trim(content.as_str()))
            }
        },
        None => None,
    }
}

/// The failure reported when the identity service does not answer with a success.
pub open spec fn identity_failure(status: Seq<char>, body: Seq<char>) -> Seq<char> {
    "GitHub API returned "@ + status + " when fetching user info: "@ + body
}

/// Judges the answer of the identity service: a status from 200 to 299 means
/// that the answer holds the user; any other status is a failure that shows
/// the status and the text of the answer as it came.
pub fn after_identity_response(code: u16, status: &str, body: &str) -> (outcome: Result<(), String>)
    ensures
        outcome is Ok <==> 200 <= code < 300,
        outcome matches Err(message) ==> message@ == identity_failure(status@, body@),
{
    if 200 <= code && code < 300 {
        Ok(())
    } else {
        let mut message = String::from_str("GitHub API returned ");
        message.append(status);
        message.append(" when fetching user info: ");
        message.append(body);
        Err(message)
    }
}

/// The address of the identity service.
pub const IDENTITY_URL: &'static str = "https://api.github.com/user";

/// The name under which the installer introduces itself in requests.
pub const USER_AGENT: &'static str = "nqrust-analytics";

/// The media type asked for in requests.
pub const ACCEPT: &'static str = "application/vnd.github+json";

/// Where the credential is cached, below the home directory.
pub const TOKEN_CACHE: &'static str = ".config/nqrust/ghcr_token";

/// Seconds after which the request to the identity service is given up.
pub const IDENTITY_TIMEOUT_SECONDS: u64 = 15;

/// The registry that is logged in to.
pub const REGISTRY_HOST: &'static str = "ghcr.io";

/// The arguments of the login command for `username`. The token is not among
/// them: it is written to the command's standard input.
pub fn login_arguments(username: &str) -> (arguments: Vec<String>)
    ensures
        arguments@.len() == 5,
        arguments@[0]@ == "login"@,
        arguments@[1]@ == "ghcr.io"@,
        arguments@[2]@ == "-u"@,
        arguments@[3]@ == username@,
        arguments@[4]@ == "--password-stdin"@,
{
    let mut arguments: Vec<String> = Vec::new();
    arguments.push(String::from_str("login"));
    arguments.push(String::from_str(REGISTRY_HOST));
    arguments.push(String::from_str("-u"));
    arguments.push(String::from_str(username));
    arguments.push(String::from_str("--password-stdin"));
    arguments
}

/// What is written to the standard input of the login command: the token and a line feed.
pub fn login_input(token: &str) -> (input: String)
    ensures
        input@ == token@ + "\n"@,
{
    join2(token, "\n")
}

/// What the login command came to.
pub enum LoginOutcome {
    /// The registry accepted the credential.
    Accepted,
    /// The registry turned the credential down; `diagnostics` is what the command printed.
    Rejected { diagnostics: String },
    /// The command offered no standard input to write the token to.
    NoInput,
    /// The command could not be started, written to or waited for.
    CommandFailed(String),
}

/// The failure shown when the registry turns the credential down: the first
/// line of the diagnostics that holds any text, or "unknown error".
pub open spec fn rejection_message(diagnostics: Seq<char>) -> Seq<char> {
    "Docker login failed: "@ + (match first_text_line(diagnostics) {
        Some(line) => line,
        None => "unknown error"@,
    })
}

/// The failure shown when the registry turns the credential down.
pub fn login_rejection(diagnostics: &str) -> (message: String)
    ensures
        message@ == rejection_message(diagnostics@),
{
    match first_meaningful_line(diagnostics) {
        Some(line) => join2("Docker login failed: ", line.as_str()),
        None => join2("Docker login failed: ", "unknown error"),
    }
}

} // verus!
