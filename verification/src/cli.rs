//! The command-line client's decisions: which credentials to use, where to
//! send requests, and what to print.

use vstd::prelude::*;
use crate::config::Config;
use crate::config::nonempty;
use crate::config::opt_view;
use crate::text::push_signed_decimal;
use crate::text::signed_decimal_chars;
use crate::text::trim_end_char;
use crate::text::trim_end_matches_char;

verus! {

/// A credential that none of the flags, the environment or the config file supplies.
pub enum CredentialError {
    /// No server URL.
    MissingUrl,
    /// No API token.
    MissingToken,
}

impl CredentialError {
    /// The error's message.
    pub fn message(&self) -> (m: String)
        ensures
            m@ == (match self {
                CredentialError::MissingUrl => "LINKDROP_URL is not set (env, config file, or --url)"@,
                CredentialError::MissingToken => "LINKDROP_TOKEN is not set (env, config file, or --token)"@,
            }),
    {
        match self {
            CredentialError::MissingUrl => String::from_str(
                "LINKDROP_URL is not set (env, config file, or --url)",
            ),
            CredentialError::MissingToken => String::from_str(
                "LINKDROP_TOKEN is not set (env, config file, or --token)",
            ),
        }
    }
}

/// The flag's value when there is one, else the config file's.
pub open spec fn preferred(flag: Option<Seq<char>>, file: Option<Seq<char>>) -> Option<Seq<char>> {
    if flag is Some {
        flag
    } else {
        file
    }
}

fn first_nonempty(flag: Option<String>, file: Option<String>) -> (r: Option<String>)
    ensures
        r matches Some(s) ==> preferred(opt_view(flag), opt_view(file)) == Some(s@) && s@.len()
            > 0,
        r is None ==> !nonempty(preferred(opt_view(flag), opt_view(file))),
{
    let chosen = match flag {
        Some(f) => Some(f),
        None => file,
    };
    match chosen {
        Some(s) => {
            if s.as_str().is_empty() {
                None
            } else {
                Some(s)
            }
        },
        None => None,
    }
}

/// The URL and token to talk to the server with: each is the command-line
/// value (`--url`/`--token` or its environment variable) when given, else the
/// config file's, and must not be empty.
pub fn resolve_credentials(cli_url: Option<String>, cli_token: Option<String>, file_config: Config) -> (r: Result<(String, String), CredentialError>)
    ensures
        r matches Ok((u, t)) ==> preferred(opt_view(cli_url), file_config@.url) == Some(u@)
            && u@.len() > 0 && preferred(opt_view(cli_token), file_config@.token) == Some(t@)
            && t@.len() > 0,
        r matches Err(e) ==> (match e {
            CredentialError::MissingUrl => !nonempty(
                preferred(opt_view(cli_url), file_config@.url),
            ),
            CredentialError::MissingToken => nonempty(
                preferred(opt_view(cli_url), file_config@.url),
            ) && !nonempty(preferred(opt_view(cli_token), file_config@.token)),
        }),
{
    let url = match first_nonempty(cli_url, file_config.url) {
        Some(u) => u,
        None => return Err(CredentialError::MissingUrl),
    };
    let token = match first_nonempty(cli_token, file_config.token) {
        Some(t) => t,
        None => return Err(CredentialError::MissingToken),
    };
    Ok((url, token))
}

/// The server URL without trailing slashes, to which API paths are appended.
pub fn api_base(url: &str) -> (r: String)
    ensures
        r@ == trim_end_char(url@, '/'),
{
    trim_end_matches_char(url, '/')
}

/// `<base>/api/pages`: where pages are pushed and listed.
pub fn pages_endpoint(base: &str) -> (r: String)
    ensures
        r@ == base@ + "/api/pages"@,
{
    let mut r = String::from_str(base);
    r.append("/api/pages");
    r
}

/// `<base>/api/pages/<slug>`: where a page is deleted.
pub fn page_endpoint(base: &str, slug: &str) -> (r: String)
    ensures
        r@ == base@ + "/api/pages/"@ + slug@,
{
    let mut r = String::from_str(base);
    r.append("/api/pages/");
    r.append(slug);
    r
}

/// The `Authorization` header value that carries `token`.
pub fn bearer(token: &str) -> (r: String)
    ensures
        r@ == "Bearer "@ + token@,
{
    let mut r = String::from_str("Bearer ");
    r.append(token);
    r
}

/// What is printed once a page has been deleted.
pub fn deleted_message(slug: &str) -> (r: String)
    ensures
        r@ == "deleted "@ + slug@,
{
    let mut r = String::from_str("deleted ");
    r.append(slug);
    r
}

/// One line of `linkdrop list`: slug, URL, size and expiry (`never` when none).
pub fn list_line(slug: &str, url: &str, size_bytes: i64, expires_at: Option<&str>) -> (r: String)
    ensures
        r@ == slug@ + "  "@ + url@ + "  "@ + signed_decimal_chars(size_bytes as int)
            + " bytes  expires: "@ + (match expires_at {
            Some(e) => e@,
            None => "never"@,
        }),
{
    let mut r = String::from_str(slug);
    r.append("  ");
    r.append(url);
    r.append("  ");
    push_signed_decimal(&mut r, size_bytes);
    r.append(" bytes  expires: ");
    match expires_at {
        Some(e) => r.append(e),
        None => r.append("never"),
    }
    r
}

/// The error reported for a failed request: the status, then the server's
/// `error` field when the body is such a JSON object, else the raw body.
pub fn failure_message(status: &str, body: &str, server_error: Option<&str>) -> (r: String)
    ensures
        r@ == status@ + ": "@ + (match server_error {
            Some(e) => e@,
            None => body@,
        }),
{
    let mut r = String::from_str(status);
    r.append(": ");
    match server_error {
        Some(e) => r.append(e),
        None => r.append(body),
    }
    r
}

/// A credential given on the command line (or in its environment variable)
/// takes precedence over the config file, whatever the file says.
pub proof fn flags_override_config_file(flag: Seq<char>, file: Option<Seq<char>>)
    ensures
        preferred(Some(flag), file) == Some(flag),
{
}

} // verus!
