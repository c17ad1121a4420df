//! Endpoint URLs, read with the `url` crate that reqwest re-exports.

use vstd::prelude::*;

use crate::config::opt_text;
use crate::text::str_eq;

verus! {

#[verifier::external_type_specification]
#[verifier::external_body]
pub struct ExUrl(reqwest::Url);

/// What the `url` crate reports of a text: the scheme, the host text, the user name,
/// the password, the query and the fragment; nothing when the text is not an absolute
/// URL.
pub uninterp spec fn url_parts(s: Seq<char>) -> Option<
    (Seq<char>, Option<Seq<char>>, Seq<char>, Option<Seq<char>>, Option<Seq<char>>, Option<Seq<char>>),
>;

/// Parses a URL with `reqwest::Url::parse` and hands back the URL with its `scheme`,
/// `host_str`, `username`, `password`, `query` and `fragment`, as the named parts of the
/// text.
#[verifier::external_body]
fn parse_url(s: &str) -> (r: Option<
    (reqwest::Url, String, Option<String>, String, Option<String>, Option<String>, Option<String>),
>)
    ensures
        match r {
            Some(p) => url_parts(s@) == Some((p.1@, opt_text(p.2), p.3@, opt_text(p.4), opt_text(p.5), opt_text(p.6))),
            None => url_parts(s@) is None,
        },
{
    match reqwest::Url::parse(s) {
        Ok(url) => {
            let scheme = url.scheme().to_string();
            let host = url.host_str().map(|h| h.to_string());
            let user = url.username().to_string();
            let password = url.password().map(|x| x.to_string());
            let query = url.query().map(|x| x.to_string());
            let fragment = url.fragment().map(|x| x.to_string());
            Some((url, scheme, host, user, password, query, fragment))
        },
        Err(_) => None,
    }
}

/// A URL's scheme and host, whether it carries credentials (a non-empty user name or a
/// password) and whether it carries a query or a fragment.
pub open spec fn url_summary(s: Seq<char>) -> Option<(Seq<char>, Option<Seq<char>>, bool, bool)> {
    match url_parts(s) {
        None => None,
        Some(p) => Some((p.0, p.1, p.2 != ""@ || p.3 is Some, p.4 is Some || p.5 is Some)),
    }
}

/// Parses a URL and summarizes it: the URL, its scheme and host, whether it carries
/// credentials, and whether it carries a query or fragment.
pub fn summarize_url(s: &str) -> (r: Option<(reqwest::Url, String, Option<String>, bool, bool)>)
    ensures
        match r {
            Some(p) => url_summary(s@) == Some((p.1@, opt_text(p.2), p.3, p.4)),
            None => url_summary(s@) is None,
        },
{
    match parse_url(s) {
        Some((url, scheme, host, user, password, query, fragment)) => {
            let credentials = !str_eq(user.as_str(), "") || password.is_some();
            let extras = query.is_some() || fragment.is_some();
            Some((url, scheme, host, credentials, extras))
        },
        None => None,
    }
}

} // verus!
