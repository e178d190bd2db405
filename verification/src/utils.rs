//! The domains that a message refers to.

use crate::text::{lowered, split_whitespace, to_ascii_lowercase, views, words};
use vstd::prelude::*;
use vstd::string::StringExecFns;

verus! {

/// `url::ParseError`, the error of `url::Url::parse`: carried through, never looked into.
#[verifier::external_type_specification]
#[verifier::external_body]
pub struct ExParseError(url::ParseError);

/// Whether `url::Url::parse` accepts `token` as an absolute URL.
pub uninterp spec fn url_parses(token: Seq<char>) -> bool;

/// The host that `url::Url::host_str` reports of the URL parsed from `token`, if it has one.
pub uninterp spec fn url_host(token: Seq<char>) -> Option<Seq<char>>;

/// The characters of an optional string.
pub open spec fn opt_view(s: Option<String>) -> Option<Seq<char>> {
    match s {
        Some(s) => Some(s@),
        None => None,
    }
}

/// `url::Url::parse` on `token`, then `url::Url::host_str` on the URL: the
/// parser's error, or the URL's host where it has one. Both depend on `token`
/// alone; what they are is left to the `url` crate.
#[verifier::external_body]
pub(crate) fn parse_host(token: &str) -> (parsed: Result<Option<String>, url::ParseError>)
    ensures
        (parsed is Ok) == url_parses(token@),
        parsed matches Ok(host) ==> opt_view(host) == url_host(token@),
{
    match url::Url::parse(token) {
        Ok(parsed) => Ok(parsed.host_str().map(|host| host.to_string())),
        Err(e) => Err(e),
    }
}

/// What a parsed token contributes: its host in lower case, or nothing where
/// the token is no URL or the URL has no host.
pub open spec fn host_domain(parsed_ok: bool, host: Option<Seq<char>>) -> Option<Seq<char>> {
    match host {
        Some(h) if parsed_ok => Some(lowered(h)),
        _ => None,
    }
}

/// The domain that one token of a message refers to, if any.
pub open spec fn token_domain(token: Seq<char>) -> Option<Seq<char>> {
    host_domain(url_parses(token), url_host(token))
}

/// The domains that a list of tokens refers to, in the tokens' order.
pub open spec fn token_domains(tokens: Seq<Seq<char>>) -> Seq<Seq<char>>
    decreases tokens.len(),
{
    if tokens.len() == 0 {
        Seq::empty()
    } else {
        let before = token_domains(tokens.drop_last());
        match token_domain(tokens.last()) {
            Some(d) => before.push(d),
            None => before,
        }
    }
}

/// The domains that a message text refers to: the lower-cased hosts of those
/// of its words that parse as URLs with a host, in order of appearance.
pub open spec fn text_domains(text: Seq<char>) -> Seq<Seq<char>> {
    token_domains(words(text))
}

/// Turns the outcome of parsing one token into the domain it refers to. A
/// token that does not parse, or whose URL has no host, refers to none; this
/// is not an error.
pub fn domain_of(parsed: Result<Option<String>, url::ParseError>) -> (domain: Option<String>)
    ensures
        opt_view(domain) == host_domain(
            parsed is Ok,
            match parsed {
                Ok(host) => opt_view(host),
                Err(_) => None,
            },
        ),
{
    match parsed {
        Ok(Some(host)) => Some(to_ascii_lowercase(host.as_str())),
        _ => None,
    }
}

/// The domains that `text` refers to. The text is cut at white space; each
/// piece that parses as a URL with a host yields that host in lower case, and
/// every other piece is passed over.
pub fn extract_domains(text: &str) -> (domains: Vec<String>)
    ensures
        views(domains@) == text_domains(text@),
{
    let tokens = split_whitespace(text);
    let mut domains: Vec<String> = Vec::new();
    let mut i: usize = 0;
    while i < tokens.len()
        invariant
            i <= tokens.len(),
            views(domains@) == token_domains(views(tokens@).take(i as int)),
        decreases tokens.len() - i,
    {
        let ghost seen = views(tokens@).take(i as int);
        let ghost next = views(tokens@).take(i + 1);
        assert(next.drop_last() == seen);
        assert(next.last() == tokens@[i as int]@);
        let found = domain_of(parse_host(tokens[i].as_str()));
        match found {
            Some(domain) => {
                assert(views(domains@.push(domain)) == views(domains@).push(domain@));
                domains.push(domain);
            },
            None => {},
        }
        i += 1;
    }
    assert(views(tokens@).take(tokens@.len() as int) == views(tokens@));
    domains
}

/// The address of `method` of the platform's API for the bot with `token`.
pub open spec fn api_address(token: Seq<char>, method: Seq<char>) -> Seq<char> {
    "https://api.telegram.org/bot"@ + token + "/"@ + method
}

/// The address of `method` of the platform's API for the bot with `token`.
pub fn api_url(token: &str, method: &str) -> (url: String)
    ensures
        url@ == api_address(token@, method@),
{
    let mut url = String::from_str("https://api.telegram.org/bot");
    url.append(token);
    url.append("/");
    url.append(method);
    url
}

/// Whether a reply of the platform's API reports success: the HTTP status
/// is a success and the field `ok` of the body is the boolean `true`.
pub fn api_reply_accepted(status_is_success: bool, ok_field: Option<bool>) -> (accepted: bool)
    ensures
        accepted == (status_is_success && ok_field == Some(true)),
{
    match ok_field {
        Some(ok) => status_is_success && ok,
        None => false,
    }
}

} // verus!
