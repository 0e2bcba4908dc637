//! Resolution of the links found on a page against the page's own address.

use crate::error::ExtractionError;
use crate::text::starts_with;
use vstd::prelude::*;

verus! {

/// A URL that the `url` crate has parsed. It is held only between the calls
/// that make one and the call that writes it out.
#[verifier::external_type_specification]
#[verifier::external_body]
pub struct ExUrl(url::Url);

/// The error of the `url` crate's parser.
#[verifier::external_type_specification]
#[verifier::external_body]
pub struct ExUrlParseError(url::ParseError);

/// The text of a URL: what its `Display` impl writes. The `url` crate
/// compares, orders and hashes its URLs by this text.
pub uninterp spec fn url_text(url: url::Url) -> Seq<char>;

/// The text of the URL that `url::Url::parse` reads from `input`, or `None`
/// where it reports an error.
pub uninterp spec fn parsed_url(input: Seq<char>) -> Option<Seq<char>>;

/// The text of the URL that `url::Url::join` reads from `reference` when the
/// base URL has the text `base`, or `None` where it reports an error.
pub uninterp spec fn joined_url(base: Seq<char>, reference: Seq<char>) -> Option<Seq<char>>;

/// Calls `url::Url::parse`. The contract claims only that the outcome depends
/// on the input alone, and gives it the name [`parsed_url`].
#[verifier::external_body]
fn parse_url(input: &str) -> (r: Result<url::Url, url::ParseError>)
    ensures
        match r {
            Ok(url) => parsed_url(input@) == Some(url_text(url)),
            Err(_) => parsed_url(input@) is None,
        },
{
    url::Url::parse(input)
}

/// Calls `url::Url::join`. The contract claims only that the outcome depends
/// on the text of the base and on the reference alone, and gives it the name
/// [`joined_url`].
#[verifier::external_body]
fn join_url(base: &url::Url, reference: &str) -> (r: Result<url::Url, url::ParseError>)
    ensures
        match r {
            Ok(url) => joined_url(url_text(*base), reference@) == Some(url_text(url)),
            Err(_) => joined_url(url_text(*base), reference@) is None,
        },
{
    base.join(reference)
}

/// Writes a URL out through its `Display` impl, which copies the text that the
/// URL holds. The contract gives that text the name [`url_text`].
#[verifier::external_body]
fn url_to_string(url: &url::Url) -> (s: String)
    ensures
        s@ == url_text(*url),
{
    url.to_string()
}

/// The prefix of a link that names the scheme `http`.
pub open spec fn http_prefix() -> Seq<char> {
    seq!['h', 't', 't', 'p', ':', '/', '/']
}

/// The prefix of a link that names the scheme `https`.
pub open spec fn https_prefix() -> Seq<char> {
    seq!['h', 't', 't', 'p', 's', ':', '/', '/']
}

/// Whether `link` names its scheme itself, as `http://` or `https://`.
pub open spec fn has_web_scheme(link: Seq<char>) -> bool {
    http_prefix().is_prefix_of(link) || https_prefix().is_prefix_of(link)
}

/// The absolute form of `link` as found on the page at `base`. A link that
/// names its scheme is taken as it stands; any other is resolved against
/// `base` by the rules for relative URLs. `None` where `base` is no absolute
/// URL or the resolution fails.
pub open spec fn resolved(base: Seq<char>, link: Seq<char>) -> Option<Seq<char>> {
    if has_web_scheme(link) {
        Some(link)
    } else {
        match parsed_url(base) {
            None => None,
            Some(base_url) => joined_url(base_url, link),
        }
    }
}

/// Whether `link` begins with `http://` or `https://`.
pub fn names_web_scheme(link: &str) -> (b: bool)
    ensures
        b == has_web_scheme(link@),
{
    proof {
        reveal_strlit("http://");
        reveal_strlit("https://");
        assert("http://"@ =~= http_prefix());
        assert("https://"@ =~= https_prefix());
    }
    starts_with(link, "http://") || starts_with(link, "https://")
}

/// Makes the link `input`, found on the page at `base_url`, absolute.
pub fn _rel2abs(base_url: &str, input: &str) -> (r: Result<String, ExtractionError>)
    ensures
        match r {
            Ok(url) => resolved(base_url@, input@) == Some(url@),
            Err(e) => resolved(base_url@, input@) is None && e == ExtractionError::InvalidUrl,
        },
{
    if names_web_scheme(input) {
        return Ok(input.to_string());
    }
    let base = match parse_url(base_url) {
        Ok(url) => url,
        Err(_) => {
            return Err(ExtractionError::InvalidUrl);
        },
    };
    match join_url(&base, input) {
        Ok(url) => Ok(url_to_string(&url)),
        Err(_) => Err(ExtractionError::InvalidUrl),
    }
}

} // verus!
