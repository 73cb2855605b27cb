//! Calls into outside crates and into the parts of std that vstd does not
//! specify. Each item here is trusted: Verus believes its contract.
use vstd::prelude::*;
pub use std::time::SystemTime;

verus! {

/// `std::time::SystemTime`, carried through the library without being read.
#[verifier::external_type_specification]
#[verifier::external_body]
pub struct ExSystemTime(std::time::SystemTime);

/// Whether `c` is one of the characters `A`-`Z`, `a`-`z`, `0`-`9`.
pub open spec fn is_ascii_alphanumeric(c: char) -> bool {
    ('A' <= c && c <= 'Z') || ('a' <= c && c <= 'z') || ('0' <= c && c <= '9')
}

/// `fastrand::alphanumeric`: draws one character from the global generator.
/// The crate picks it from the string `A..Z a..z 0..9`, so the contract states
/// that range; which character comes out is chance and is not stated.
#[verifier::external_body]
pub(crate) fn random_alphanumeric() -> (c: char)
    ensures
        is_ascii_alphanumeric(c),
{
    fastrand::alphanumeric()
}

/// `String::push`: appends one character at the end.
#[verifier::external_body]
pub(crate) fn push_char(s: &mut String, c: char)
    ensures
        final(s)@ == old(s)@.push(c),
{
    s.push(c)
}

/// `str::starts_with` with a string pattern: true exactly when `prefix` is a
/// prefix of `s`.
#[verifier::external_body]
pub(crate) fn str_starts_with(s: &str, prefix: &str) -> (b: bool)
    ensures
        b == prefix@.is_prefix_of(s@),
{
    s.starts_with(prefix)
}

/// Whether the bytes are a complete JSON document. `serde_json::from_slice`
/// into a `serde_json::Value` succeeds on these bytes and on no others; the
/// answer depends on the bytes alone.
pub uninterp spec fn spec_is_json(data: Seq<u8>) -> bool;

/// `serde_json::from_slice::<serde_json::Value>`: reports whether the bytes
/// parse as JSON. The parsed value is dropped.
#[verifier::external_body]
pub(crate) fn json_parses(data: &[u8]) -> (b: bool)
    ensures
        b == spec_is_json(data@),
{
    serde_json::from_slice::<serde_json::Value>(data).is_ok()
}

/// `url::Url`, a parsed URL, carried through the library without being read.
#[verifier::external_type_specification]
#[verifier::external_body]
pub struct ExUrl(url::Url);

/// `url::ParseError`, why a URL did not parse: an enum of unit variants,
/// which Verus reads.
#[verifier::external_type_specification]
pub struct ExUrlParseError(url::ParseError);

/// `Url::clone`: `Url` derives `Clone`, so the copy holds the same record.
pub assume_specification[ <url::Url as Clone>::clone ](u: &url::Url) -> (r: url::Url)
    ensures
        r == *u,
;

/// Whether `url::Url::parse` accepts the text as an absolute URL. The parser
/// is deterministic: the answer depends on the text alone.
pub uninterp spec fn spec_url_parses(text: Seq<char>) -> bool;

/// The URL that `url::Url::parse` gives for a text it accepts. The parser is
/// deterministic: the URL depends on the text alone.
pub uninterp spec fn spec_parsed_url(text: Seq<char>) -> url::Url;

/// The error that `url::Url::parse` gives for a text it refuses. The parser
/// is deterministic: the error depends on the text alone.
pub uninterp spec fn spec_url_parse_error(text: Seq<char>) -> url::ParseError;

/// `url::Url::parse`: parses an absolute URL. It succeeds exactly on the
/// texts that `spec_url_parses` accepts, and then gives the URL that
/// `spec_parsed_url` names for the text; otherwise it gives the error that
/// `spec_url_parse_error` names for the text.
#[verifier::external_body]
pub(crate) fn parse_url(text: &str) -> (r: Result<url::Url, url::ParseError>)
    ensures
        r is Ok <==> spec_url_parses(text@),
        r matches Ok(u) ==> u == spec_parsed_url(text@),
        r matches Err(e) ==> e == spec_url_parse_error(text@),
{
    url::Url::parse(text)
}

/// The `Display` text of each `url::ParseError` variant, as the `url` crate
/// writes it. The enum is marked non-exhaustive; the listed variants are all
/// it has.
pub open spec fn url_error_text(e: url::ParseError) -> Seq<char> {
    match e {
        url::ParseError::EmptyHost => "empty host"@,
        url::ParseError::IdnaError => "invalid international domain name"@,
        url::ParseError::InvalidPort => "invalid port number"@,
        url::ParseError::InvalidIpv4Address => "invalid IPv4 address"@,
        url::ParseError::InvalidIpv6Address => "invalid IPv6 address"@,
        url::ParseError::InvalidDomainCharacter => "invalid domain character"@,
        url::ParseError::RelativeUrlWithoutBase => "relative URL without a base"@,
        url::ParseError::RelativeUrlWithCannotBeABaseBase => "relative URL with a cannot-be-a-base base"@,
        url::ParseError::SetHostOnCannotBeABaseUrl => "a cannot-be-a-base URL doesn\u{2019}t have a host to set"@,
        url::ParseError::Overflow => "URLs more than 4 GB are not supported"@,
        _ => Seq::empty(),
    }
}

/// The `Display` text of a `url::ParseError`: the fixed text of its variant.
#[verifier::external_body]
pub(crate) fn url_parse_error_text(e: &url::ParseError) -> (s: String)
    ensures
        s@ == url_error_text(*e),
{
    e.to_string()
}

/// `tokio_util::sync::CancellationToken`, shared between the holders of its
/// clones.
#[verifier::external_type_specification]
#[verifier::external_body]
pub struct ExCancellationToken(tokio_util::sync::CancellationToken);

/// `CancellationToken::clone`: another handle on the same token. The clone
/// shares the cancellation state of the token it was cloned from, which is not
/// modelled, so nothing is stated of it.
pub assume_specification[ <tokio_util::sync::CancellationToken as Clone>::clone ](
    token: &tokio_util::sync::CancellationToken,
) -> tokio_util::sync::CancellationToken;

/// `CancellationToken::new`: a fresh token. Whether a token is cancelled is
/// state shared with all of its clones, so nothing is stated of it here.
#[verifier::external_body]
pub(crate) fn new_cancellation_token() -> tokio_util::sync::CancellationToken {
    tokio_util::sync::CancellationToken::new()
}

/// `CancellationToken::is_cancelled`. The answer depends on whether some
/// clone of the token was cancelled, which the library does not track, so
/// nothing is stated of it.
#[verifier::external_body]
pub(crate) fn cancellation_token_is_cancelled(token: &tokio_util::sync::CancellationToken) -> bool {
    token.is_cancelled()
}

} // verus!
