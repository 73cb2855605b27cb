//! The address of the server a client connects to.
use vstd::prelude::*;
use crate::error::{ClientError, CoreError, Error};
use crate::outside::{
    parse_url, spec_parsed_url, spec_url_parse_error, spec_url_parses, str_starts_with, url_error_text, url_parse_error_text,
};
use crate::workflow::joined;
use url::Url;

verus! {

/// Whether the target names its scheme, `http://` or `https://`.
pub open spec fn has_scheme(target: Seq<char>) -> bool {
    "http://"@.is_prefix_of(target) || "https://"@.is_prefix_of(target)
}

/// The URL text of a target: the target itself where it names its scheme,
/// else the target after `http://`.
pub open spec fn target_url_text(target: Seq<char>) -> Seq<char> {
    if has_scheme(target) {
        target
    } else {
        "http://"@ + target
    }
}

/// The URL text of a target address, such as `localhost:7233` or
/// `https://example.com:7233`.
pub fn target_text(target: &str) -> (s: String)
    ensures
        s@ == target_url_text(target@),
{
    if str_starts_with(target, "http://") || str_starts_with(target, "https://") {
        String::from_str(target)
    } else {
        joined("http://", target)
    }
}

/// The URL of the server a client connects to, from an address such as
/// `localhost:7233` or `http://localhost:7233`; an address without a scheme
/// is taken as `http://`. An address that does not parse gives an invalid
/// configuration error whose message starts with `invalid URL: `.
pub fn parse_target(target: &str) -> (r: Result<Url, Error>)
    ensures
        r is Ok <==> spec_url_parses(target_url_text(target@)),
        r matches Ok(u) ==> u == spec_parsed_url(target_url_text(target@)),
        r matches Err(e) ==> e matches Error::Client(ClientError::InvalidConfig(m))
            && m@ == "invalid URL: "@ + url_error_text(spec_url_parse_error(target_url_text(target@))),
{
    let text = target_text(target);
    match parse_url(text.as_str()) {
        Ok(u) => Ok(u),
        Err(e) => {
            let detail = url_parse_error_text(&e);
            let m = joined("invalid URL: ", detail.as_str());
            Err(Error::Client(ClientError::InvalidConfig(m)))
        },
    }
}

/// The URL of a server given as a full URL text; text that does not parse
/// gives the core layer's URL error.
pub fn parse_core_target(target: &str) -> (r: Result<Url, CoreError>)
    ensures
        r is Ok <==> spec_url_parses(target@),
        r matches Ok(u) ==> u == spec_parsed_url(target@),
        r matches Err(e) ==> e == CoreError::InvalidUrl(spec_url_parse_error(target@)),
{
    match parse_url(target) {
        Ok(u) => Ok(u),
        Err(e) => Err(CoreError::InvalidUrl(e)),
    }
}

/// Taking the URL text of a URL text changes nothing: an address is
/// completed with a scheme at most once.
pub proof fn lemma_target_text_idempotent(target: Seq<char>)
    ensures
        target_url_text(target_url_text(target)) == target_url_text(target),
        has_scheme(target_url_text(target)),
{
    if !has_scheme(target) {
        let t = "http://"@ + target;
        assert(t.subrange(0, "http://"@.len() as int) =~= "http://"@);
    }
}

} // verus!
