//! The daemon's address: what the user types, and the WebSocket URL made from it.
use vstd::prelude::*;

verus! {

#[verifier::external_type_specification]
#[verifier::external_body]
pub struct ExUrl(url::Url);

#[verifier::external_type_specification]
#[verifier::external_body]
pub struct ExParseError(url::ParseError);

/// Whether `url::Url::parse` accepts the text `s`.
pub uninterp spec fn url_accepts(s: Seq<char>) -> bool;

/// The URL dialled for an address typed as `host[:port][/path]`.
pub open spec fn ws_address_text(entry: Seq<char>) -> Seq<char> {
    "ws://"@ + entry
}

/// Prefixes the typed address with the WebSocket scheme.
pub fn ws_address(entry: &str) -> (r: String)
    ensures
        r@ == ws_address_text(entry@),
{
    let mut r = String::from_str("ws://");
    r.append(entry);
    r
}

/// Relies on `url::Url::parse`: whether it succeeds depends on the text alone.
#[verifier::external_body]
pub(crate) fn parse_url(s: &str) -> (r: Result<url::Url, url::ParseError>)
    ensures
        r is Ok <==> url_accepts(s@),
{
    url::Url::parse(s)
}

/// Relies on `url::ParseError`'s `Display`: it writes one fixed description per
/// variant, none of them empty.
#[verifier::external_body]
pub(crate) fn parse_error_text(e: &url::ParseError) -> (r: String)
    ensures
        r@.len() > 0,
{
    e.to_string()
}

} // verus!
