//! URLs, as the `url` crate parses, rewrites and writes them. Nothing in this
//! file is proved: each item states what the library believes of that crate.

use url::ParseError;
use url::Url;
use vstd::prelude::*;
use vstd::utf8::encode_utf8;

verus! {

/// `url::Url`, a parsed URL. Verus sees nothing inside it.
#[verifier::external_type_specification]
#[verifier::external_body]
pub struct ExUrl(Url);

/// `url::ParseError`, the reason why a text is no URL.
#[verifier::external_type_specification]
#[verifier::external_body]
pub struct ExParseError(ParseError);

/// The serialization of a URL: the text that `Url::as_str` hands out. Two
/// URLs with one text need not be the same URL, so every other name below is
/// stated over the URL itself.
pub uninterp spec fn url_text(u: Url) -> Seq<char>;

/// What `Url::parse` makes of a text: the URL it returns, or `None` where it
/// returns an error.
pub uninterp spec fn parsed_url(input: Seq<char>) -> Option<Url>;

/// The URL that `Url::set_path` leaves, given the URL before the call and
/// the new path.
pub uninterp spec fn url_after_path(u: Url, path: Seq<char>) -> Url;

/// The URL that `Url::set_query` leaves, given the URL before the call and
/// the new query (`None` removes the query).
pub uninterp spec fn url_after_query(u: Url, query: Option<Seq<char>>) -> Url;

/// What `Url::host_str` returns for a URL.
pub uninterp spec fn url_host(u: Url) -> Option<Seq<char>>;

/// What `Url::port` returns for a URL.
pub uninterp spec fn url_port(u: Url) -> Option<u16>;

/// The longest text, in bytes, that this library hands to the setters of a
/// `Url`. They count positions in 32 bits and may write three bytes for one
/// byte read, so a quarter of that range keeps them from running over.
pub const MAX_URL_PART: usize = 0x1000_0000;

/// The length of a text in bytes of UTF-8.
pub open spec fn byte_len(text: Seq<char>) -> nat {
    encode_utf8(text).len()
}

/// `Url::parse`: parses an absolute URL. The contract names the outcome and
/// ties it to the argument; it says nothing of which texts are URLs.
pub assume_specification[ Url::parse ](input: &str) -> (r: Result<Url, ParseError>)
    ensures
        match r {
            Ok(u) => parsed_url(input@) == Some(u),
            Err(_) => parsed_url(input@) is None,
        },
;

/// `Url::as_str`: the serialization.
pub assume_specification[ Url::as_str ](u: &Url) -> (r: &str)
    ensures
        r@ == url_text(*u),
;

/// `Url::host_str`: the host as the URL writes it, `None` for a URL without
/// host.
pub assume_specification[ Url::host_str ](u: &Url) -> (r: Option<&str>)
    ensures
        match r {
            Some(h) => url_host(*u) == Some(h@),
            None => url_host(*u) is None,
        },
;

/// `Url::port`: the port, where the URL names one that is not the default of
/// its scheme.
pub assume_specification[ Url::port ](u: &Url) -> (r: Option<u16>)
    ensures
        r == url_port(*u),
;

/// `Url::set_path`: replaces the path and keeps query and fragment. The
/// crate panics where a position no longer fits in 32 bits, which the bound
/// on both lengths rules out.
pub assume_specification[ Url::set_path ](u: &mut Url, path: &str)
    requires
        byte_len(url_text(*old(u))) <= MAX_URL_PART,
        byte_len(path@) <= MAX_URL_PART,
    ensures
        *final(u) == url_after_path(*old(u), path@),
;

/// `Url::set_query`: replaces the query, or removes it for `None`, and keeps
/// the fragment. Bounded like `set_path`, for the same reason.
pub assume_specification[ Url::set_query ](u: &mut Url, query: Option<&str>)
    requires
        byte_len(url_text(*old(u))) <= MAX_URL_PART,
        query matches Some(q) ==> byte_len(q@) <= MAX_URL_PART,
    ensures
        *final(u) == url_after_query(
            *old(u),
            match query {
                Some(q) => Some(q@),
                None => None,
            },
        ),
;

} // verus!
