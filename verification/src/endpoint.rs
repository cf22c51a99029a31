//! The transport's endpoint: the base URL, extended by the transport's path
//! and by the session as a query parameter.
//!
//! Parsing and extending URLs is the `url` crate's work. Its functions are
//! called through the wrappers below, whose contracts are believed, not
//! proved: each names what the crate returns and claims no more of it.

use vstd::prelude::*;
use vstd::string::StringExecFns;
use vstd::string::StringSliceAdditionalSpecFns;
use vstd::utf8::encode_utf8;
use crate::error::{ClientFault, FoundryClientError};

verus! {

/// Makes `url::Url` known as an opaque type: a parsed URL.
#[verifier::external_type_specification]
#[verifier::external_body]
pub struct ExUrl(url::Url);

/// The text that a parsed URL serialises to.
pub uninterp spec fn url_text(url: url::Url) -> Seq<char>;

/// What `Url::parse` makes of an input: the parsed URL's text, or the message
/// of the parse error.
pub uninterp spec fn parse_outcome(input: Seq<char>) -> Result<Seq<char>, Seq<char>>;

/// The text of a URL after `PathSegmentsMut::extend` has appended `segments`
/// to the path of the URL whose text is `text`.
pub uninterp spec fn with_segments(text: Seq<char>, segments: Seq<Seq<char>>) -> Seq<char>;

/// The text of a URL after `Serializer::append_pair` has appended the pair
/// `name`, `value` to the query of the URL whose text is `text`.
pub uninterp spec fn with_query_pair(text: Seq<char>, name: Seq<char>, value: Seq<char>) -> Seq<
    char,
>;

/// Whether `i` is where the first colon of `text` stands: in a URL's text, the
/// colon that ends the scheme.
pub open spec fn is_scheme_end(text: Seq<char>, i: int) -> bool {
    &&& 0 <= i < text.len()
    &&& text[i] == ':'
    &&& forall|j: int| 0 <= j < i ==> text[j] != ':'
}

/// Whether the URL with this text cannot be a base: no slash follows the
/// colon that ends its scheme, so it has no path segments to extend.
pub open spec fn cannot_be_a_base(text: Seq<char>) -> bool {
    forall|i: int| is_scheme_end(text, i) ==> !(i + 1 < text.len() && text[i + 1] == '/')
}

/// How many bytes a text takes.
pub open spec fn byte_length(text: Seq<char>) -> nat {
    encode_utf8(text).len()
}

/// The views of a list of string slices.
pub open spec fn slice_views(items: Seq<&str>) -> Seq<Seq<char>> {
    Seq::new(items.len(), |i: int| items[i]@)
}

/// The longest URL text, in bytes, that this module extends.
pub const URL_LIMIT: usize = 0x100_0000;

/// The longest path segment, query name or query value, in bytes, that this
/// module appends.
pub const PART_LIMIT: usize = 0x10_0000;

/// The most path segments appended in one step.
pub const SEGMENTS_LIMIT: usize = 16;

/// Calls `Url::parse`. The result is the parsed URL or the text of the parse
/// error, as [`parse_outcome`] names them for this input.
#[verifier::external_body]
fn parse_url(input: &str) -> (parsed: Result<url::Url, String>)
    ensures
        match parsed {
            Ok(url) => parse_outcome(input@) == Ok::<Seq<char>, Seq<char>>(url_text(url)),
            Err(why) => parse_outcome(input@) == Err::<Seq<char>, Seq<char>>(why@),
        },
{
    match url::Url::parse(input) {
        Ok(url) => Ok(url),
        Err(error) => Err(error.to_string()),
    }
}

/// Calls `Url::as_str` and measures the text in bytes.
#[verifier::external_body]
fn url_length(url: &url::Url) -> (bytes: usize)
    ensures
        bytes == byte_length(url_text(*url)),
{
    url.as_str().len()
}

/// Calls `Url::path_segments_mut` and, where the URL can be a base,
/// `PathSegmentsMut::extend` with `segments`. Returns whether the URL can be
/// a base; where it cannot, the URL is left as it was.
///
/// The bounds keep the extended text within the 4 GiB that the crate can
/// index: beyond them it panics.
#[verifier::external_body]
fn extend_path(url: &mut url::Url, segments: &Vec<&str>) -> (extended: bool)
    requires
        byte_length(url_text(*old(url))) <= URL_LIMIT,
        segments@.len() <= SEGMENTS_LIMIT,
        forall|i: int|
            0 <= i < segments@.len() ==> byte_length((#[trigger] segments@[i])@) <= PART_LIMIT,
    ensures
        extended == !cannot_be_a_base(url_text(*old(url))),
        extended ==> url_text(*final(url)) == with_segments(
            url_text(*old(url)),
            slice_views(segments@),
        ),
        !extended ==> url_text(*final(url)) == url_text(*old(url)),
{
    match url.path_segments_mut() {
        Ok(mut path) => {
            path.extend(segments.iter());
            true
        },
        Err(()) => false,
    }
}

/// Calls `Url::query_pairs_mut` and `Serializer::append_pair`.
///
/// The bounds keep the extended text within the 4 GiB that the crate can
/// index: beyond them it panics.
#[verifier::external_body]
fn append_query_pair(url: &mut url::Url, name: &str, value: &str)
    requires
        byte_length(url_text(*old(url))) <= URL_LIMIT,
        byte_length(name@) <= PART_LIMIT,
        byte_length(value@) <= PART_LIMIT,
    ensures
        url_text(*final(url)) == with_query_pair(url_text(*old(url)), name@, value@),
{
    url.query_pairs_mut().append_pair(name, value);
}

/// Calls `String::from` on the URL: its text.
#[verifier::external_body]
fn url_into_text(url: url::Url) -> (text: String)
    ensures
        text@ == url_text(url),
{
    String::from(url)
}

/// The message of the fault that a base URL without path segments gives.
pub open spec fn not_a_base() -> Seq<char> {
    "URL cannot be a base"@
}

/// The message of the fault that an over-long URL or session gives.
pub open spec fn too_long() -> Seq<char> {
    "URL is too long"@
}

/// The segments that the transport's path consists of: `socket.io`, then an
/// empty one for the closing slash.
pub open spec fn transport_segments() -> Seq<Seq<char>> {
    seq!["socket.io"@, ""@]
}

/// The transport's endpoint for a base URL and a session, over a parsed base.
///
/// This is the part of [`endpoint_of`] that follows the parse: `base` is the
/// parsed base URL's text.
pub open spec fn endpoint_from_base(base: Seq<char>, session: Seq<char>) -> Result<
    Seq<char>,
    ClientFault,
> {
    if byte_length(base) > URL_LIMIT {
        Err(ClientFault::URLError(too_long()))
    } else if cannot_be_a_base(base) {
        Err(ClientFault::URLError(not_a_base()))
    } else if byte_length(with_segments(base, transport_segments())) > URL_LIMIT || byte_length(
        session,
    ) > PART_LIMIT {
        Err(ClientFault::URLError(too_long()))
    } else {
        Ok(with_query_pair(with_segments(base, transport_segments()), "session"@, session))
    }
}

/// The transport's endpoint for a base URL and a session: the base URL,
/// parsed, with the path `socket.io/` appended and the session as the query
/// parameter `session`.
pub open spec fn endpoint_of(host: Seq<char>, session: Seq<char>) -> Result<
    Seq<char>,
    ClientFault,
> {
    match parse_outcome(host) {
        Err(why) => Err(ClientFault::URLError(why)),
        Ok(base) => endpoint_from_base(base, session),
    }
}

/// The literals that this module appends are short.
proof fn lemma_short_literals()
    ensures
        byte_length("socket.io"@) == 9,
        byte_length(""@) == 0,
        byte_length("session"@) == 7,
{
    broadcast use vstd::string::is_ascii_spec_bytes;

    reveal_strlit("socket.io");
    reveal_strlit("");
    reveal_strlit("session");
    assert(vstd::string::is_ascii("socket.io"));
    assert(vstd::string::is_ascii(""));
    assert(vstd::string::is_ascii("session"));
    assert("socket.io".spec_bytes().len() == 9);
    assert("".spec_bytes().len() == 0);
    assert("session".spec_bytes().len() == 7);
}

fn url_fault(why: &str) -> (fault: FoundryClientError)
    ensures
        fault@ == ClientFault::URLError(why@),
{
    FoundryClientError::URLError(String::from_str(why))
}

/// Extends a parsed base URL to the transport's endpoint for `session`.
fn extend_to_endpoint(base: url::Url, session: &str) -> (endpoint: Result<
    String,
    FoundryClientError,
>)
    ensures
        match endpoint {
            Ok(text) => endpoint_from_base(url_text(base), session@) == Ok::<
                Seq<char>,
                ClientFault,
            >(text@),
            Err(fault) => endpoint_from_base(url_text(base), session@) == Err::<
                Seq<char>,
                ClientFault,
            >(fault@),
        },
{
    let mut url = base;
    if url_length(&url) > URL_LIMIT {
        return Err(url_fault("URL is too long"));
    }
    let mut segments: Vec<&str> = Vec::new();
    segments.push("socket.io");
    segments.push("");
    proof {
        assert(slice_views(segments@) =~= transport_segments());
        lemma_short_literals();
    }
    if !extend_path(&mut url, &segments) {
        return Err(url_fault("URL cannot be a base"));
    }
    if url_length(&url) > URL_LIMIT || session.as_bytes().len() > PART_LIMIT {
        return Err(url_fault("URL is too long"));
    }
    append_query_pair(&mut url, "session", session);
    Ok(url_into_text(url))
}

/// The URL at which the transport is opened for `session`.
///
/// Fails with `URLError` where `host` does not parse as an absolute URL, is a
/// URL without path segments, or would give a URL too long to handle.
pub fn socket_url(host: &str, session: &str) -> (endpoint: Result<String, FoundryClientError>)
    ensures
        match endpoint {
            Ok(text) => endpoint_of(host@, session@) == Ok::<Seq<char>, ClientFault>(text@),
            Err(fault) => endpoint_of(host@, session@) == Err::<Seq<char>, ClientFault>(fault@),
        },
{
    match parse_url(host) {
        Err(why) => Err(FoundryClientError::URLError(why)),
        Ok(base) => extend_to_endpoint(base, session),
    }
}

} // verus!
