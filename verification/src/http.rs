//! Header maps and URIs: what the rest of the crate may believe of the `http` types that axum
//! and reqwest share.

use axum::http::header::{
    Entry, HeaderMap, HeaderValue, InvalidHeaderName, InvalidHeaderValue, MaxSizeReached,
    ToStrError,
};
use axum::http::uri::{
    Authority, InvalidUri, InvalidUriParts, Parts, PathAndQuery, Scheme, Uri,
};
use vstd::prelude::*;
use vstd::utf8::*;

use crate::fault::{CacheError, CacheErrorView};
use crate::text::{after_last, before, position};

verus! {

#[verifier::external_type_specification]
#[verifier::external_body]
#[verifier::reject_recursive_types(T)]
pub struct ExHeaderMap<T>(HeaderMap<T>);

#[verifier::external_type_specification]
#[verifier::external_body]
pub struct ExHeaderValue(HeaderValue);

#[verifier::external_type_specification]
#[verifier::external_body]
pub struct ExInvalidHeaderValue(InvalidHeaderValue);

#[verifier::external_type_specification]
#[verifier::external_body]
pub struct ExInvalidHeaderName(InvalidHeaderName);

#[verifier::external_type_specification]
#[verifier::external_body]
pub struct ExMaxSizeReached(MaxSizeReached);

#[verifier::external_type_specification]
#[verifier::external_body]
pub struct ExToStrError(ToStrError);

#[verifier::external_type_specification]
#[verifier::external_body]
pub struct ExUri(Uri);

#[verifier::external_type_specification]
#[verifier::external_body]
pub struct ExAuthority(Authority);

#[verifier::external_type_specification]
#[verifier::external_body]
pub struct ExPathAndQuery(PathAndQuery);

#[verifier::external_type_specification]
#[verifier::external_body]
pub struct ExInvalidUri(InvalidUri);

#[verifier::external_type_specification]
#[verifier::external_body]
pub struct ExInvalidUriParts(InvalidUriParts);

/// The entries of a header map: under each name, in lower case, the bytes of its values in the
/// order in which they were added.
pub type Entries = Map<Seq<char>, Seq<Seq<u8>>>;

/// What a header map holds.
pub uninterp spec fn header_entries(headers: HeaderMap) -> Entries;

/// The first value under a name, which is the one that a look-up gives.
pub open spec fn first_value(entries: Entries, name: Seq<char>) -> Option<Seq<u8>> {
    if entries.contains_key(name) {
        Some(entries[name][0])
    } else {
        None
    }
}

/// The header names that this crate reads or writes.
pub open spec fn known_header(name: Seq<char>) -> bool {
    ||| name == "accept-encoding"@
    ||| name == "content-encoding"@
    ||| name == "content-type"@
    ||| name == "etag"@
    ||| name == "host"@
    ||| name == "if-modified-since"@
    ||| name == "if-none-match"@
}

/// How many distinct names a header map can hold and still take one more, whatever its table
/// looks like inside: a table of the largest size, 32768 slots, in which names lie far from where
/// they belong, wants to double, and cannot, from a fifth of its slots on. Other tables take more.
pub const MAX_NAMES: usize = 6553;

/// Whether a header map holds no more than `names` distinct names.
pub open spec fn holds_at_most(headers: HeaderMap, names: int) -> bool {
    &&& header_entries(headers).dom().finite()
    &&& header_entries(headers).dom().len() <= names
}

/// The bytes that a header value can hold: no control characters but the tab.
pub open spec fn value_allowed(bytes: Seq<u8>) -> bool {
    forall|i: int|
        0 <= i < bytes.len() ==> (32 <= #[trigger] bytes[i] && bytes[i] != 127) || bytes[i] == 9
}

/// The bytes of a header value that can be read as text: visible ASCII, the space and the tab.
pub open spec fn value_visible(bytes: Seq<u8>) -> bool {
    forall|i: int| 0 <= i < bytes.len() ==> (32 <= #[trigger] bytes[i] < 127) || bytes[i] == 9
}

/// The text that ASCII bytes spell.
pub open spec fn ascii_text(bytes: Seq<u8>) -> Seq<char> {
    Seq::new(bytes.len(), |i: int| bytes[i] as char)
}

/// What a header map that may not have been made holds.
pub open spec fn header_outcome(res: Result<HeaderMap, CacheError>) -> Result<
    Entries,
    CacheErrorView,
> {
    match res {
        Ok(headers) => Ok(header_entries(headers)),
        Err(error) => Err(error@),
    }
}

/// The view of an optional header value.
pub open spec fn value_view(value: Option<Vec<u8>>) -> Option<Seq<u8>> {
    match value {
        Some(bytes) => Some(bytes@),
        None => None,
    }
}

/// `HeaderMap::new`: a map without entries.
#[verifier::external_body]
pub(crate) fn header_new() -> (res: HeaderMap)
    ensures
        header_entries(res) == Entries::empty(),
{
    HeaderMap::new()
}

/// `HeaderMap::get`: the first value under `name`. Every value that a map holds is made of the
/// bytes that a header value can hold.
#[verifier::external_body]
pub(crate) fn header_get(headers: &HeaderMap, name: &str) -> (res: Option<Vec<u8>>)
    requires
        known_header(name@),
    ensures
        value_view(res) == first_value(header_entries(*headers), name@),
        res matches Some(bytes) ==> value_allowed(bytes@),
{
    headers.get(name).map(|value| value.as_bytes().to_vec())
}

/// `HeaderMap::try_insert`: afterwards `value` is the one value under `name`, and nothing else has
/// changed; or nothing has, where the table would have to outgrow its largest size. Whether it
/// would rests on how the table has filled, and is stated only up to the number of names that any
/// table has room for.
#[verifier::external_body]
pub(crate) fn header_try_insert(headers: &mut HeaderMap, name: &'static str, value: &[u8]) -> (res:
    Result<(), MaxSizeReached>)
    requires
        known_header(name@),
        value_allowed(value@),
    ensures
        res is Ok ==> header_entries(*final(headers)) == header_entries(*old(headers)).insert(
            name@,
            seq![value@],
        ),
        res is Err ==> header_entries(*final(headers)) == header_entries(*old(headers)),
        holds_at_most(*old(headers), MAX_NAMES as int) ==> res is Ok,
{
    headers.try_insert(name, HeaderValue::from_bytes(value).unwrap()).map(|_| ())
}

/// Makes `value` the one value under `name`, in a header map that has room for it.
pub(crate) fn header_insert(headers: &mut HeaderMap, name: &'static str, value: &[u8])
    requires
        known_header(name@),
        value_allowed(value@),
        holds_at_most(*old(headers), MAX_NAMES as int),
    ensures
        header_entries(*final(headers)) == header_entries(*old(headers)).insert(
            name@,
            seq![value@],
        ),
{
    match header_try_insert(headers, name, value) {
        Ok(()) => {},
        Err(_) => vstd::pervasive::unreached(),
    }
}

/// `HeaderMap::remove`: afterwards there is no value under `name`, and nothing else has changed.
#[verifier::external_body]
pub(crate) fn header_remove(headers: &mut HeaderMap, name: &str)
    requires
        known_header(name@),
    ensures
        header_entries(*final(headers)) == header_entries(*old(headers)).remove(name@),
{
    headers.remove(name);
}

/// `HeaderMap::try_entry` with `OccupiedEntry::remove_entry_mult`: afterwards there is no value
/// under `name`, and nothing else has changed. Asking for the entry makes room for one, so it fails
/// where an insertion would, and then nothing has changed.
#[verifier::external_body]
pub(crate) fn header_try_remove_entry(headers: &mut HeaderMap, name: &str) -> (res: Result<
    (),
    InvalidHeaderName,
>)
    requires
        known_header(name@),
    ensures
        res is Ok ==> header_entries(*final(headers)) == header_entries(*old(headers)).remove(name@),
        res is Err ==> header_entries(*final(headers)) == header_entries(*old(headers)),
        holds_at_most(*old(headers), MAX_NAMES as int) ==> res is Ok,
{
    match headers.try_entry(name) {
        Ok(Entry::Occupied(entry)) => {
            entry.remove_entry_mult();
            Ok(())
        },
        Ok(Entry::Vacant(_)) => Ok(()),
        Err(error) => Err(error),
    }
}

/// `HeaderValue::try_from` on a string: its UTF-8 bytes, where a header value can hold them.
#[verifier::external_body]
pub(crate) fn header_value(text: &str) -> (res: Result<Vec<u8>, InvalidHeaderValue>)
    ensures
        res is Ok <==> value_allowed(encode_utf8(text@)),
        res matches Ok(bytes) ==> bytes@ == encode_utf8(text@),
{
    HeaderValue::try_from(text).map(|value| value.as_bytes().to_vec())
}

/// `HeaderValue::to_str`: the text of a header value, where all of it is visible.
#[verifier::external_body]
pub(crate) fn header_text(value: &[u8]) -> (res: Result<String, ToStrError>)
    requires
        value_allowed(value@),
    ensures
        res is Ok <==> value_visible(value@),
        res matches Ok(text) ==> text@ == ascii_text(value@),
{
    HeaderValue::from_bytes(value).unwrap().to_str().map(|text| text.to_owned())
}

/// The texts of the parts of a URI.
pub struct UriParts {
    pub scheme: Option<Seq<char>>,
    pub authority: Option<Seq<char>>,
    pub path_and_query: Option<Seq<char>>,
}

/// The parts that a URI holds.
pub uninterp spec fn uri_parts(uri: Uri) -> UriParts;

/// The text of an authority.
pub uninterp spec fn authority_text(authority: Authority) -> Seq<char>;

/// The text of a path with its query.
pub uninterp spec fn target_text(target: PathAndQuery) -> Seq<char>;

/// Whether a text can be parsed as an authority.
pub uninterp spec fn authority_parses(text: Seq<char>) -> bool;

/// Whether a text can be parsed as a path with its query.
pub uninterp spec fn target_parses(text: Seq<char>) -> bool;

/// Whether a text is a host by name: letters, digits, dots and hyphens, and at least one of them.
pub open spec fn plain_host(text: Seq<char>) -> bool {
    &&& text.len() > 0
    &&& forall|i: int|
        0 <= i < text.len() ==> {
            ||| 'a' <= #[trigger] text[i] <= 'z'
            ||| 'A' <= text[i] <= 'Z'
            ||| '0' <= text[i] <= '9'
            ||| text[i] == '.'
            ||| text[i] == '-'
        }
}

/// Whether a text is an authority: a host by name, or anything else that can be parsed as one.
pub open spec fn is_authority(text: Seq<char>) -> bool {
    plain_host(text) || authority_parses(text)
}

/// Whether a text is a path with its query: a lone slash, or anything else that can be parsed as
/// one.
pub open spec fn is_target(text: Seq<char>) -> bool {
    text == "/"@ || target_parses(text)
}

/// The path in the text of a path with its query: what stands before the question mark, and a
/// lone slash where that is nothing.
pub open spec fn path_of(target: Seq<char>) -> Seq<char> {
    let path = before(target, '?');
    if path.len() == 0 {
        seq!['/']
    } else {
        path
    }
}

/// The query in the text of a path with its query, with its question mark.
pub open spec fn query_of(target: Seq<char>) -> Seq<char> {
    target.skip(position(target, '?'))
}

/// What is kept of a text that is parsed as a path with its query: no fragment, and a lone slash
/// where nothing else is left.
pub open spec fn without_fragment(text: Seq<char>) -> Seq<char> {
    let kept = before(text, '#');
    if kept.len() == 0 {
        seq!['/']
    } else {
        kept
    }
}

/// The path of a URI.
pub open spec fn uri_path_of(parts: UriParts) -> Seq<char> {
    match parts.path_and_query {
        Some(target) => path_of(target),
        None => Seq::empty(),
    }
}

/// The text of a URI.
pub open spec fn uri_text_of(parts: UriParts) -> Seq<char> {
    let scheme = match parts.scheme {
        Some(scheme) => scheme + "://"@,
        None => Seq::empty(),
    };
    let authority = match parts.authority {
        Some(authority) => authority,
        None => Seq::empty(),
    };
    let query = match parts.path_and_query {
        Some(target) => query_of(target),
        None => Seq::empty(),
    };
    scheme + authority + uri_path_of(parts) + query
}

/// The host in the text of an authority: what follows the user information, up to the closing
/// bracket of an IP literal, or else up to the colon of the port.
pub open spec fn host_of(authority: Seq<char>) -> Seq<char> {
    let host_and_port = after_last(authority, '@');
    if host_and_port.len() > 0 && host_and_port[0] == '[' {
        host_and_port.take(position(host_and_port, ']') + 1)
    } else {
        before(host_and_port, ':')
    }
}

/// `Uri::into_parts`, of which the path with its query is kept.
#[verifier::external_body]
pub(crate) fn uri_target(uri: Uri) -> (res: Option<PathAndQuery>)
    ensures
        match res {
            Some(target) => uri_parts(uri).path_and_query == Some(target_text(target)),
            None => uri_parts(uri).path_and_query is None,
        },
{
    uri.into_parts().path_and_query
}

/// `PathAndQuery::as_str`.
#[verifier::external_body]
pub(crate) fn target_str(target: &PathAndQuery) -> (res: String)
    ensures
        res@ == target_text(*target),
{
    target.as_str().to_owned()
}

/// `PathAndQuery::path`.
#[verifier::external_body]
pub(crate) fn target_path(target: &PathAndQuery) -> (res: String)
    ensures
        res@ == path_of(target_text(*target)),
{
    target.path().to_owned()
}

/// `PathAndQuery::try_from`: a lone slash is among the texts that it takes; which others are is
/// named, not stated; of one that it takes it keeps all but the fragment.
#[verifier::external_body]
pub(crate) fn parse_target(text: &str) -> (res: Result<PathAndQuery, InvalidUri>)
    ensures
        res is Ok <==> text@ == "/"@ || target_parses(text@),
        res matches Ok(target) ==> target_text(target) == without_fragment(text@),
{
    PathAndQuery::try_from(text)
}

/// `Authority::try_from`: hosts by name are among the texts that it takes; which others are is
/// named, not stated; one that it takes it keeps as it is.
#[verifier::external_body]
pub(crate) fn parse_authority(text: &str) -> (res: Result<Authority, InvalidUri>)
    ensures
        res is Ok <==> plain_host(text@) || authority_parses(text@),
        res matches Ok(authority) ==> authority_text(authority) == text@,
{
    Authority::try_from(text)
}

/// `Authority::from_static`, which panics on a text that is no authority; a host by name is one.
#[verifier::external_body]
pub(crate) fn static_authority(text: &'static str) -> (res: Authority)
    requires
        plain_host(text@),
    ensures
        authority_text(res) == text@,
{
    Authority::from_static(text)
}

/// `Uri::from_parts` with a scheme and an authority: it fails where there is no path, and keeps
/// the parts as they are.
#[verifier::external_body]
pub(crate) fn uri_from_parts(
    scheme: &str,
    authority: Authority,
    target: Option<PathAndQuery>,
) -> (res: Result<Uri, InvalidUriParts>)
    requires
        scheme@ == "https"@,
    ensures
        res is Ok <==> target is Some,
        res matches Ok(uri) ==> uri_parts(uri) == (UriParts {
            scheme: Some(scheme@),
            authority: Some(authority_text(authority)),
            path_and_query: Some(target_text(target->0)),
        }),
{
    let mut parts = Parts::default();
    parts.scheme = Some(Scheme::try_from(scheme).unwrap());
    parts.authority = Some(authority);
    parts.path_and_query = target;
    Uri::from_parts(parts)
}

/// `Uri::host`.
#[verifier::external_body]
pub(crate) fn uri_host(uri: &Uri) -> (res: Option<String>)
    ensures
        match (res, uri_parts(*uri).authority) {
            (Some(host), Some(authority)) => host@ == host_of(authority),
            (None, None) => true,
            _ => false,
        },
{
    uri.host().map(|host| host.to_owned())
}

/// `Uri::path`.
#[verifier::external_body]
pub(crate) fn uri_path(uri: &Uri) -> (res: String)
    ensures
        res@ == uri_path_of(uri_parts(*uri)),
{
    uri.path().to_owned()
}

/// The text that `Uri` displays itself as.
#[verifier::external_body]
pub(crate) fn uri_text(uri: &Uri) -> (res: String)
    ensures
        res@ == uri_text_of(uri_parts(*uri)),
{
    uri.to_string()
}

}
