//! Where a request leads: the upstream URI, the headers that go there, and the cache entry.

use axum::http::uri::PathAndQuery;
use axum::http::HeaderMap;
use regex::Regex;
use vstd::prelude::*;
use vstd::string::*;
use vstd::utf8::*;

use crate::accept::{accepts_br, lists_br};
use crate::fault::{error_of, error_on, outcome, CacheError, CacheErrorView, Fault};
use crate::http::{
    ascii_text, first_value, header_entries, header_get, header_remove, header_text,
    header_try_insert, header_try_remove_entry, header_value, holds_at_most, host_of, is_authority,
    is_target, parse_authority, parse_target, path_of, plain_host, static_authority, target_path,
    target_str, target_text, uri_from_parts, uri_host, uri_path, uri_text, uri_text_of,
    value_allowed, value_visible, without_fragment, Entries, UriParts, MAX_NAMES,
};
use crate::rewrite::{is_match, regex_matches};
use crate::text::{after, before, same_text, split_once, starts_with};

verus! {

/// A request on its way upstream.
pub struct Route {
    /// The URI of the resource.
    pub uri: String,
    /// The host that the resource is on.
    pub host: String,
    /// The name of the index entry, below the cache directory.
    pub index: String,
    /// The headers of the request.
    pub headers: HeaderMap,
    /// Whether the client accepts brotli.
    pub br: bool,
}

/// The view of a `Route`.
#[verifier::ext_equal]
pub struct RouteView {
    pub uri: Seq<char>,
    pub host: Seq<char>,
    pub index: Seq<char>,
    pub headers: Entries,
    pub br: bool,
}

impl View for Route {
    type V = RouteView;

    open spec fn view(&self) -> RouteView {
        RouteView {
            uri: self.uri@,
            host: self.host@,
            index: self.index@,
            headers: header_entries(self.headers),
            br: self.br,
        }
    }
}

/// Whether a request asks for another host than the usual one, by a path that begins with `/@`.
pub open spec fn is_proxied(target: Seq<char>) -> bool {
    "/@"@.is_prefix_of(path_of(target))
}

/// The host that a proxied request asks for: what stands between `/@` and the next slash.
pub open spec fn proxied_host(target: Seq<char>) -> Seq<char> {
    before(after(target, '@'), '/')
}

/// The path and query, on that host, that a proxied request asks for.
pub open spec fn proxied_target(target: Seq<char>) -> Seq<char> {
    "/"@ + after(after(target, '@'), '/')
}

/// The name of the index entry of a path on a host.
pub open spec fn index_name(host: Seq<char>, path: Seq<char>) -> Seq<char> {
    host + "/"@ + if path == "/"@ {
        "index.html"@
    } else {
        path
    }
}

/// Whether header entries say that the client accepts brotli.
pub open spec fn br_accepted(entries: Entries) -> bool {
    match first_value(entries, "accept-encoding"@) {
        Some(value) => value_visible(value) && lists_br(ascii_text(value)),
        None => false,
    }
}

/// The header entries with which a request goes upstream to an authority.
pub open spec fn forwarded(entries: Entries, authority: Seq<char>) -> Entries {
    entries.insert("host"@, seq![encode_utf8(authority)]).remove("if-modified-since"@).remove(
        "accept-encoding"@,
    )
}

/// The URI parts of a path and query on an authority.
pub open spec fn https_parts(authority: Seq<char>, target: Seq<char>) -> UriParts {
    UriParts {
        scheme: Some("https"@),
        authority: Some(authority),
        path_and_query: Some(target),
    }
}

/// The route of a request to a path and query on an authority.
pub open spec fn route_to(authority: Seq<char>, target: Seq<char>, entries: Entries) -> RouteView {
    RouteView {
        uri: uri_text_of(https_parts(authority, target)),
        host: host_of(authority),
        index: index_name(host_of(authority), path_of(target)),
        headers: forwarded(entries, authority),
        br: br_accepted(entries),
    }
}

/// The route of a request, or why it has none: a proxied one goes to the host that it asks for,
/// if that is one of Jackbox's, any other to `jackbox.tv`.
pub open spec fn routed(
    target: Option<Seq<char>>,
    entries: Entries,
    jackbox_urls: Regex,
) -> Result<RouteView, CacheErrorView> {
    match target {
        None => Err(error_of(Fault::UriParts)),
        Some(target) => if !is_proxied(target) {
            Ok(route_to("jackbox.tv"@, target, entries))
        } else {
            let host = proxied_host(target);
            let upstream = proxied_target(target);
            if !regex_matches(jackbox_urls, host) {
                Err(error_of(Fault::NotJackbox))
            } else if !is_authority(host) {
                Err(error_on(Fault::HostAuthority, host))
            } else if !value_allowed(encode_utf8(host)) {
                Err(error_on(Fault::HostHeader, host))
            } else if !is_target(upstream) {
                Err(error_on(Fault::TargetPath, upstream))
            } else {
                Ok(route_to(host, without_fragment(upstream), entries))
            }
        },
    }
}

/// The faults for which a request is refused before its headers are touched.
pub open spec fn precedes_headers(fault: Fault) -> bool {
    fault == Fault::NotJackbox || fault == Fault::HostAuthority || fault == Fault::HostHeader
}

/// The view of an optional path and query.
pub open spec fn target_view(target: Option<PathAndQuery>) -> Option<Seq<char>> {
    match target {
        Some(target) => Some(target_text(target)),
        None => None,
    }
}

/// The names that routing touches are four different ones.
pub proof fn request_names_differ()
    ensures
        "host"@ != "if-modified-since"@,
        "host"@ != "accept-encoding"@,
        "host"@ != "if-none-match"@,
        "if-modified-since"@ != "accept-encoding"@,
        "if-modified-since"@ != "if-none-match"@,
        "accept-encoding"@ != "if-none-match"@,
{
    reveal_strlit("host");
    reveal_strlit("if-modified-since");
    reveal_strlit("accept-encoding");
    reveal_strlit("if-none-match");
    assert("host"@.len() == 4);
    assert("if-modified-since"@.len() == 17);
    assert("accept-encoding"@.len() == 15);
    assert("if-none-match"@.len() == 13);
}

/// `jackbox.tv` is an authority, and a value that a header can hold.
pub proof fn usual_host_is_one()
    ensures
        plain_host("jackbox.tv"@),
        value_allowed(encode_utf8("jackbox.tv"@)),
{
    reveal_strlit("jackbox.tv");
    assert(is_ascii_chars("jackbox.tv"@));
    is_ascii_chars_encode_utf8("jackbox.tv"@);
    assert forall|i: int| 0 <= i < 10 implies 32 <= (#[trigger] "jackbox.tv"@[i]) as u8 && (
    "jackbox.tv"@[i] as u8) < 127 by {
        let c = "jackbox.tv"@[i];
        assert(c == 'j' || c == 'a' || c == 'c' || c == 'k' || c == 'b' || c == 'o' || c == 'x'
            || c == '.' || c == 't' || c == 'v');
    }
}

/// The host, and the path and query on it, that a proxied request asks for.
pub fn split_proxied(target: &str) -> (res: (String, String))
    ensures
        res.0@ == proxied_host(target@),
        res.1@ == proxied_target(target@),
{
    let asked = split_once(target, '@').1;
    let (host, rest) = split_once(asked.as_str(), '/');
    (host, "/".to_owned().concat(rest.as_str()))
}

/// The name of the index entry of a path on a host.
pub fn name_index(host: &str, path: &str) -> (res: String)
    ensures
        res@ == index_name(host@, path@),
{
    let name = host.to_owned().concat("/");
    if same_text(path, "/") {
        name.concat("index.html")
    } else {
        name.concat(path)
    }
}

/// Whether a request says that the client accepts brotli.
pub fn client_accepts_br(headers: &HeaderMap) -> (res: bool)
    ensures
        res == br_accepted(header_entries(*headers)),
{
    match header_get(headers, "accept-encoding") {
        None => false,
        Some(value) => match header_text(value.as_slice()) {
            Err(_) => false,
            Ok(text) => accepts_br(text.as_str()),
        },
    }
}

impl Route {
    /// The route of a request with the given path and query and headers, or why it has none;
    /// nothing where the headers have no room for another name.
    pub fn new(
        target: Option<PathAndQuery>,
        headers: HeaderMap,
        jackbox_urls: &Regex,
    ) -> (res: Option<Result<Route, CacheError>>)
        ensures
            res matches Some(route) ==> outcome(route) == routed(
                target_view(target),
                header_entries(headers),
                *jackbox_urls,
            ),
            holds_at_most(headers, MAX_NAMES - 1) ==> res is Some,
            routed(
                target_view(target),
                header_entries(headers),
                *jackbox_urls,
            ) matches Err(error) && precedes_headers(error.fault) ==> res is Some,
    {
        let ghost entries = header_entries(headers);
        let mut headers = headers;
        let mut target = target;
        let mut proxied = false;
        let mut text = String::new();
        if let Some(asked) = &target {
            proxied = starts_with(target_path(asked).as_str(), "/@");
            text = target_str(asked);
        }
        let ghost mut to: Seq<char> = "jackbox.tv"@;
        let authority;
        if proxied {
            let (host, upstream) = split_proxied(text.as_str());
            if !is_match(jackbox_urls, host.as_str()) {
                return Some(Err(CacheError::of(Fault::NotJackbox)));
            }
            authority = match parse_authority(host.as_str()) {
                Err(_) => {
                    return Some(Err(CacheError::on(Fault::HostAuthority, host.as_str())));
                },
                Ok(authority) => authority,
            };
            match header_value(host.as_str()) {
                Err(_) => {
                    return Some(Err(CacheError::on(Fault::HostHeader, host.as_str())));
                },
                Ok(value) => {
                    if header_try_insert(&mut headers, "host", value.as_slice()).is_err() {
                        return None;
                    }
                },
            }
            target = match parse_target(upstream.as_str()) {
                Err(_) => {
                    return Some(Err(CacheError::on(Fault::TargetPath, upstream.as_str())));
                },
                Ok(upstream) => Some(upstream),
            };
            proof {
                to = host@;
            }
        } else {
            proof {
                usual_host_is_one();
            }
            authority = static_authority("jackbox.tv");
            if header_try_insert(&mut headers, "host", "jackbox.tv".as_bytes()).is_err() {
                return None;
            }
        }
        assert(header_entries(headers) == entries.insert("host"@, seq![encode_utf8(to)]));
        let uri = match uri_from_parts("https", authority, target) {
            Err(_) => {
                return Some(Err(CacheError::of(Fault::UriParts)));
            },
            Ok(uri) => uri,
        };
        header_remove(&mut headers, "if-modified-since");
        proof {
            request_names_differ();
        }
        let br = client_accepts_br(&headers);
        if header_try_remove_entry(&mut headers, "accept-encoding").is_err() {
            return None;
        }
        let host = match uri_host(&uri) {
            Some(host) => host,
            None => vstd::pervasive::unreached(),
        };
        let index = name_index(host.as_str(), uri_path(&uri).as_str());
        Some(Ok(Route { uri: uri_text(&uri), host, index, headers, br }))
    }
}

}
