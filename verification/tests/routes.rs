use std::sync::Arc;

use axum::http::header::{HeaderMap, HeaderName, HeaderValue};
use axum::http::uri::{PathAndQuery, Uri};
use jb_http_cache::cache::HttpCache;
use jb_http_cache::fault::{CacheError, Fault};
use jb_http_cache::response::JBHttpResponse;
use jb_http_cache::route::{client_accepts_br, Route};
use jb_http_cache::session::{CacheMode, Progress, Regexes};
use regex::Regex;

fn jackbox() -> Regex {
    Regex::new(r"^([a-z0-9-]+\.)*jackbox(games)?\.(tv|com|fun)").unwrap()
}

fn target(text: &str) -> Option<PathAndQuery> {
    Some(text.parse().unwrap())
}

fn route(text: &str) -> Result<Route, CacheError> {
    Route::new(target(text), HeaderMap::new(), &jackbox()).unwrap()
}

fn refusal(text: &str, urls: &str) -> CacheError {
    match Route::new(target(text), HeaderMap::new(), &Regex::new(urls).unwrap()).unwrap() {
        Ok(_) => panic!("not refused"),
        Err(error) => error,
    }
}

fn headers(entries: &[(&'static str, &[u8])]) -> HeaderMap {
    let mut headers = HeaderMap::new();
    for (name, value) in entries {
        headers.append(*name, HeaderValue::from_bytes(value).unwrap());
    }
    headers
}

fn cache() -> HttpCache {
    HttpCache {
        regexes: Arc::new(Regexes {
            content_to_compress: Regex::new("^text/").unwrap(),
            jackbox_urls: jackbox(),
        }),
    }
}

#[test]
fn usual_requests_go_to_the_usual_host() {
    let route = route("/main.js?v=1").unwrap();
    assert_eq!(route.uri, "https://jackbox.tv/main.js?v=1");
    assert_eq!(route.host, "jackbox.tv");
    assert_eq!(route.index, "jackbox.tv//main.js");
    assert_eq!(route.headers["host"], "jackbox.tv");
    assert!(!route.br);
}

#[test]
fn the_root_is_the_index() {
    let route = route("/?room=ABCD").unwrap();
    assert_eq!(route.uri, "https://jackbox.tv/?room=ABCD");
    assert_eq!(route.index, "jackbox.tv/index.html");
}

#[test]
fn a_query_alone_is_asked_of_the_root() {
    let route = route("?room=ABCD").unwrap();
    assert_eq!(route.uri, "https://jackbox.tv/?room=ABCD");
    assert_eq!(route.index, "jackbox.tv/index.html");
}

#[test]
fn proxied_requests_go_to_their_host() {
    let route = route("/@ecast.jackboxgames.com:443/api/v2/rooms?x=/@y").unwrap();
    assert_eq!(route.uri, "https://ecast.jackboxgames.com:443/api/v2/rooms?x=/@y");
    assert_eq!(route.host, "ecast.jackboxgames.com");
    assert_eq!(route.index, "ecast.jackboxgames.com//api/v2/rooms");
    assert_eq!(route.headers["host"], "ecast.jackboxgames.com:443");
}

#[test]
fn proxied_roots_are_indices_too() {
    let route = route("/@jackbox.fun").unwrap();
    assert_eq!(route.uri, "https://jackbox.fun/");
    assert_eq!(route.index, "jackbox.fun/index.html");
}

#[test]
fn an_at_sign_further_on_is_no_proxied_request() {
    let route = route("/users/@me").unwrap();
    assert_eq!(route.uri, "https://jackbox.tv/users/@me");
}

#[test]
fn links_lead_back_to_their_host() {
    for rest in ["", "/", "/a/b?c=d"] {
        let link = jb_http_cache::rewrite::proxy_link("http://proxy", "jackbox.fun") + rest;
        let route = route(link.strip_prefix("http://proxy").unwrap()).unwrap();
        assert_eq!(route.host, "jackbox.fun");
        let path = if rest.is_empty() { "/" } else { rest };
        assert_eq!(route.uri, format!("https://jackbox.fun{path}"));
    }
}

#[test]
fn brackets_and_user_information_are_no_part_of_the_host() {
    let all = Regex::new("").unwrap();
    let hosts = [
        ("/@[::1]:80/a", "[::1]", "https://[::1]:80/a"),
        ("/@me@jackbox.fun:80/a", "jackbox.fun", "https://me@jackbox.fun:80/a"),
    ];
    for (text, host, uri) in hosts {
        let route = Route::new(target(text), HeaderMap::new(), &all).unwrap().unwrap();
        assert_eq!((route.host.as_str(), route.uri.as_str()), (host, uri));
    }
}

#[test]
fn other_hosts_are_refused() {
    let error = refusal("/@example.org/a", r"jackbox\.tv$");
    assert_eq!(error.fault, Fault::NotJackbox);
    assert_eq!(error.status, 400);
    assert_eq!(error.message, "Proxy can only be used with Jackbox services");
}

#[test]
fn hosts_that_are_no_authority_are_refused() {
    let error = refusal("/@jackbox.tv?x/a", "jackbox");
    assert_eq!(error.fault, Fault::HostAuthority);
    assert_eq!(error.status, 500);
    assert_eq!(error.message, "Failed to convert host `jackbox.tv?x` into Authority");
    assert_eq!(refusal("/@/a", "").fault, Fault::HostAuthority);
}

#[test]
fn requests_without_a_path_are_refused() {
    let error = match Route::new(None, HeaderMap::new(), &jackbox()).unwrap() {
        Ok(_) => panic!("not refused"),
        Err(error) => error,
    };
    assert_eq!(error.fault, Fault::UriParts);
    assert_eq!(error.status, 500);
    assert_eq!(error.message, "URI parts did not make a valid URI");
}

#[test]
fn other_headers_are_passed_on() {
    let sent = headers(&[
        ("host", b"localhost"),
        ("accept-encoding", b"gzip"),
        ("accept-encoding", b"br"),
        ("if-modified-since", b"yesterday"),
        ("if-none-match", b"\"tag\""),
        ("accept", b"text/html"),
        ("accept", b"*/*"),
    ]);
    let route = Route::new(target("/"), sent, &jackbox()).unwrap().unwrap();
    let expected = headers(&[
        ("host", b"jackbox.tv"),
        ("if-none-match", b"\"tag\""),
        ("accept", b"text/html"),
        ("accept", b"*/*"),
    ]);
    assert_eq!(route.headers, expected);
    assert!(!route.br);
}

#[test]
fn clients_accept_brotli() {
    assert!(client_accepts_br(&headers(&[("accept-encoding", b"gzip, br")])));
    assert!(client_accepts_br(&headers(&[("accept-encoding", b"br"), ("accept-encoding", b"gzip")])));
    assert!(!client_accepts_br(&headers(&[("accept-encoding", b"gzip"), ("accept-encoding", b"br")])));
    assert!(!client_accepts_br(&headers(&[("accept-encoding", b"\xff, br")])));
    assert!(!client_accepts_br(&HeaderMap::new()));
}

#[test]
fn responses_are_described() {
    let found = headers(&[("etag", b"\"abc\""), ("content-type", b"text/html"), ("content-type", b"x")]);
    let response = JBHttpResponse::from_request(&found, &Regex::new("^text/").unwrap()).unwrap();
    assert_eq!(response.etag, "\"abc\"");
    assert_eq!(response.content_type.as_deref(), Some("text/html"));
    assert!(response.compressed);
    let response = JBHttpResponse::from_request(&found, &Regex::new("^image/").unwrap()).unwrap();
    assert!(!response.compressed);
}

#[test]
fn responses_without_a_content_type_are_not_compressed() {
    let found = headers(&[("etag", b"abc")]);
    let response = JBHttpResponse::from_request(&found, &Regex::new("").unwrap()).unwrap();
    assert_eq!(response.content_type, None);
    assert!(!response.compressed);
}

#[test]
fn responses_that_cannot_be_kept_are_errors() {
    let all = Regex::new("").unwrap();
    let cases: [(&[(&'static str, &[u8])], Fault, u16, &str); 4] = [
        (&[], Fault::EtagMissing, 500, "Etag was not present in response"),
        (&[("etag", b"\xe9")], Fault::EtagText, 422, "Etag was not valid UTF-8"),
        (
            &[("etag", b"e"), ("content-type", b"\xe9")],
            Fault::ContentTypeText,
            422,
            "Content-Type was not valid UTF-8",
        ),
        (
            &[("etag", b"\xe9"), ("content-type", b"\xe9")],
            Fault::EtagText,
            422,
            "Etag was not valid UTF-8",
        ),
    ];
    for (entries, fault, status, message) in cases {
        let error = JBHttpResponse::from_request(&headers(entries), &all).unwrap_err();
        assert_eq!((error.fault, error.status, error.message.as_str()), (fault, status, message));
    }
}

fn kept(etag: &str, content_type: Option<&str>, compressed: bool) -> JBHttpResponse {
    JBHttpResponse {
        etag: etag.to_string(),
        content_type: content_type.map(|text| text.to_string()),
        compressed,
    }
}

#[test]
fn kept_responses_are_told() {
    let told = kept("e", Some("text/css"), true).headers().unwrap();
    assert_eq!(told, headers(&[("etag", b"e"), ("content-type", b"text/css")]));
    assert_eq!(kept("e", None, false).headers().unwrap(), headers(&[("etag", b"e")]));
    assert_eq!(kept("é", None, false).headers().unwrap(), headers(&[("etag", "é".as_bytes())]));
    let all = Regex::new("").unwrap();
    let found = headers(&[("etag", b"W/\"1\t2\""), ("content-type", b"a/b")]);
    let response = JBHttpResponse::from_request(&found, &all).unwrap();
    assert_eq!(response.headers().unwrap(), found);
}

#[test]
fn stored_texts_that_no_header_holds_are_errors() {
    let error = kept("a\nb", None, false).headers().unwrap_err();
    assert_eq!(error.fault, Fault::EtagHeader);
    assert_eq!(error.status, 500);
    assert_eq!(error.message, "Failed to convert Etag from String to HeaderValue");
    let error = kept("a", Some("\u{7f}"), false).headers().unwrap_err();
    assert_eq!(error.fault, Fault::ContentTypeHeader);
    assert_eq!(error.status, 500);
    assert_eq!(error.message, "Failed to convert Content-Type from String to HeaderValue");
    assert_eq!(kept("a\nb", None, true).has_links().unwrap_err().fault, Fault::EtagHeader);
}

#[test]
fn replies_name_their_coding() {
    let coded = headers(&[("etag", b"e"), ("content-encoding", b"br")]);
    let plain = headers(&[("etag", b"e")]);
    assert_eq!(kept("e", None, true).reply_headers(true).unwrap(), coded);
    assert_eq!(kept("e", None, true).reply_headers(false).unwrap(), plain);
    assert_eq!(kept("e", None, false).reply_headers(true).unwrap(), plain);
    assert_eq!(kept("e", None, false).reply_headers(false).unwrap(), plain);
}

#[test]
fn some_content_types_have_links() {
    for content_type in ["text/html", "text/javascript", "application.json", "text/css"] {
        assert!(kept("e", Some(content_type), false).has_links().unwrap());
    }
    for content_type in ["application/json", "text/html; charset=utf-8", "image/png", ""] {
        assert!(!kept("e", Some(content_type), false).has_links().unwrap());
    }
    assert!(!kept("e", None, false).has_links().unwrap());
}

#[test]
fn requests_begin_by_mode() {
    let begin = |mode| {
        let uri: Uri = "http://localhost/a?b".parse().unwrap();
        let session = cache().get_cached(uri, HeaderMap::new(), mode, "http://localhost");
        session.unwrap().unwrap()
    };
    let session = begin(CacheMode::Online);
    assert!(matches!(session.progress, Progress::Fetch(None)));
    assert_eq!(session.route.uri, "https://jackbox.tv/a?b");
    assert_eq!(session.accessible_host, "http://localhost");
    assert_eq!(session.cache_mode, CacheMode::Online);
    assert!(matches!(begin(CacheMode::Offline).progress, Progress::ReadIndex(None)));
    assert!(matches!(begin(CacheMode::Oneshot).progress, Progress::ProbeIndex));
}

#[test]
fn uris_without_a_path_are_refused() {
    let uri: Uri = "localhost:80".parse().unwrap();
    let session = cache().get_cached(uri, HeaderMap::new(), CacheMode::Online, "");
    let error = match session.unwrap() {
        Ok(_) => panic!("not refused"),
        Err(error) => error,
    };
    assert_eq!(error.fault, Fault::UriParts);
}

#[test]
fn the_asterisk_is_a_path() {
    let uri: Uri = "*".parse().unwrap();
    let session = cache().clone().get_cached(uri, HeaderMap::new(), CacheMode::Online, "");
    assert_eq!(session.unwrap().unwrap().route.index, "jackbox.tv/*");
}

/// A header map with as many names as there is room for.
fn full() -> HeaderMap {
    let mut headers = HeaderMap::new();
    for i in 0..30_000 {
        let name = HeaderName::from_bytes(format!("x-{i}").as_bytes()).unwrap();
        let _ = headers.try_append(name, HeaderValue::from_static("1"));
    }
    headers
}

fn many(names: usize) -> HeaderMap {
    let mut headers = HeaderMap::new();
    for i in 0..names {
        let name = HeaderName::from_bytes(format!("x-{i}").as_bytes()).unwrap();
        headers.append(name.clone(), HeaderValue::from_static("1"));
        headers.append(name, HeaderValue::from_static("2"));
    }
    headers
}

#[test]
fn headers_of_many_names_are_passed_on() {
    for names in [6552, 6553, 10_000] {
        let uri: Uri = "/".parse().unwrap();
        let session = cache().get_cached(uri, many(names), CacheMode::Online, "");
        assert_eq!(session.unwrap().unwrap().route.headers.keys_len(), names + 1);
    }
}

#[test]
fn headers_without_room_are_too_many() {
    for text in ["/", "/@jackbox.tv/"] {
        let uri: Uri = text.parse().unwrap();
        assert!(cache().get_cached(uri, full(), CacheMode::Online, "").is_none());
    }
}

#[test]
fn refusals_need_no_room() {
    let refused = |text: &str| {
        let uri: Uri = text.parse().unwrap();
        match cache().get_cached(uri, full(), CacheMode::Online, "").unwrap() {
            Ok(_) => panic!("not refused"),
            Err(error) => error,
        }
    };
    let error = refused("/@example.org/a");
    assert_eq!((error.fault, error.status), (Fault::NotJackbox, 400));
    let error = refused("/@jackbox.tv?x/a");
    assert_eq!((error.fault, error.status), (Fault::HostAuthority, 500));
}

#[test]
fn the_usual_host_may_be_named() {
    for (named, usual) in [
        ("/@jackbox.tv/a/b?c=d", "/a/b?c=d"),
        ("/@jackbox.tv/?c", "/?c"),
        ("/@jackbox.tv/", "/"),
        ("/@jackbox.tv", "/"),
    ] {
        let named = route(named).unwrap();
        let usual = route(usual).unwrap();
        assert_eq!(named.uri, usual.uri);
        assert_eq!(named.host, usual.host);
        assert_eq!(named.index, usual.index);
        assert_eq!(named.headers, usual.headers);
    }
    assert_eq!(route("/@jackbox.tv").unwrap().index, "jackbox.tv/index.html");
}
