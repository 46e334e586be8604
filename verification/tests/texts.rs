use jb_http_cache::accept::accepts_br;
use jb_http_cache::coding::{decode_body, encode_body};
use jb_http_cache::fault::{CacheError, Fault};
use jb_http_cache::part::part_name;
use jb_http_cache::rewrite::{proxy_link, rewrite_body};
use jb_http_cache::route::{name_index, split_proxied};
use jb_http_cache::text::{bytes_spell, find, same_text, split_once, starts_with};
use regex::Regex;

fn pair(first: &str, second: &str) -> (String, String) {
    (first.to_string(), second.to_string())
}

#[test]
fn finds_the_first() {
    assert_eq!(find("a/b/c", '/'), 1);
    assert_eq!(find("abc", '/'), 3);
    assert_eq!(find("", '/'), 0);
    assert_eq!(find("äöü/", '/'), 3);
}

#[test]
fn splits_at_the_first() {
    assert_eq!(split_once("a/b/c", '/'), pair("a", "b/c"));
    assert_eq!(split_once("abc", '/'), pair("abc", ""));
    assert_eq!(split_once("/abc", '/'), pair("", "abc"));
    assert_eq!(split_once("é@ß", '@'), pair("é", "ß"));
}

#[test]
fn compares_texts() {
    assert!(starts_with("/@host", "/@"));
    assert!(!starts_with("/", "/@"));
    assert!(!starts_with("/a@", "/@"));
    assert!(starts_with("x", ""));
    assert!(same_text("/", "/"));
    assert!(!same_text("/", "//"));
    assert!(bytes_spell(b"text/html", "text/html"));
    assert!(!bytes_spell(b"text/html; charset=utf-8", "text/html"));
    assert!(!bytes_spell(b"text/HTML", "text/html"));
}

#[test]
fn brotli_is_listed() {
    assert!(accepts_br("br"));
    assert!(accepts_br("gzip, deflate, br"));
    assert!(accepts_br("gzip,\tbr ,zstd"));
    assert!(accepts_br("  br  "));
    assert!(accepts_br(",,br"));
}

#[test]
fn brotli_is_not_listed() {
    assert!(!accepts_br(""));
    assert!(!accepts_br("gzip, deflate"));
    assert!(!accepts_br("br;q=1.0"));
    assert!(!accepts_br("b r"));
    assert!(!accepts_br("BR"));
    assert!(!accepts_br("brotli"));
    assert!(!accepts_br("b,r"));
    assert!(!accepts_br("abr"));
}

#[test]
fn proxied_requests_are_split() {
    assert_eq!(
        split_proxied("/@ecast.jackboxgames.com/api/v2?x=1"),
        pair("ecast.jackboxgames.com", "/api/v2?x=1")
    );
    assert_eq!(split_proxied("/@jackbox.fun"), pair("jackbox.fun", "/"));
    assert_eq!(split_proxied("/@jackbox.fun/"), pair("jackbox.fun", "/"));
    assert_eq!(split_proxied("/@jackbox.fun?a=b"), pair("jackbox.fun?a=b", "/"));
    assert_eq!(split_proxied("/@user@jackbox.fun/a"), pair("user@jackbox.fun", "/a"));
}

#[test]
fn index_entries_are_named() {
    assert_eq!(name_index("jackbox.tv", "/"), "jackbox.tv/index.html");
    assert_eq!(name_index("jackbox.tv", "/main.js"), "jackbox.tv//main.js");
    assert_eq!(name_index("jackbox.tv", ""), "jackbox.tv/");
}

#[test]
fn part_files_are_named() {
    assert_eq!(part_name("jackbox.tv/tag"), "jackbox.tv/tag.part.br");
    assert_eq!(part_name("jackbox.tv/tag.br"), "jackbox.tv/tag.part.br");
    assert_eq!(part_name("jackbox.tv/W/\"a.b\""), "jackbox.tv/W/\"a.part.br");
    assert_eq!(part_name("jackbox.tv/.br"), "jackbox.tv/.br.part.br");
    assert_eq!(part_name("jackbox.tv/a.part.br"), "jackbox.tv/a.part.part.br");
    assert_eq!(part_name("jackbox.tv/a."), "jackbox.tv/a.part.br");
    assert_eq!(part_name("a.b//./c..d"), "a.b//./c..part.br");
}

#[test]
fn tags_may_share_a_part_file() {
    assert_eq!(part_name("h/a.b"), "h/a.part.br");
    assert_eq!(part_name("h/a.b"), part_name("h/a.c"));
    assert_ne!(part_name("h/a"), part_name("h/b"));
}

#[test]
fn links_go_through_the_proxy() {
    assert_eq!(
        proxy_link("http://localhost:8080", "ecast.jackboxgames.com"),
        "http://localhost:8080/@ecast.jackboxgames.com"
    );
}

#[test]
fn bodies_are_rewritten() {
    let urls = Regex::new(r"[a-z]+\.jackbox\.tv").unwrap();
    assert_eq!(
        rewrite_body(b"<a href='//a.jackbox.tv/x'>b.jackbox.tv</a>", &urls, "host"),
        b"<a href='//host/@a.jackbox.tv/x'>host/@b.jackbox.tv</a>".to_vec()
    );
    assert_eq!(rewrite_body(b"nothing here", &urls, "host"), b"nothing here".to_vec());
    assert_eq!(rewrite_body(b"", &urls, "host"), b"".to_vec());
}

#[test]
fn what_is_not_text_is_replaced() {
    let urls = Regex::new("jackbox").unwrap();
    assert_eq!(
        rewrite_body(b"\xffjackbox\xc3\xa9", &urls, "h"),
        "\u{fffd}h/@jackboxé".as_bytes().to_vec()
    );
}

#[test]
fn links_lengthen_texts() {
    let urls = Regex::new("tv").unwrap();
    let body = b"tv tv tv";
    let host = "http://proxy";
    assert_eq!(rewrite_body(body, &urls, host).len(), body.len() + 3 * (host.len() + 2));
}

#[test]
fn links_with_no_characters_are_links_too() {
    let urls = Regex::new("").unwrap();
    assert_eq!(rewrite_body("é".as_bytes(), &urls, "h"), "h/@éh/@".as_bytes().to_vec());
}

#[test]
fn compressed_bodies_come_back() {
    let body = "Jackbox ".repeat(20_000).into_bytes();
    let stored = encode_body(true, body.clone()).unwrap();
    assert!(stored.len() < 1_000);
    assert_ne!(stored, body);
    assert_eq!(decode_body(false, stored.clone()).unwrap(), stored);
    assert_eq!(decode_body(true, stored).unwrap(), body);
}

#[test]
fn compressed_bodies_come_back_without_pattern() {
    let mut seed: u32 = 1;
    let mut body = Vec::new();
    for _ in 0..100_000 {
        seed = seed.wrapping_mul(1_664_525).wrapping_add(1_013_904_223);
        body.push((seed >> 24) as u8);
    }
    let stored = encode_body(true, body.clone()).unwrap();
    assert_eq!(decode_body(true, stored).unwrap(), body);
}

#[test]
fn empty_bodies_come_back() {
    let stored = encode_body(true, Vec::new()).unwrap();
    assert!(!stored.is_empty());
    assert_eq!(decode_body(true, stored).unwrap(), Vec::<u8>::new());
}

#[test]
fn uncompressed_bodies_stay_as_they_are() {
    assert_eq!(encode_body(false, b"body".to_vec()).unwrap(), b"body".to_vec());
    assert_eq!(decode_body(false, b"body".to_vec()).unwrap(), b"body".to_vec());
}

#[test]
fn what_is_not_compressed_is_not_decompressed() {
    assert_eq!(decode_body(true, b"this is no brotli stream".to_vec()), Err(Fault::BodyDecompress));
    assert_eq!(decode_body(true, Vec::new()), Err(Fault::BodyDecompress));
    let mut stored = encode_body(true, b"a body of some length".to_vec()).unwrap();
    stored.truncate(stored.len() / 2);
    assert_eq!(decode_body(true, stored), Err(Fault::BodyDecompress));
}

#[test]
fn faults_have_their_status() {
    assert_eq!(Fault::NotJackbox.status(), 400);
    assert_eq!(Fault::IndexMissing.status(), 404);
    assert_eq!(Fault::EtagText.status(), 422);
    assert_eq!(Fault::ContentTypeText.status(), 422);
    assert_eq!(Fault::EtagMissing.status(), 500);
    assert_eq!(Fault::BodyDecompress.status(), 500);
}

#[test]
fn errors_have_their_message() {
    let error = CacheError::about(Fault::PartMove, false, false, "a.part.br", "a");
    assert_eq!(
        error.message,
        "Failed to move part file `a.part.br` into it's cached resource path `a`"
    );
    assert_eq!(error.status, 500);
    assert_eq!(
        CacheError::on(Fault::HostAuthority, "h h").message,
        "Failed to convert host `h h` into Authority"
    );
    assert_eq!(
        CacheError::on(Fault::HostHeader, "h").message,
        "Failed to convert host `h` into HeaderValue"
    );
    assert_eq!(
        CacheError::on(Fault::TargetPath, "/ x").message,
        "Failed to convert `/ x` to a URI path & query"
    );
    assert_eq!(CacheError::of(Fault::UriParts).message, "URI parts did not make a valid URI");
    let error = CacheError::upstream(503);
    assert_eq!((error.fault, error.status, error.message.as_str()), (Fault::Upstream, 503, ""));
}
