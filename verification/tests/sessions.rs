use std::sync::Arc;

use axum::http::header::{HeaderMap, HeaderValue};
use axum::http::uri::Uri;
use jb_http_cache::cache::HttpCache;
use jb_http_cache::coding::{decode_body, encode_body};
use jb_http_cache::fault::{CacheError, Fault};
use jb_http_cache::response::JBHttpResponse;
use jb_http_cache::session::{
    name_body, CacheMode, Event, Found, Progress, Regexes, Reply, Session,
};
use regex::Regex;

fn headers(entries: &[(&'static str, &'static str)]) -> HeaderMap {
    let mut headers = HeaderMap::new();
    for (name, value) in entries {
        headers.append(*name, HeaderValue::from_static(value));
    }
    headers
}

fn begin(cache_mode: CacheMode, sent: &[(&'static str, &'static str)]) -> Session {
    let cache = HttpCache {
        regexes: Arc::new(Regexes {
            content_to_compress: Regex::new("^text/").unwrap(),
            jackbox_urls: Regex::new(r"[a-z]+\.jackbox\.tv").unwrap(),
        }),
    };
    let uri: Uri = "/a/b?c".parse().unwrap();
    cache.get_cached(uri, headers(sent), cache_mode, "http://proxy").unwrap().unwrap()
}

fn kept(etag: &str, content_type: Option<&str>, compressed: bool) -> JBHttpResponse {
    JBHttpResponse {
        etag: etag.to_string(),
        content_type: content_type.map(|text| text.to_string()),
        compressed,
    }
}

fn response(status: u16, entries: &[(&'static str, &'static str)]) -> Event {
    Event::Response { status, headers: headers(entries) }
}

fn html(status: u16) -> Event {
    response(status, &[("etag", "tag"), ("content-type", "text/html"), ("server", "x")])
}

fn image(status: u16) -> Event {
    response(status, &[("etag", "pic"), ("content-type", "image/png")])
}

fn entry() -> Event {
    Event::Index(kept("old", Some("text/css"), true))
}

fn failed(fault: Fault) -> Event {
    Event::Failed {
        fault,
        subject: "SUBJECT".to_string(),
        destination: "DESTINATION".to_string(),
    }
}

fn run(session: Session, events: Vec<Event>) -> Session {
    let mut session = session;
    for event in events {
        assert!(event.answers(&session.progress));
        session = session.resume(event).unwrap();
    }
    session
}

fn error(session: Session, event: Event) -> CacheError {
    assert!(event.answers(&session.progress));
    match session.resume(event) {
        Ok(_) => panic!("no error"),
        Err(error) => error,
    }
}

fn check(session: Session, fault: Fault, status: u16, message: &str) {
    assert!(session.progress.can_fail(fault));
    let error = error(session, failed(fault));
    assert_eq!((error.fault, error.status, error.message.as_str()), (fault, status, message));
}

fn reply(session: Session) -> Reply {
    match session.progress {
        Progress::Serve(reply) => reply,
        _ => panic!("no reply"),
    }
}

fn written(session: &Session) -> Vec<u8> {
    match &session.progress {
        Progress::WritePart(_, body) => body.clone(),
        _ => panic!("nothing to write"),
    }
}

#[test]
fn bodies_are_named() {
    assert_eq!(name_body("jackbox.tv", &kept("\"e\"", None, false)), "jackbox.tv/\"e\"");
    assert_eq!(name_body("jackbox.tv", &kept("e", None, true)), "jackbox.tv/e.br");
}

#[test]
fn a_mark_in_the_tag_is_taken_for_a_mark() {
    assert_eq!(
        name_body("h", &kept("e.br", None, false)),
        name_body("h", &kept("e", None, true))
    );
}

#[test]
fn fresh_responses_have_a_body() {
    let found = |upstream| Found { response: kept("e", None, false), upstream, part: String::new() };
    assert!(found(Some(200)).is_fresh());
    assert!(found(Some(203)).is_fresh());
    assert!(!found(Some(304)).is_fresh());
    assert!(!found(None).is_fresh());
}

#[test]
fn a_new_body_is_stored_and_served() {
    let session = run(begin(CacheMode::Online, &[]), vec![html(200)]);
    match &session.progress {
        Progress::MakeBodyDirectory(found) => {
            assert_eq!(found.part, "jackbox.tv/tag.br");
            assert_eq!(found.upstream, Some(200));
            assert_eq!(found.response.etag, "tag");
            assert!(found.response.compressed);
        }
        _ => panic!("no directory"),
    }
    let session = run(
        session,
        vec![
            Event::Done,
            Event::Exists(false),
            Event::Done,
            Event::Exists(false),
            Event::Bytes(b"see www.jackbox.tv!".to_vec()),
        ],
    );
    let body = written(&session);
    assert_eq!(body, b"see http://proxy/@www.jackbox.tv!".to_vec());
    let session = run(session, vec![Event::Done]);
    assert!(matches!(session.progress, Progress::MakeIndexDirectory(_)));
    let session = run(session, vec![Event::Done]);
    assert!(matches!(session.progress, Progress::WriteIndex(_)));
    let session = run(session, vec![Event::Done]);
    assert!(matches!(session.progress, Progress::MovePart(_)));
    let reply = reply(run(session, vec![Event::Done]));
    assert_eq!(reply.status, 200);
    assert_eq!(reply.body, "jackbox.tv/tag.br");
    assert_eq!(reply.headers, headers(&[("etag", "tag"), ("content-type", "text/html")]));
    assert!(reply.decode);
    let stored = encode_body(true, body.clone()).unwrap();
    assert_eq!(decode_body(reply.decode, stored).unwrap(), body);
}

#[test]
fn a_client_that_accepts_brotli_is_sent_it() {
    let session = begin(CacheMode::Online, &[("accept-encoding", "br")]);
    let reply = reply(run(session, vec![html(200), Event::Done, Event::Exists(true)]));
    assert_eq!(reply.body, "jackbox.tv/tag.br");
    assert!(!reply.decode);
    assert_eq!(
        reply.headers,
        headers(&[("etag", "tag"), ("content-type", "text/html"), ("content-encoding", "br")])
    );
}

#[test]
fn what_is_not_text_is_stored_as_it_came() {
    let session = run(
        begin(CacheMode::Online, &[("accept-encoding", "br")]),
        vec![
            image(200),
            Event::Done,
            Event::Exists(false),
            Event::Done,
            Event::Exists(false),
            Event::Bytes(b"\xff www.jackbox.tv".to_vec()),
        ],
    );
    assert_eq!(written(&session), b"\xff www.jackbox.tv".to_vec());
    let reply = reply(run(session, vec![Event::Done, Event::Done, Event::Done, Event::Done]));
    assert_eq!(reply.body, "jackbox.tv/pic");
    assert_eq!(reply.headers, headers(&[("etag", "pic"), ("content-type", "image/png")]));
    assert!(!reply.decode);
}

#[test]
fn cached_resources_are_served_offline() {
    let session = begin(CacheMode::Offline, &[]);
    let events = vec![entry(), Event::Done, Event::Exists(true), Event::Exists(true)];
    let reply = reply(run(session, events));
    assert_eq!(reply.status, 200);
    assert_eq!(reply.body, "jackbox.tv/old.br");
    assert_eq!(reply.headers, headers(&[("etag", "old"), ("content-type", "text/css")]));
    assert!(reply.decode);
}

#[test]
fn stored_responses_are_found_again() {
    let session = run(
        begin(CacheMode::Online, &[]),
        vec![
            html(200),
            Event::Done,
            Event::Exists(false),
            Event::Done,
            Event::Exists(false),
            Event::Bytes(b"body".to_vec()),
            Event::Done,
            Event::Done,
        ],
    );
    let written = match &session.progress {
        Progress::WriteIndex(found) => {
            let response = &found.response;
            kept(&response.etag, response.content_type.as_deref(), response.compressed)
        }
        _ => panic!("no entry"),
    };
    let first = reply(run(session, vec![Event::Done, Event::Done]));
    let later = begin(CacheMode::Oneshot, &[]);
    let events = vec![
        Event::Exists(true),
        Event::Index(written),
        Event::Done,
        Event::Exists(true),
        Event::Exists(true),
    ];
    let second = reply(run(later, events));
    assert_eq!(first.status, second.status);
    assert_eq!(first.headers, second.headers);
    assert_eq!(first.body, second.body);
    assert_eq!(first.decode, second.decode);
}

#[test]
fn an_index_entry_is_enough_for_oneshot() {
    let session = run(begin(CacheMode::Oneshot, &[]), vec![Event::Exists(true)]);
    assert!(matches!(session.progress, Progress::ReadIndex(None)));
    let session = run(begin(CacheMode::Oneshot, &[]), vec![Event::Exists(false)]);
    assert!(matches!(session.progress, Progress::Fetch(None)));
}

#[test]
fn an_unmodified_body_is_served_from_the_cache() {
    let session = begin(CacheMode::Online, &[("if-none-match", "tag")]);
    assert_eq!(session.route.headers["if-none-match"], "tag");
    let events = vec![html(304), Event::Done, Event::Exists(true), Event::Exists(true)];
    assert_eq!(reply(run(session, events)).body, "jackbox.tv/tag.br");
}

#[test]
fn an_unmodified_body_that_is_gone_is_looked_up_in_the_index() {
    let session = begin(CacheMode::Online, &[("if-none-match", "tag"), ("accept", "*/*")]);
    let session = run(session, vec![html(304), Event::Done, Event::Exists(false)]);
    assert_eq!(session.route.headers, headers(&[("host", "jackbox.tv"), ("accept", "*/*")]));
    assert_eq!(session.route.uri, "https://jackbox.tv/a/b?c");
    match &session.progress {
        Progress::ReadIndex(Some(part)) => assert_eq!(part, "jackbox.tv/tag.br"),
        _ => panic!("no second attempt"),
    }
    let session = run(session, vec![entry()]);
    match &session.progress {
        Progress::ProbeStored(found) => {
            assert_eq!(found.part, "jackbox.tv/tag.br");
            assert_eq!(found.response.etag, "old");
            assert_eq!(found.upstream, None);
        }
        _ => panic!("no probe"),
    }
    let session = run(session, vec![Event::Exists(false), Event::Done]);
    assert!(matches!(session.progress, Progress::DropPart(_)));
    assert_eq!(reply(run(session, vec![Event::Done])).body, "jackbox.tv/old.br");
}

#[test]
fn a_cached_body_that_is_gone_is_asked_for_again() {
    for mode in [CacheMode::Offline, CacheMode::Oneshot] {
        let mut session = begin(mode, &[("if-none-match", "old")]);
        if mode == CacheMode::Oneshot {
            session = run(session, vec![Event::Exists(true)]);
        }
        let session = run(session, vec![entry(), Event::Done, Event::Exists(false)]);
        assert!(matches!(session.progress, Progress::Fetch(Some(_))));
        assert!(!session.route.headers.contains_key("if-none-match"));
        let session = run(session, vec![image(200), Event::Exists(false), Event::Done]);
        match &session.progress {
            Progress::ProbeLocked(found) => {
                assert_eq!(found.part, "jackbox.tv/old.br");
                assert_eq!(found.response.etag, "pic");
            }
            _ => panic!("not locked"),
        }
    }
}

#[test]
fn a_body_that_came_in_the_meantime_is_served() {
    let session = run(
        begin(CacheMode::Online, &[]),
        vec![image(200), Event::Done, Event::Exists(false), Event::Done, Event::Exists(true)],
    );
    assert!(matches!(session.progress, Progress::DropPart(_)));
    assert_eq!(reply(run(session, vec![Event::Done])).body, "jackbox.tv/pic");
}

#[test]
fn upstream_errors_are_passed_on() {
    for status in [400, 404, 503, 599] {
        let error = error(begin(CacheMode::Online, &[]), html(status));
        assert_eq!((error.fault, error.status), (Fault::Upstream, status));
        assert_eq!(error.message, "");
    }
    for status in [200, 204, 301, 399, 600] {
        let session = run(begin(CacheMode::Online, &[]), vec![html(status)]);
        assert!(matches!(session.progress, Progress::MakeBodyDirectory(_)));
    }
}

#[test]
fn responses_without_a_tag_are_errors() {
    let error = error(begin(CacheMode::Online, &[]), response(200, &[]));
    assert_eq!((error.fault, error.status), (Fault::EtagMissing, 500));
}

#[test]
fn entries_that_no_header_holds_are_errors() {
    let bad = || Event::Index(kept("a\rb", None, false));
    let session = run(
        begin(CacheMode::Offline, &[]),
        vec![bad(), Event::Done, Event::Exists(true)],
    );
    let error = error(session, Event::Exists(true));
    assert_eq!((error.fault, error.status), (Fault::EtagHeader, 500));
}

#[test]
fn events_of_something_else_change_nothing() {
    let session = begin(CacheMode::Online, &[]);
    for event in [Event::Done, Event::Exists(true), entry(), failed(Fault::PartMove)] {
        assert!(!event.answers(&session.progress));
    }
    let session = session.resume(Event::Done).unwrap();
    let session = session.resume(failed(Fault::PartMove)).unwrap();
    assert!(matches!(session.progress, Progress::Fetch(None)));
    assert_eq!(session.route.uri, "https://jackbox.tv/a/b?c");
}

#[test]
fn replies_fail_as_they_are_read() {
    let faults = |head: Event, sent: &[(&'static str, &'static str)]| {
        let events = vec![head, Event::Done, Event::Exists(true)];
        let session = run(begin(CacheMode::Online, sent), events);
        let all = [Fault::BodyRead, Fault::BodyMetadata, Fault::BodyOpen, Fault::BodyDecompress];
        let read = all.map(|fault| session.progress.can_fail(fault));
        (read, reply(session).read_fault())
    };
    assert_eq!(faults(html(200), &[]), ([false, true, true, true], Fault::BodyDecompress));
    assert_eq!(faults(image(200), &[]), ([true, true, true, false], Fault::BodyRead));
    let br = [("accept-encoding", "br")];
    assert_eq!(faults(html(200), &br), ([true, false, false, false], Fault::BodyRead));
    assert_eq!(faults(image(200), &br), ([true, false, false, false], Fault::BodyRead));
}

#[test]
fn bodies_that_are_there_are_not_stored_again() {
    let session = run(begin(CacheMode::Online, &[]), vec![html(200), Event::Done]);
    assert!(matches!(session.progress, Progress::ProbeStored(_)));
    assert_eq!(reply(run(session, vec![Event::Exists(true)])).body, "jackbox.tv/tag.br");
    let session = run(begin(CacheMode::Online, &[]), vec![html(304), Event::Done]);
    assert!(matches!(session.progress, Progress::ProbeCached(_)));
    let session = run(session, vec![Event::Exists(true)]);
    assert!(matches!(session.progress, Progress::ProbeStored(_)));
    assert_eq!(reply(run(session, vec![Event::Exists(true)])).body, "jackbox.tv/tag.br");
}

fn online(events: Vec<Event>) -> Session {
    run(begin(CacheMode::Online, &[]), events)
}

fn storing(head: Event, events: Vec<Event>) -> Session {
    let start = vec![head, Event::Done, Event::Exists(false)];
    run(online(start), events)
}

fn retrying(events: Vec<Event>) -> Session {
    run(online(vec![html(304), Event::Done, Event::Exists(false)]), events)
}

#[test]
fn failures_before_the_body_are_told() {
    check(
        online(vec![]),
        Fault::Acquire,
        500,
        "Failed to acquire resource from `https://jackbox.tv/a/b?c`",
    );
    let offline = || begin(CacheMode::Offline, &[]);
    check(
        offline(),
        Fault::IndexMissing,
        404,
        "The offline resource `SUBJECT` could not be found",
    );
    check(
        offline(),
        Fault::IndexMalformed,
        500,
        "The offline resource `SUBJECT` could not be deserialized",
    );
    check(
        online(vec![html(200)]),
        Fault::BodyParent,
        500,
        "The cached resource `SUBJECT` has no parent directory",
    );
    check(
        online(vec![html(200)]),
        Fault::BodyDirectory,
        500,
        "The directory `SUBJECT` could not be created for the cached resource",
    );
}

#[test]
fn failures_of_the_second_attempt_are_told() {
    let asked = run(
        begin(CacheMode::Offline, &[]),
        vec![entry(), Event::Done, Event::Exists(false)],
    );
    check(
        asked,
        Fault::Acquire,
        500,
        "Failed to acquire resource from `https://jackbox.tv/a/b?c` (with stripped Etag)",
    );
    check(
        retrying(vec![]),
        Fault::IndexMissing,
        404,
        "The offline resource `SUBJECT` could not be found (stripped Etag)",
    );
    check(
        retrying(vec![]),
        Fault::IndexMalformed,
        500,
        "The offline resource `SUBJECT` could not be deserialized (stripped Etag)",
    );
}

#[test]
fn failures_to_store_are_told() {
    let opened = || storing(html(200), vec![]);
    check(
        opened(),
        Fault::PartOpen,
        500,
        "Failed to open/create part file for resource `SUBJECT`",
    );
    check(
        opened(),
        Fault::PartLock,
        500,
        "Failed to open part file for writing for resource `SUBJECT`",
    );
    check(
        storing(html(200), vec![Event::Done, Event::Exists(false)]),
        Fault::BodyBytes,
        500,
        "Failed to retreive bytes for URL with path: `https://jackbox.tv/a/b?c`",
    );
    let bytes = || vec![Event::Done, Event::Exists(false), Event::Bytes(vec![1])];
    check(
        storing(html(200), bytes()),
        Fault::PartCopy,
        500,
        "Failed to copy byte stream to a compressed brotli file",
    );
    check(
        storing(html(200), bytes()),
        Fault::PartShutdown,
        500,
        "Failed to shutdown compressed brotli file stream",
    );
    check(
        storing(image(200), bytes()),
        Fault::PartCopy,
        500,
        "Failed to copy byte stream to an uncompressed file",
    );
    check(
        storing(image(200), bytes()),
        Fault::PartShutdown,
        500,
        "Failed to shutdown uncompressed file stream",
    );
}

#[test]
fn failures_to_enter_are_told() {
    let written = |count: usize| {
        let mut events = vec![Event::Done, Event::Exists(false), Event::Bytes(vec![1])];
        for _ in 0..count {
            events.push(Event::Done);
        }
        storing(html(200), events)
    };
    check(
        written(1),
        Fault::IndexParent,
        500,
        "Raw cached resource `SUBJECT` does not have a parent directory",
    );
    check(
        written(1),
        Fault::IndexDirectory,
        500,
        "Failed to create directory for raw resource `SUBJECT`",
    );
    check(
        written(2),
        Fault::IndexCreate,
        500,
        "Failed to create file for raw resource `SUBJECT`",
    );
    check(
        written(2),
        Fault::IndexSerialize,
        500,
        "Failed to serialize raw resource `SUBJECT`",
    );
    check(
        written(3),
        Fault::PartMove,
        500,
        "Failed to move part file `SUBJECT` into it's cached resource path `DESTINATION`",
    );
}

#[test]
fn failures_to_serve_are_told() {
    let served = || online(vec![html(200), Event::Done, Event::Exists(true)]);
    check(
        online(vec![image(200), Event::Done, Event::Exists(true)]),
        Fault::BodyRead,
        500,
        "Failed to read cached resource `SUBJECT`",
    );
    check(
        served(),
        Fault::BodyMetadata,
        500,
        "Failed to read metadata for cached resource `SUBJECT`",
    );
    check(served(), Fault::BodyOpen, 500, "Failed to open cached resource `SUBJECT`");
    check(served(), Fault::BodyDecompress, 500, "Failed to decompress cached resource `SUBJECT`");
}

#[test]
fn a_session_ends_in_a_few_steps() {
    let mut session = begin(CacheMode::Oneshot, &[]);
    let mut steps = 0;
    let mut requests = 0;
    while !matches!(session.progress, Progress::Serve(_)) {
        steps += 1;
        let event = match &session.progress {
            Progress::ProbeIndex => Event::Exists(true),
            Progress::ProbeCached(_) | Progress::ProbeStored(_) => Event::Exists(false),
            Progress::ProbeLocked(_) => Event::Exists(false),
            Progress::Fetch(_) => {
                requests += 1;
                html(200)
            }
            Progress::ReadIndex(_) => entry(),
            Progress::ReadBytes(_) => Event::Bytes(vec![]),
            _ => Event::Done,
        };
        session = run(session, vec![event]);
    }
    assert_eq!(requests, 1);
    assert_eq!(steps, 13);
}
