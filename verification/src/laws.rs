//! What holds of the cache as a whole.

pub mod bodies;
pub mod replies;
pub mod routes;
pub mod steps;
pub mod views;

use regex::Regex;
use vstd::prelude::*;
use vstd::string::*;
use vstd::utf8::*;

use crate::cache::begun;
use crate::coding::{brotli_plain, sent, stores};
use crate::fault::{CacheErrorView, Fault};
use crate::http::{
    ascii_text, first_value, host_of, is_target, path_of, value_allowed, value_visible, Entries,
};
use crate::laws::steps::{
    bodies_that_are_gone_are_looked_for_again, bodies_that_are_there_are_served,
    only_sent_bodies_are_new,
};
use crate::part::{directory, last_segment, names_file, part_of, portable, stem};
use crate::response::{described, replied, reply_names_differ, told, JBHttpResponseView};
use crate::rewrite::{link, regex_matches, relinked, spans_in_order};
use crate::route::{
    forwarded, is_proxied, proxied_host, proxied_target, request_names_differ, routed,
    usual_host_is_one,
};
use crate::session::{
    answers, body_name, first_step, fresh, is_error_status, resumed, CacheMode, EventView,
    FoundView, ProgressView, Regexes, SessionView,
};
use crate::text::{
    after, after_last_is, after_last_properties, position, position_is, position_properties,
};

verus! {

/// The authority that a request for a path and query goes to.
pub open spec fn upstream_authority(target: Seq<char>) -> Seq<char> {
    if is_proxied(target) {
        proxied_host(target)
    } else {
        "jackbox.tv"@
    }
}

/// Every request that is let through goes, over TLS, to `jackbox.tv` or to an authority that the
/// expression for Jackbox's hosts matches, and names that authority as its host.
pub proof fn requests_stay_with_jackbox(
    target: Seq<char>,
    entries: Entries,
    jackbox_urls: Regex,
)
    requires
        routed(Some(target), entries, jackbox_urls) is Ok,
    ensures
        ({
            let route = routed(Some(target), entries, jackbox_urls)->Ok_0;
            let authority = upstream_authority(target);
            &&& authority == "jackbox.tv"@ || regex_matches(jackbox_urls, authority)
            &&& ("https://"@ + authority).is_prefix_of(route.uri)
            &&& route.host == host_of(authority)
            &&& first_value(route.headers, "host"@) == Some(encode_utf8(authority))
        }),
{
    let route = routed(Some(target), entries, jackbox_urls)->Ok_0;
    let authority = upstream_authority(target);
    reveal_strlit("https");
    reveal_strlit("://");
    reveal_strlit("https://");
    assert("https"@ + "://"@ =~= "https://"@);
    request_names_differ();
    assert(("https://"@ + authority) =~= route.uri.take(("https://"@ + authority).len() as int));
}

/// A proxied request for a host that is none of Jackbox's is refused as a bad one.
pub proof fn other_hosts_are_refused(target: Seq<char>, entries: Entries, jackbox_urls: Regex)
    requires
        is_proxied(target),
        !regex_matches(jackbox_urls, proxied_host(target)),
    ensures
        routed(Some(target), entries, jackbox_urls) matches Err(error) && error.fault
            == Fault::NotJackbox && error.status == 400,
{
}

/// A rewritten link leads back to where it was found to lead: what a client asks of the proxy
/// when it follows the link, with or without more behind it, is routed to that host, with what
/// is behind it as the path.
pub proof fn links_lead_back(accessible_host: Seq<char>, host: Seq<char>, rest: Seq<char>)
    requires
        !host.contains('/'),
    ensures
        ({
            let target = "/@"@ + host + "/"@ + rest;
            &&& link(accessible_host, host) + "/"@ + rest == accessible_host + target
            &&& is_proxied(target)
            &&& proxied_host(target) == host
            &&& proxied_target(target) == "/"@ + rest
        }),
        ({
            let target = "/@"@ + host;
            &&& link(accessible_host, host) == accessible_host + target
            &&& is_proxied(target)
            &&& proxied_host(target) == host
            &&& proxied_target(target) == "/"@
        }),
{
    reveal_strlit("/@");
    reveal_strlit("/");
    let long = "/@"@ + host + "/"@ + rest;
    let short = "/@"@ + host;
    assert(link(accessible_host, host) + "/"@ + rest =~= accessible_host + long);
    assert(link(accessible_host, host) =~= accessible_host + short);
    proxied_split(host + "/"@ + rest);
    assert(long =~= "/@"@ + (host + "/"@ + rest));
    proxied_split(host);
    position_is(host + "/"@ + rest, '/', host.len() as int);
    assert((host + "/"@ + rest).take(host.len() as int) =~= host);
    assert((host + "/"@ + rest).skip(host.len() as int + 1) =~= rest);
    position_is(host, '/', host.len() as int);
    assert(host.take(host.len() as int) =~= host);
    assert("/"@ + Seq::empty() =~= "/"@);
}

/// A request that names `jackbox.tv` goes where it would go without: whatever path and query
/// follows the host, the session is the one for that path and query; and where nothing follows, it
/// is the one for the root, whose index entry is `index.html`.
pub proof fn usual_host_may_be_named(
    target: Seq<char>,
    entries: Entries,
    cache_mode: CacheMode,
    accessible_host: Seq<char>,
    regexes: Regexes,
)
    requires
        "/"@.is_prefix_of(target),
        !"/@"@.is_prefix_of(target),
        is_target(target),
        !target.contains('#'),
        regex_matches(regexes.jackbox_urls, "jackbox.tv"@),
    ensures
        begun(Some("/@jackbox.tv"@ + target), entries, cache_mode, accessible_host, regexes)
            == begun(Some(target), entries, cache_mode, accessible_host, regexes),
        begun(Some(target), entries, cache_mode, accessible_host, regexes) is Ok,
        begun(Some("/@jackbox.tv"@), entries, cache_mode, accessible_host, regexes) == begun(
            Some("/"@),
            entries,
            cache_mode,
            accessible_host,
            regexes,
        ),
        begun(Some("/"@), entries, cache_mode, accessible_host, regexes) matches Ok(session)
            && session.route.index == "jackbox.tv/index.html"@,
{
    let host = "jackbox.tv"@;
    let rest = target.skip(1);
    reveal_strlit("/@");
    reveal_strlit("/");
    reveal_strlit("jackbox.tv");
    reveal_strlit("/@jackbox.tv");
    reveal_strlit("index.html");
    reveal_strlit("jackbox.tv/index.html");
    usual_host_is_one();
    links_lead_back(Seq::empty(), host, rest);
    assert(target[0] == '/');
    assert("/"@ + rest =~= target);
    assert("/@jackbox.tv"@ =~= "/@"@ + host);
    assert("/@jackbox.tv"@ + target =~= "/@"@ + host + "/"@ + rest);
    not_proxied(target);
    not_proxied("/"@);
    position_is(target, '#', target.len() as int);
    assert(target.take(target.len() as int) =~= target);
    position_is("/"@, '#', 1);
    assert("/"@.take(1) =~= "/"@);
    position_is("/"@, '?', 1);
    position_is(host, '@', 10);
    position_is(host, ':', 10);
    assert(host.take(10) =~= host);
    assert(host + "/"@ + "index.html"@ =~= "jackbox.tv/index.html"@);
}

/// A target that does not begin with `/@` is not a proxied one.
pub proof fn not_proxied(target: Seq<char>)
    requires
        !"/@"@.is_prefix_of(target),
    ensures
        !is_proxied(target),
{
    reveal_strlit("/@");
    position_properties(target, '?');
    if is_proxied(target) {
        assert(path_of(target).take(2) =~= target.take(2));
    }
}

/// A target that begins with `/@` is a proxied one, and what it asks for follows.
proof fn proxied_split(asked: Seq<char>)
    ensures
        is_proxied("/@"@ + asked),
        after("/@"@ + asked, '@') == asked,
{
    reveal_strlit("/@");
    let target = "/@"@ + asked;
    assert(target[0] == '/' && target[1] == '@');
    position_is(target, '@', 1);
    assert(target.skip(2) =~= asked);
    position_properties(target, '?');
    let at = position(target, '?');
    assert(at >= 2);
    assert("/@"@ =~= path_of(target).take(2));
}

/// What goes upstream says nothing of the client's encodings or of when it last asked, and is
/// otherwise, but for the host, what the client sent.
pub proof fn other_headers_pass(entries: Entries, authority: Seq<char>, name: Seq<char>)
    ensures
        !forwarded(entries, authority).contains_key("accept-encoding"@),
        !forwarded(entries, authority).contains_key("if-modified-since"@),
        name != "host"@ && name != "accept-encoding"@ && name != "if-modified-since"@ ==> {
            &&& forwarded(entries, authority).contains_key(name) == entries.contains_key(name)
            &&& forwarded(entries, authority)[name] == entries[name]
        },
{
}

/// Nothing that happens on the way changes where the request goes, where its index entry is, how
/// the client is answered, or what the cache goes by; and of the headers only the client's entity
/// tag may go.
pub proof fn sessions_keep_their_way(session: SessionView, event: EventView)
    requires
        resumed(session, event) is Ok,
    ensures
        ({
            let next = resumed(session, event)->Ok_0;
            &&& next.route.uri == session.route.uri
            &&& next.route.host == session.route.host
            &&& next.route.index == session.route.index
            &&& next.route.br == session.route.br
            &&& next.route.headers == session.route.headers || next.route.headers
                == session.route.headers.remove("if-none-match"@)
            &&& next.cache_mode == session.cache_mode
            &&& next.accessible_host == session.accessible_host
            &&& next.regexes == session.regexes
        }),
{
}

/// What is known of the resource, at the steps at which something is.
pub open spec fn found_in(progress: ProgressView) -> Option<FoundView> {
    match progress {
        ProgressView::MakeBodyDirectory(found) => Some(found),
        ProgressView::ProbeCached(found) => Some(found),
        ProgressView::ProbeStored(found) => Some(found),
        ProgressView::OpenPart(found) => Some(found),
        ProgressView::ProbeLocked(found) => Some(found),
        ProgressView::DropPart(found) => Some(found),
        ProgressView::ReadBytes(found) => Some(found),
        ProgressView::WritePart(found, _) => Some(found),
        ProgressView::MakeIndexDirectory(found) => Some(found),
        ProgressView::WriteIndex(found) => Some(found),
        ProgressView::MovePart(found) => Some(found),
        _ => None,
    }
}

/// Whether a step is one of those by which a body is stored.
pub open spec fn is_storing(progress: ProgressView) -> bool {
    ||| progress is ProbeLocked
    ||| progress is ReadBytes
    ||| progress is WritePart
    ||| progress is MakeIndexDirectory
    ||| progress is WriteIndex
    ||| progress is MovePart
}

/// Whether a step belongs to a second attempt to reach the upstream or the index entry.
pub open spec fn is_second_attempt(progress: ProgressView) -> bool {
    match progress {
        ProgressView::Fetch(part) => part is Some,
        ProgressView::ReadIndex(part) => part is Some,
        _ => false,
    }
}

/// What holds of every session: nothing is taken from an upstream error; only what the upstream
/// has just sent is stored; the upstream is asked a second time without the client's entity tag;
/// and the reply is a success whose headers name the coding in which the body is sent.
pub open spec fn is_sound(session: SessionView) -> bool {
    &&& found_in(session.progress) matches Some(found) ==> (found.upstream matches Some(status)
        ==> !is_error_status(status))
    &&& is_storing(session.progress) ==> fresh(found_in(session.progress)->0)
    &&& is_second_attempt(session.progress) ==> !session.route.headers.contains_key(
        "if-none-match"@,
    )
    &&& session.progress matches ProgressView::Serve(reply) ==> {
        &&& reply.status == 200
        &&& exists|response: JBHttpResponseView|
            {
                &&& #[trigger] replied(response, session.route.br) == Ok::<
                    Entries,
                    CacheErrorView,
                >(reply.headers)
                &&& reply.body == body_name(session.route.host, response)
                &&& reply.br == session.route.br
                &&& reply.decode == (response.compressed && !session.route.br)
            }
    }
}

/// A session is sound from the start.
pub proof fn sessions_begin_sound(session: SessionView)
    requires
        session.progress == first_step(session.cache_mode),
    ensures
        is_sound(session),
{
}

/// A sound session stays sound, whatever happens.
pub proof fn sessions_stay_sound(session: SessionView, event: EventView)
    requires
        is_sound(session),
        resumed(session, event) is Ok,
    ensures
        is_sound(resumed(session, event)->Ok_0),
{
    let next = resumed(session, event)->Ok_0;
    if next.progress is Serve && !(session.progress is Serve) {
        let found = found_in(session.progress)->0;
        assert(session.serve(found) == Ok::<SessionView, CacheErrorView>(next));
        assert(replied(found.response, session.route.br) is Ok);
    }
}

/// How many more events a step leads to at most.
pub open spec fn steps_left(progress: ProgressView) -> nat {
    match progress {
        ProgressView::ProbeIndex => 15,
        ProgressView::Fetch(None) => 14,
        ProgressView::ReadIndex(None) => 14,
        ProgressView::MakeBodyDirectory(_) => 13,
        ProgressView::ProbeCached(_) => 12,
        ProgressView::Fetch(Some(_)) => 11,
        ProgressView::ReadIndex(Some(_)) => 11,
        ProgressView::ProbeStored(_) => 10,
        ProgressView::OpenPart(_) => 9,
        ProgressView::ProbeLocked(_) => 8,
        ProgressView::DropPart(_) => 7,
        ProgressView::ReadBytes(_) => 6,
        ProgressView::WritePart(_, _) => 5,
        ProgressView::MakeIndexDirectory(_) => 4,
        ProgressView::WriteIndex(_) => 3,
        ProgressView::MovePart(_) => 2,
        ProgressView::Serve(_) => 1,
    }
}

/// Every event that tells of what was to be done brings a session nearer to its end.
pub proof fn sessions_end(session: SessionView, event: EventView)
    requires
        answers(event, session.progress),
        resumed(session, event) is Ok,
    ensures
        steps_left(resumed(session, event)->Ok_0.progress) < steps_left(session.progress),
{
}

/// How many more times the upstream may be asked, from a step on.
pub open spec fn requests_left(cache_mode: CacheMode, progress: ProgressView) -> nat {
    let again: nat = if cache_mode == CacheMode::Online {
        0
    } else {
        1
    };
    match progress {
        ProgressView::ProbeIndex => 1 + again,
        ProgressView::Fetch(None) => 1 + again,
        ProgressView::Fetch(Some(_)) => 1,
        ProgressView::ReadIndex(None) => again,
        ProgressView::MakeBodyDirectory(_) => again,
        ProgressView::ProbeCached(_) => again,
        _ => 0,
    }
}

/// The upstream is asked at most once for a request in online and in offline mode, and at most
/// twice in oneshot mode: each time that it is asked, one request fewer is left.
pub proof fn upstream_is_asked_rarely(session: SessionView, event: EventView)
    requires
        answers(event, session.progress),
        resumed(session, event) is Ok,
    ensures
        requests_left(CacheMode::Online, first_step(CacheMode::Online)) == 1,
        requests_left(CacheMode::Offline, first_step(CacheMode::Offline)) == 1,
        requests_left(CacheMode::Oneshot, first_step(CacheMode::Oneshot)) == 2,
        ({
            let next = resumed(session, event)->Ok_0;
            let asked: nat = if session.progress is Fetch {
                1
            } else {
                0
            };
            requests_left(next.cache_mode, next.progress) + asked <= requests_left(
                session.cache_mode,
                session.progress,
            )
        }),
{
}

/// A body is moved to where it belongs only once its index entry has been written, and that only
/// once the body has been written.
pub proof fn bodies_come_last(session: SessionView, event: EventView)
    requires
        answers(event, session.progress),
        resumed(session, event) is Ok,
    ensures
        resumed(session, event)->Ok_0.progress matches ProgressView::MovePart(found)
            ==> session.progress == ProgressView::WriteIndex(found),
        resumed(session, event)->Ok_0.progress matches ProgressView::WriteIndex(found)
            ==> session.progress == ProgressView::MakeIndexDirectory(found),
        resumed(session, event)->Ok_0.progress matches ProgressView::MakeIndexDirectory(found)
            ==> (session.progress matches ProgressView::WritePart(written, _) && written == found),
{
}

/// A stored body is served from where it was moved to.
pub proof fn stored_bodies_are_served(session: SessionView, found: FoundView)
    requires
        session.progress == ProgressView::MovePart(found),
        replied(found.response, session.route.br) is Ok,
    ensures
        resumed(session, EventView::Done) matches Ok(next) && next.progress
            matches ProgressView::Serve(reply) && reply.body == body_name(
            session.route.host,
            found.response,
        ),
{
}

/// A reply says of its body that it is coded with brotli exactly where it is sent as stored and
/// stored compressed; and to a client that does not accept brotli it is never sent so.
pub proof fn replies_name_their_coding(session: SessionView, found: FoundView)
    requires
        session.serve(found) is Ok,
    ensures
        session.serve(found)->Ok_0.progress matches ProgressView::Serve(reply) && {
            let coded = found.response.compressed && !reply.decode;
            &&& first_value(reply.headers, "content-encoding"@) == if coded {
                Some(encode_utf8("br"@))
            } else {
                None
            }
            &&& coded ==> session.route.br
            &&& reply.decode ==> found.response.compressed
        },
{
    reply_names_differ();
}

/// What any client is later sent of a body that was stored, once the coding that the reply names
/// is undone, is that body: what the upstream sent, with its links led through the proxy where it
/// may hold some.
pub proof fn stored_bodies_come_back(
    session: SessionView,
    found: FoundView,
    bytes: Seq<u8>,
    stored: Seq<u8>,
    later: SessionView,
    again: FoundView,
)
    requires
        session.progress == ProgressView::ReadBytes(found),
        resumed(session, EventView::Bytes(bytes)) is Ok,
        stores(found.response.compressed, stored, session.stored(found, bytes)),
        later.route.host == session.route.host,
        again.response.etag == found.response.etag,
        again.response.compressed == found.response.compressed,
        later.serve(again) is Ok,
    ensures
        resumed(session, EventView::Bytes(bytes))->Ok_0.progress == ProgressView::WritePart(
            found,
            session.stored(found, bytes),
        ),
        later.serve(again)->Ok_0.progress matches ProgressView::Serve(reply) && {
            let body = session.stored(found, bytes);
            &&& reply.body == body_name(session.route.host, found.response)
            &&& sent(reply.decode, stored) matches Some(answer) && if first_value(
                reply.headers,
                "content-encoding"@,
            ) == Some(encode_utf8("br"@)) {
                brotli_plain(answer) == Some(body)
            } else {
                answer == body
            }
        },
{
    replies_name_their_coding(later, again);
}

/// How a session goes on after some events, one after the other.
pub open spec fn run(session: SessionView, events: Seq<EventView>) -> Result<
    SessionView,
    CacheErrorView,
>
    decreases events.len(),
{
    if events.len() == 0 {
        Ok(session)
    } else {
        match resumed(session, events[0]) {
            Ok(next) => run(next, events.skip(1)),
            Err(error) => Err(error),
        }
    }
}

/// A resource whose index entry and body are in the cache is served from there, without the
/// upstream.
pub proof fn cached_resources_are_served(session: SessionView, response: JBHttpResponseView)
    requires
        session.progress == ProgressView::ReadIndex(None),
    ensures
        ({
            let found = FoundView {
                response,
                upstream: None,
                part: body_name(session.route.host, response),
            };
            run(
                session,
                seq![
                    EventView::Index(response),
                    EventView::Done,
                    EventView::Exists(true),
                    EventView::Exists(true),
                ],
            ) == session.serve(found)
        }),
{
    reveal_with_fuel(run, 5);
}

/// Whether at a step a file is made, written, moved or removed.
pub open spec fn changes_files(progress: ProgressView) -> bool {
    ||| progress is OpenPart
    ||| progress is DropPart
    ||| progress is WritePart
    ||| progress is WriteIndex
    ||| progress is MovePart
}

/// The events by which an answer of the upstream is served whose body is in the cache.
pub open spec fn present_events(status: u16, headers: Entries) -> Seq<EventView> {
    let start = seq![EventView::Response { status, headers }, EventView::Done];
    if status == 304 {
        start + seq![EventView::Exists(true), EventView::Exists(true)]
    } else {
        start + seq![EventView::Exists(true)]
    }
}

/// An answer of the upstream, new or that nothing has changed, whose body is in the cache already
/// is served from there: no file is made, written, moved or removed on the way.
#[verifier::rlimit(60)]
#[verifier::spinoff_prover]
pub proof fn present_bodies_are_served(session: SessionView, status: u16, headers: Entries)
    requires
        session.progress == ProgressView::Fetch(None),
        !is_error_status(status),
        described(headers, session.regexes.content_to_compress) is Ok,
    ensures
        ({
            let response = described(headers, session.regexes.content_to_compress)->Ok_0;
            let found = FoundView {
                response,
                upstream: Some(status),
                part: body_name(session.route.host, response),
            };
            &&& run(session, present_events(status, headers)) == session.serve(found)
            &&& session.serve(found) is Ok
        }),
        forall|i: int|
            0 <= i <= present_events(status, headers).len() ==> (#[trigger] run(
                session,
                present_events(status, headers).take(i),
            ) matches Ok(reached) && !changes_files(reached.progress)),
{
    kept_responses_are_told(headers, session.regexes.content_to_compress);
    let response = described(headers, session.regexes.content_to_compress)->Ok_0;
    let found = FoundView {
        response,
        upstream: Some(status),
        part: body_name(session.route.host, response),
    };
    let made = session.then_do(ProgressView::MakeBodyDirectory(found));
    assert(session.with_response(response, Some(status), None) == made);
    assert(resumed(session, EventView::Response { status, headers }) == Ok::<
        SessionView,
        CacheErrorView,
    >(made));
    let path = present_path(session, status, headers, found);
    let events = present_events(status, headers);
    present_bodies_keep_to_their_path(session, status, headers, found);
    assert forall|i: int| 0 <= i <= events.len() implies (#[trigger] run(session, events.take(i))
        matches Ok(reached) && !changes_files(reached.progress)) by {
        run_along(path, events, i);
    }
    run_along(path, events, events.len() as int);
    assert(events.take(events.len() as int) =~= events);
}

/// Where a session goes by those events.
spec fn present_path(
    session: SessionView,
    status: u16,
    headers: Entries,
    found: FoundView,
) -> Seq<SessionView> {
    let made = session.then_do(ProgressView::MakeBodyDirectory(found));
    let cached = session.then_do(ProgressView::ProbeCached(found));
    let probed = session.then_do(ProgressView::ProbeStored(found));
    let served = session.serve(found)->Ok_0;
    if status == 304 {
        seq![session, made, cached, probed, served]
    } else {
        seq![session, made, probed, served]
    }
}

/// Each of those events brings a session one step further on that path, and at none of them a file
/// is changed.
#[verifier::rlimit(60)]
#[verifier::spinoff_prover]
proof fn present_bodies_keep_to_their_path(
    session: SessionView,
    status: u16,
    headers: Entries,
    found: FoundView,
)
    requires
        session.progress is Fetch,
        found.upstream == Some(status),
        session.serve(found) is Ok,
        resumed(session, EventView::Response { status, headers }) == Ok::<
            SessionView,
            CacheErrorView,
        >(session.then_do(ProgressView::MakeBodyDirectory(found))),
    ensures
        ({
            let path = present_path(session, status, headers, found);
            let events = present_events(status, headers);
            &&& path.len() == events.len() + 1
            &&& path[0] == session
            &&& path.last() == session.serve(found)->Ok_0
            &&& forall|i: int|
                0 <= i < events.len() ==> resumed(path[i], #[trigger] events[i]) == Ok::<
                    SessionView,
                    CacheErrorView,
                >(path[i + 1])
            &&& forall|i: int| 0 <= i < path.len() ==> !changes_files(#[trigger] path[i].progress)
        }),
{
    let made = session.then_do(ProgressView::MakeBodyDirectory(found));
    let cached = session.then_do(ProgressView::ProbeCached(found));
    let probed = session.then_do(ProgressView::ProbeStored(found));
    let path = present_path(session, status, headers, found);
    let events = present_events(status, headers);
    only_sent_bodies_are_new(made, found);
    bodies_that_are_gone_are_looked_for_again(cached, found, true);
    bodies_that_are_there_are_served(probed, found, true);
    assert(probed.serve(found) == session.serve(found));
    assert forall|i: int| 0 <= i < events.len() implies resumed(path[i], #[trigger] events[i])
        == Ok::<SessionView, CacheErrorView>(path[i + 1]) by {
        assert(i == 0 || i == 1 || i == 2 || i == 3);
    }
}

/// A session goes along a path each of whose steps is what follows from an event.
proof fn run_along(path: Seq<SessionView>, events: Seq<EventView>, i: int)
    requires
        path.len() == events.len() + 1,
        0 <= i <= events.len(),
        forall|j: int|
            0 <= j < events.len() ==> resumed(path[j], #[trigger] events[j]) == Ok::<
                SessionView,
                CacheErrorView,
            >(path[j + 1]),
    ensures
        run(path[0], events.take(i)) == Ok::<SessionView, CacheErrorView>(path[i]),
    decreases i,
{
    if i > 0 {
        run_along(path, events, i - 1);
        let event = events[i - 1];
        run_both(path[0], events.take(i - 1), seq![event]);
        assert(events.take(i - 1) + seq![event] =~= events.take(i));
        run_one(path[i - 1], event, path[i], seq![event]);
    }
}

/// A response whose body is not in the cache yet is stored, and then served: its part file is
/// written, then its index entry, then the part file becomes the body.
#[verifier::rlimit(60)]
#[verifier::spinoff_prover]
pub proof fn new_responses_are_stored(
    session: SessionView,
    status: u16,
    headers: Entries,
    bytes: Seq<u8>,
)
    requires
        session.progress == ProgressView::Fetch(None),
        !is_error_status(status),
        status != 304,
        described(headers, session.regexes.content_to_compress) is Ok,
    ensures
        ({
            let response = described(headers, session.regexes.content_to_compress)->Ok_0;
            let found = FoundView {
                response,
                upstream: Some(status),
                part: body_name(session.route.host, response),
            };
            let opened = seq![
                EventView::Response { status, headers },
                EventView::Done,
                EventView::Exists(false),
                EventView::Done,
                EventView::Exists(false),
                EventView::Bytes(bytes),
            ];
            let done = seq![EventView::Done, EventView::Done, EventView::Done, EventView::Done];
            let written = session.then_do(
                ProgressView::WritePart(found, session.stored(found, bytes)),
            );
            &&& run(session, opened) == Ok::<SessionView, CacheErrorView>(written)
            &&& run(written, done) == session.serve(found)
            &&& session.serve(found) is Ok
        }),
{
    kept_responses_are_told(headers, session.regexes.content_to_compress);
    let response = described(headers, session.regexes.content_to_compress)->Ok_0;
    let found = FoundView {
        response,
        upstream: Some(status),
        part: body_name(session.route.host, response),
    };
    let made = session.then_do(ProgressView::MakeBodyDirectory(found));
    let answer = EventView::Response { status, headers };
    let body = EventView::Bytes(bytes);
    let absent = EventView::Exists(false);
    let done = EventView::Done;
    let events = seq![answer, done, absent, done, absent, body];
    assert(session.with_response(response, Some(status), None) == made);
    run_one(session, answer, made, events);
    assert(events.skip(1) =~= seq![done, absent, done, absent, body]);
    bodies_are_written(session, found, bytes);
    written_bodies_are_served(session, found, bytes);
}

/// The events by which a response is stored whose body is not in the cache yet.
pub open spec fn storing_events(status: u16, headers: Entries, bytes: Seq<u8>) -> Seq<EventView> {
    seq![
        EventView::Response { status, headers },
        EventView::Done,
        EventView::Exists(false),
        EventView::Done,
        EventView::Exists(false),
        EventView::Bytes(bytes),
    ] + seq![EventView::Done, EventView::Done, EventView::Done, EventView::Done]
}

/// The events by which a resource is found whose index entry and body are in the cache.
pub open spec fn finding_events(cache_mode: CacheMode, response: JBHttpResponseView) -> Seq<
    EventView,
> {
    let found = seq![
        EventView::Index(response),
        EventView::Done,
        EventView::Exists(true),
        EventView::Exists(true),
    ];
    if cache_mode == CacheMode::Oneshot {
        seq![EventView::Exists(true)] + found
    } else {
        found
    }
}

/// What has been stored of a response is found again: once an online session has stored it, an
/// offline or oneshot session for the same host and index entry gives a like client the same
/// reply, from what the first wrote to the index entry, and without the upstream.
#[verifier::rlimit(60)]
#[verifier::spinoff_prover]
pub proof fn stored_responses_are_found(
    session: SessionView,
    status: u16,
    headers: Entries,
    bytes: Seq<u8>,
    later: SessionView,
)
    requires
        session.cache_mode == CacheMode::Online,
        session.progress == first_step(session.cache_mode),
        !is_error_status(status),
        status != 304,
        described(headers, session.regexes.content_to_compress) is Ok,
        later.cache_mode != CacheMode::Online,
        later.progress == first_step(later.cache_mode),
        later.route.host == session.route.host,
        later.route.index == session.route.index,
        later.route.br == session.route.br,
    ensures
        ({
            let response = described(headers, session.regexes.content_to_compress)->Ok_0;
            let events = storing_events(status, headers, bytes);
            &&& run(session, events.take(8)) matches Ok(writing) && writing.progress
                matches ProgressView::WriteIndex(found) && found.response == response
            &&& run(session, events) matches Ok(stored) && stored.progress is Serve && (run(
                later,
                finding_events(later.cache_mode, response),
            ) matches Ok(served) && served.progress == stored.progress)
            &&& forall|i: int|
                #![trigger finding_events(later.cache_mode, response)[i]]
                0 <= i < finding_events(later.cache_mode, response).len() ==> !(finding_events(
                    later.cache_mode,
                    response,
                )[i] is Response)
        }),
{
    let response = described(headers, session.regexes.content_to_compress)->Ok_0;
    let found = FoundView {
        response,
        upstream: Some(status),
        part: body_name(session.route.host, response),
    };
    let events = storing_events(status, headers, bytes);
    let done = seq![EventView::Done, EventView::Done, EventView::Done, EventView::Done];
    let written = session.then_do(ProgressView::WritePart(found, session.stored(found, bytes)));
    new_responses_are_stored(session, status, headers, bytes);
    run_both(session, events.take(6), done);
    run_both(session, events.take(6), done.take(2));
    assert(events.take(6) =~= seq![
        EventView::Response { status, headers },
        EventView::Done,
        EventView::Exists(false),
        EventView::Done,
        EventView::Exists(false),
        EventView::Bytes(bytes),
    ]);
    assert(events.take(6) + done =~= events);
    assert(events.take(6) + done.take(2) =~= events.take(8));
    let placed = session.then_do(ProgressView::MakeIndexDirectory(found));
    let entered = session.then_do(ProgressView::WriteIndex(found));
    run_one(written, EventView::Done, placed, done.take(2));
    run_one(placed, EventView::Done, entered, done.take(2).skip(1));
    let reading = later.then_do(ProgressView::ReadIndex(None));
    cached_resources_are_served(reading, response);
    if later.cache_mode == CacheMode::Oneshot {
        let found_events = finding_events(later.cache_mode, response);
        run_one(later, EventView::Exists(true), reading, found_events);
        assert(found_events.skip(1) =~= finding_events(CacheMode::Offline, response));
    } else {
        assert(later == reading);
    }
}

/// Some events and then others are all of them.
proof fn run_both(session: SessionView, first: Seq<EventView>, second: Seq<EventView>)
    ensures
        run(session, first + second) == (match run(session, first) {
            Ok(next) => run(next, second),
            Err(error) => Err(error),
        }),
    decreases first.len(),
{
    if first.len() == 0 {
        assert(first + second =~= second);
    } else {
        assert((first + second).skip(1) =~= first.skip(1) + second);
        if let Ok(next) = resumed(session, first[0]) {
            run_both(next, first.skip(1), second);
        }
    }
}

/// What the upstream has sent is written to its part file, where the body is not there yet.
#[verifier::rlimit(60)]
#[verifier::spinoff_prover]
proof fn bodies_are_written(session: SessionView, found: FoundView, bytes: Seq<u8>)
    requires
        fresh(found),
        told(found.response) is Ok,
    ensures
        run(
            session.then_do(ProgressView::MakeBodyDirectory(found)),
            seq![
                EventView::Done,
                EventView::Exists(false),
                EventView::Done,
                EventView::Exists(false),
                EventView::Bytes(bytes),
            ],
        ) == Ok::<SessionView, CacheErrorView>(
            session.then_do(ProgressView::WritePart(found, session.stored(found, bytes))),
        ),
{
    let made = session.then_do(ProgressView::MakeBodyDirectory(found));
    let probed = session.then_do(ProgressView::ProbeStored(found));
    let opened = session.then_do(ProgressView::OpenPart(found));
    let locked = session.then_do(ProgressView::ProbeLocked(found));
    let asked = session.then_do(ProgressView::ReadBytes(found));
    let written = session.then_do(ProgressView::WritePart(found, session.stored(found, bytes)));
    let body = EventView::Bytes(bytes);
    let absent = EventView::Exists(false);
    let done = EventView::Done;
    let events = seq![done, absent, done, absent, body];
    run_one(made, done, probed, events);
    run_one(probed, absent, opened, events.skip(1));
    run_one(opened, done, locked, events.skip(1).skip(1));
    run_one(locked, absent, asked, events.skip(1).skip(1).skip(1));
    run_one(asked, body, written, events.skip(1).skip(1).skip(1).skip(1));
}

/// What has been written to its part file becomes the body, and is served.
proof fn written_bodies_are_served(session: SessionView, found: FoundView, bytes: Seq<u8>)
    requires
        session.serve(found) is Ok,
    ensures
        run(
            session.then_do(ProgressView::WritePart(found, session.stored(found, bytes))),
            seq![EventView::Done, EventView::Done, EventView::Done, EventView::Done],
        ) == session.serve(found),
{
    let written = session.then_do(ProgressView::WritePart(found, session.stored(found, bytes)));
    let placed = session.then_do(ProgressView::MakeIndexDirectory(found));
    let entered = session.then_do(ProgressView::WriteIndex(found));
    let moved = session.then_do(ProgressView::MovePart(found));
    let done = EventView::Done;
    let events = seq![done, done, done, done];
    run_one(written, done, placed, events);
    run_one(placed, done, entered, events.skip(1));
    run_one(entered, done, moved, events.skip(1).skip(1));
    run_one(moved, done, session.serve(found)->Ok_0, events.skip(1).skip(1).skip(1));
}

/// Where a session goes from its first event on.
proof fn run_one(
    session: SessionView,
    event: EventView,
    next: SessionView,
    events: Seq<EventView>,
)
    requires
        events.len() > 0,
        events[0] == event,
        resumed(session, event) == Ok::<SessionView, CacheErrorView>(next),
    ensures
        run(session, events) == run(next, events.skip(1)),
        events.len() == 1 ==> run(session, events) == Ok::<SessionView, CacheErrorView>(next),
{
    reveal_with_fuel(run, 2);
}

/// A client is told of a kept response what the upstream told of it: its entity tag, and its
/// content type where it has one.
pub proof fn kept_responses_are_told(entries: Entries, content_to_compress: Regex)
    requires
        described(entries, content_to_compress) is Ok,
    ensures
        told(described(entries, content_to_compress)->Ok_0) matches Ok(answer) && {
            &&& first_value(answer, "etag"@) == first_value(entries, "etag"@)
            &&& first_value(answer, "content-type"@) == first_value(entries, "content-type"@)
        },
{
    reply_names_differ();
    visible_text_is_kept(first_value(entries, "etag"@)->0);
    if let Some(content_type) = first_value(entries, "content-type"@) {
        visible_text_is_kept(content_type);
    }
}

/// A visible header value is the same after it has been read as text.
pub proof fn visible_text_is_kept(value: Seq<u8>)
    requires
        value_visible(value),
    ensures
        encode_utf8(ascii_text(value)) == value,
        value_allowed(value),
{
    let text = ascii_text(value);
    assert forall|i: int| 0 <= i < text.len() implies '\0' <= #[trigger] text[i] <= '\u{7f}' by {
        assert(text[i] == value[i] as char);
    }
    is_ascii_chars_encode_utf8(text);
    assert forall|i: int| 0 <= i < value.len() implies encode_utf8(text)[i] == value[i] by {
        assert(text[i] as u8 == encode_utf8(text)[i]);
    }
    assert(encode_utf8(text) =~= value);
}

/// On one host, bodies that are stored alike under different entity tags have different names.
pub proof fn bodies_have_their_names(
    host: Seq<char>,
    one: JBHttpResponseView,
    other: JBHttpResponseView,
)
    requires
        one.compressed == other.compressed,
        body_name(host, one) == body_name(host, other),
    ensures
        one.etag == other.etag,
{
    let name = body_name(host, one);
    let before_tag = (host + "/"@).len() as int;
    reveal_strlit("");
    let mark = if one.compressed {
        ".br"@
    } else {
        ""@
    };
    let end = name.len() - mark.len();
    assert(name.subrange(before_tag, end) =~= one.etag);
    assert(name.subrange(before_tag, end) =~= other.etag);
}

/// The name of a body is one that every system divides alike, unless its entity tag has a backslash
/// in it or its host is none.
pub proof fn body_names_are_portable(host: Seq<char>, response: JBHttpResponseView)
    requires
        host.len() > 0,
        host[0] != '/',
        !host.contains('\\'),
        !response.etag.contains('\\'),
    ensures
        portable(body_name(host, response)),
{
    let name = body_name(host, response);
    let mark = if response.compressed {
        ".br"@
    } else {
        ""@
    };
    reveal_strlit("/");
    reveal_strlit(".br");
    reveal_strlit("");
    assert(name[host.len() as int] == '/');
    assert forall|i: int| 0 <= i < name.len() implies name[i] != '\\' by {
        let tag = host.len() + 1;
        if i < host.len() {
            assert(host.contains(host[i]));
        } else if tag <= i < tag + response.etag.len() {
            assert(name[i] == response.etag[i - tag]);
            assert(response.etag.contains(response.etag[i - tag]));
        } else if tag + response.etag.len() <= i {
            assert(name[i] == mark[i - tag - response.etag.len()]);
        }
    }
}

/// A part file lies beside its body, and is not the body.
pub proof fn part_files_lie_beside_their_bodies(body: Seq<char>)
    requires
        names_file(body),
    ensures
        directory(part_of(body)) == directory(body),
        part_of(body) != body,
{
    let name = last_segment(body);
    let ending = stem(name) + "."@ + "part.br"@;
    let part = part_of(body);
    reveal_strlit(".");
    reveal_strlit("part.br");
    after_last_properties(body, '/');
    after_last_properties(name, '.');
    let start = directory(body).len() as int;
    assert(part =~= directory(body) + ending);
    assert forall|j: int| start <= j < part.len() implies part[j] != '/' by {
        assert(part[j] == ending[j - start]);
        if j - start < stem(name).len() {
            assert(ending[j - start] == name[j - start]);
            assert(name.contains(name[j - start]));
        }
    }
    after_last_is(part, '/', start);
    assert(directory(part) =~= directory(body));
    if part == body {
        assert(name =~= ending) by {
            assert(body =~= directory(body) + name);
            assert(body.skip(start) =~= name);
            assert(part.skip(start) =~= ending);
        }
        let dot = name.len() - 3;
        assert(ending[dot] == '.');
        after_last_is(name, '.', dot + 1);
        assert(stem(name).len() == dot);
    }
}

/// Bodies that differ in nothing but the extension have one part file.
pub proof fn part_files_are_shared(body: Seq<char>, extension: Seq<char>)
    requires
        names_file(body),
        !extension.contains('.'),
        !extension.contains('/'),
    ensures
        part_of(body + "."@ + extension) == body + ".part.br"@,
{
    let longer = body + "."@ + extension;
    let name = last_segment(body);
    let start = directory(body).len() as int;
    reveal_strlit(".");
    reveal_strlit("..");
    reveal_strlit("part.br");
    reveal_strlit(".part.br");
    after_last_properties(body, '/');
    assert forall|j: int| start <= j < longer.len() implies longer[j] != '/' by {
        if j < body.len() {
            assert(name[j - start] == body[j]);
            assert(name.contains(name[j - start]));
        } else if j > body.len() {
            assert(longer[j] == extension[j - body.len() - 1]);
            assert(extension.contains(longer[j]));
        }
    }
    after_last_is(longer, '/', start);
    let segment = last_segment(longer);
    assert(segment =~= name + "."@ + extension);
    assert forall|j: int| name.len() + 1 <= j < segment.len() implies segment[j] != '.' by {
        assert(segment[j] == extension[j - name.len() - 1]);
        assert(extension.contains(segment[j]));
    }
    after_last_is(segment, '.', name.len() as int + 1);
    assert(stem(segment) =~= name);
    assert(directory(longer) =~= directory(body));
    assert(segment != "."@ && segment != ".."@) by {
        if segment == ".."@ {
            assert(name.len() == 1);
            assert(name[0] == segment[0]);
            assert(name =~= "."@);
        }
    }
    assert(part_of(longer) =~= body + ".part.br"@);
}

/// Each link makes a text longer by the proxy's host and two characters, and nothing else about
/// a text changes its length.
pub proof fn links_lengthen(
    text: Seq<char>,
    spans: Seq<(int, int)>,
    accessible_host: Seq<char>,
    start: int,
)
    requires
        0 <= start,
        spans_in_order(spans, start, text.len() as int),
    ensures
        relinked(text, spans, accessible_host, start).len() == text.len() - start + spans.len() * (
        accessible_host.len() + 2),
    decreases spans.len(),
{
    if spans.len() > 0 {
        reveal_strlit("/@");
        spans_are_within(spans, start, text.len() as int);
        links_lengthen(text, spans.skip(1), accessible_host, spans[0].1);
        assert(spans.len() * (accessible_host.len() + 2) == (spans.len() - 1) * (
        accessible_host.len() + 2) + (accessible_host.len() + 2)) by (nonlinear_arith);
    }
}

/// Spans that follow one another within a text start within it.
pub proof fn spans_are_within(spans: Seq<(int, int)>, start: int, len: int)
    requires
        spans_in_order(spans, start, len),
    ensures
        start <= len,
        spans.len() > 0 ==> start <= spans[0].0 <= spans[0].1 <= len,
    decreases spans.len(),
{
    if spans.len() > 0 {
        spans_are_within(spans.skip(1), spans[0].1, len);
    }
}

/// A request that fails on the way is answered with a status that says so: that the resource was
/// not found, that the upstream response cannot be kept, that something went wrong here, or what
/// the upstream said.
pub proof fn failures_are_told(session: SessionView, event: EventView)
    requires
        resumed(session, event) is Err,
    ensures
        ({
            let error = resumed(session, event)->Err_0;
            if error.fault == Fault::Upstream {
                is_error_status(error.status)
            } else {
                error.status == 404 || error.status == 422 || error.status == 500
            }
        }),
{
}

}
