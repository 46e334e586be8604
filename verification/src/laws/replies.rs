//! What clients are told.

use regex::Regex;
use vstd::prelude::*;
use vstd::string::*;
use vstd::utf8::*;

use crate::fault::{CacheErrorView, Fault};
use crate::http::{first_value, Entries};
use crate::laws::{found_in, run, visible_text_is_kept};
use crate::response::{described, replied, reply_names_differ, told, JBHttpResponseView};
use crate::rewrite::regex_matches;
use crate::session::{resumed, EventView, FoundView, ProgressView, SessionView};

verus! {

/// Of a response its entity tag and its content type are kept, character for character, and
/// whether the expression matches its content type. It cannot be kept without an entity tag, nor
/// where one of the two is no visible text.
pub proof fn responses_are_kept_as_they_came(entries: Entries, content_to_compress: Regex)
    ensures
        ({
            let res = described(entries, content_to_compress);
            let etag = entries["etag"@][0];
            let content_type = entries["content-type"@][0];
            let typed = entries.contains_key("content-type"@);
            if !entries.contains_key("etag"@) {
                res matches Err(error) && error.fault == Fault::EtagMissing && error.status == 500
                    && error.message == "Etag was not present in response"@
            } else if !(forall|i: int|
                0 <= i < etag.len() ==> (32 <= #[trigger] etag[i] < 127) || etag[i] == 9) {
                res matches Err(error) && error.fault == Fault::EtagText && error.status == 422
                    && error.message == "Etag was not valid UTF-8"@
            } else if typed && !(forall|i: int|
                0 <= i < content_type.len() ==> (32 <= #[trigger] content_type[i] < 127)
                    || content_type[i] == 9) {
                res matches Err(error) && error.fault == Fault::ContentTypeText && error.status
                    == 422 && error.message == "Content-Type was not valid UTF-8"@
            } else {
                res matches Ok(response) && {
                    &&& response.etag.len() == etag.len()
                    &&& forall|i: int|
                        0 <= i < etag.len() ==> #[trigger] response.etag[i] == etag[i] as char
                    &&& response.content_type is Some <==> typed
                    &&& response.content_type matches Some(text) ==> {
                        &&& text.len() == content_type.len()
                        &&& forall|i: int|
                            0 <= i < text.len() ==> #[trigger] text[i] == content_type[i] as char
                        &&& response.compressed == regex_matches(content_to_compress, text)
                    }
                    &&& !typed ==> !response.compressed
                }
            }
        }),
{
    reveal_strlit("");
    if let Err(error) = described(entries, content_to_compress) {
        if error.fault == Fault::EtagMissing {
            assert(error.message =~= "Etag was not present in response"@);
        } else if error.fault == Fault::EtagText {
            assert(error.message =~= "Etag was not valid UTF-8"@);
        } else {
            assert(error.message =~= "Content-Type was not valid UTF-8"@);
        }
    }
}

/// A reply has the kept entity tag, the kept content type where there is one, the coding where the
/// body is stored compressed and the client accepts that, and nothing else. There is none where a
/// header cannot hold the entity tag or the content type.
pub proof fn replies_tell_what_is_kept(response: JBHttpResponseView, br: bool)
    ensures
        ({
            let res = replied(response, br);
            let etag = encode_utf8(response.etag);
            let content_type = encode_utf8(response.content_type->0);
            if !(forall|i: int|
                0 <= i < etag.len() ==> (32 <= #[trigger] etag[i] && etag[i] != 127) || etag[i]
                    == 9) {
                res matches Err(error) && error.fault == Fault::EtagHeader && error.status == 500
                    && error.message == "Failed to convert Etag from String to HeaderValue"@
            } else if response.content_type is Some && !(forall|i: int|
                0 <= i < content_type.len() ==> (32 <= #[trigger] content_type[i]
                    && content_type[i] != 127) || content_type[i] == 9) {
                res matches Err(error) && error.fault == Fault::ContentTypeHeader && error.status
                    == 500 && error.message
                    == "Failed to convert Content-Type from String to HeaderValue"@
            } else {
                res matches Ok(entries) && {
                    &&& entries.contains_key("etag"@)
                    &&& entries["etag"@] == seq![etag]
                    &&& entries.contains_key("content-type"@) <==> response.content_type is Some
                    &&& response.content_type is Some ==> entries["content-type"@] == seq![
                        content_type,
                    ]
                    &&& entries.contains_key("content-encoding"@) <==> br && response.compressed
                    &&& br && response.compressed ==> entries["content-encoding"@] == seq![
                        encode_utf8("br"@),
                    ]
                    &&& forall|name: Seq<char>| #[trigger]
                        entries.contains_key(name) ==> name == "etag"@ || name == "content-type"@
                            || name == "content-encoding"@
                }
            }
        }),
{
    reply_names_differ();
    reveal_strlit("");
    if let Err(error) = replied(response, br) {
        if error.fault == Fault::EtagHeader {
            assert(error.message =~= "Failed to convert Etag from String to HeaderValue"@);
        } else {
            assert(error.message
                =~= "Failed to convert Content-Type from String to HeaderValue"@);
        }
    }
}

/// What tells of a kept response is the reply to a client that does not accept brotli.
pub proof fn kept_responses_are_told_without_a_coding(response: JBHttpResponseView)
    ensures
        told(response) == replied(response, false),
{
}

/// A reply is a success, from the body under the host and the entity tag, marked where that is
/// compressed; it is decompressed exactly where it is compressed and the client does not accept
/// that. There is a reply wherever there are headers for one, and nothing but what is to be done
/// next changes.
pub proof fn replies_come_from_the_stored_body(session: SessionView, found: FoundView)
    ensures
        match replied(found.response, session.route.br) {
            Err(refusal) => session.serve(found) matches Err(error) && error == refusal,
            Ok(headers) => session.serve(found) matches Ok(next) && {
                &&& next == (SessionView { progress: next.progress, ..session })
                &&& next.progress matches ProgressView::Serve(reply) && {
                    &&& reply.status == 200
                    &&& reply.headers == headers
                    &&& reply.br == session.route.br
                    &&& reply.decode <==> found.response.compressed && !session.route.br
                    &&& found.response.compressed ==> reply.body == session.route.host + "/"@
                        + found.response.etag + ".br"@
                    &&& !found.response.compressed ==> reply.body == session.route.host + "/"@
                        + found.response.etag
                }
            },
        },
{
    reveal_strlit("");
    assert(session.route.host + "/"@ + found.response.etag + ""@ =~= session.route.host + "/"@
        + found.response.etag);
}

/// Whether nothing in a session tells of another response than `response`, until the upstream is
/// asked or the index entry is read again.
spec fn speaks_of(session: SessionView, response: JBHttpResponseView, host: Seq<char>) -> bool {
    &&& session.route.host == host
    &&& found_in(session.progress) matches Some(found) ==> found.response == response
    &&& session.progress matches ProgressView::Serve(reply) ==> {
        &&& replied(response, session.route.br) matches Ok(headers) && headers == reply.headers
        &&& response.compressed ==> reply.body == host + "/"@ + response.etag + ".br"@
        &&& !response.compressed ==> reply.body == host + "/"@ + response.etag
        &&& reply.decode <==> response.compressed && !session.route.br
    }
}

/// One event that brings no other response leaves the session speaking of the same.
proof fn speaking_goes_on(
    session: SessionView,
    event: EventView,
    response: JBHttpResponseView,
    host: Seq<char>,
)
    requires
        speaks_of(session, response, host),
        !(event is Response),
        !(event is Index),
        resumed(session, event) is Ok,
    ensures
        speaks_of(resumed(session, event)->Ok_0, response, host),
{
    let next = resumed(session, event)->Ok_0;
    if next.progress is Serve && !(session.progress is Serve) {
        let found = found_in(session.progress)->0;
        replies_come_from_the_stored_body(session, found);
        assert(session.serve(found) == Ok::<SessionView, CacheErrorView>(next));
    }
}

/// Any number of such events does.
proof fn speaking_lasts(
    session: SessionView,
    events: Seq<EventView>,
    response: JBHttpResponseView,
    host: Seq<char>,
)
    requires
        speaks_of(session, response, host),
        forall|i: int|
            0 <= i < events.len() ==> !(#[trigger] events[i] is Response) && !(events[i] is Index),
        run(session, events) is Ok,
    ensures
        speaks_of(run(session, events)->Ok_0, response, host),
    decreases events.len(),
{
    if events.len() > 0 {
        let next = resumed(session, events[0])->Ok_0;
        speaking_goes_on(session, events[0], response, host);
        let rest = events.skip(1);
        assert forall|i: int| 0 <= i < rest.len() implies !(#[trigger] rest[i] is Response) && !(
        rest[i] is Index) by {
            assert(rest[i] == events[i + 1]);
        }
        speaking_lasts(next, rest, response, host);
    }
}

/// Where an answer of the upstream leads to a reply, whatever happens in between, the client is
/// told the entity tag and the content type that the upstream told, and is sent the body that is
/// under that entity tag.
pub proof fn clients_are_told_what_the_upstream_said(
    session: SessionView,
    status: u16,
    headers: Entries,
    events: Seq<EventView>,
)
    requires
        session.progress is Fetch,
        forall|i: int|
            0 <= i < events.len() ==> !(#[trigger] events[i] is Response) && !(events[i] is Index),
        run(session, seq![EventView::Response { status, headers }] + events) is Ok,
        run(
            session,
            seq![EventView::Response { status, headers }] + events,
        )->Ok_0.progress is Serve,
    ensures
        run(
            session,
            seq![EventView::Response { status, headers }] + events,
        )->Ok_0.progress matches ProgressView::Serve(reply) && {
            &&& headers.contains_key("etag"@)
            &&& first_value(reply.headers, "etag"@) == first_value(headers, "etag"@)
            &&& first_value(reply.headers, "content-type"@) == first_value(
                headers,
                "content-type"@,
            )
            &&& exists|tag: Seq<char>|
                {
                    &&& encode_utf8(tag) == headers["etag"@][0]
                    &&& reply.body == session.route.host + "/"@ + tag || reply.body
                        == #[trigger] (session.route.host + "/"@ + tag) + ".br"@
                }
        },
{
    let event = EventView::Response { status, headers };
    let all = seq![event] + events;
    assert(all.skip(1) =~= events);
    let next = resumed(session, event)->Ok_0;
    let response = described(headers, session.regexes.content_to_compress)->Ok_0;
    speaking_lasts(next, events, response, session.route.host);
    let end = run(next, events)->Ok_0;
    let reply = end.progress->Serve_0;
    replies_tell_what_is_kept(response, end.route.br);
    visible_text_is_kept(headers["etag"@][0]);
    if headers.contains_key("content-type"@) {
        visible_text_is_kept(headers["content-type"@][0]);
    }
    assert(encode_utf8(response.etag) == headers["etag"@][0]);
    let _ = session.route.host + "/"@ + response.etag;
}

/// Where an index entry leads to a reply without the upstream, the client is told what the entry
/// says, and is sent the body that the entry names.
pub proof fn clients_are_told_what_the_index_says(
    session: SessionView,
    response: JBHttpResponseView,
    events: Seq<EventView>,
)
    requires
        session.progress is ReadIndex,
        forall|i: int|
            0 <= i < events.len() ==> !(#[trigger] events[i] is Response) && !(events[i] is Index),
        run(session, seq![EventView::Index(response)] + events) is Ok,
        run(session, seq![EventView::Index(response)] + events)->Ok_0.progress is Serve,
    ensures
        run(
            session,
            seq![EventView::Index(response)] + events,
        )->Ok_0.progress matches ProgressView::Serve(reply) && {
            &&& first_value(reply.headers, "etag"@) == Some(encode_utf8(response.etag))
            &&& first_value(reply.headers, "content-type"@) == match response.content_type {
                Some(content_type) => Some(encode_utf8(content_type)),
                None => None,
            }
            &&& response.compressed ==> reply.body == session.route.host + "/"@ + response.etag
                + ".br"@
            &&& !response.compressed ==> reply.body == session.route.host + "/"@ + response.etag
        },
{
    let event = EventView::Index(response);
    let all = seq![event] + events;
    assert(all.skip(1) =~= events);
    let next = resumed(session, event)->Ok_0;
    speaking_lasts(next, events, response, session.route.host);
    let end = run(next, events)->Ok_0;
    replies_tell_what_is_kept(response, end.route.br);
}

}
