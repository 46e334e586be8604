//! What the views show: of every value everything that it holds.

use axum::http::uri::PathAndQuery;
use axum::http::HeaderMap;
use vstd::prelude::*;

use crate::fault::{outcome, CacheError, CacheErrorView, Fault};
use crate::http::{header_entries, header_outcome, target_text};
use crate::response::JBHttpResponse;
use crate::route::{target_view, Route, RouteView};
use crate::session::{Event, EventView, Found, Progress, ProgressView, Reply, Session};

verus! {

/// A route is shown with its URI, host, index entry and headers, and whether the client accepts
/// brotli.
pub proof fn routes_are_shown_whole(route: Route)
    ensures
        route@.uri == route.uri@,
        route@.host == route.host@,
        route@.index == route.index@,
        route@.headers == header_entries(route.headers),
        route@.br == route.br,
{
}

/// A kept response is shown with its entity tag and content type, and whether it is compressed.
pub proof fn responses_are_shown_whole(response: JBHttpResponse)
    ensures
        response@.etag == response.etag@,
        response@.content_type is Some <==> response.content_type is Some,
        response.content_type matches Some(text) ==> response@.content_type == Some(text@),
        response@.compressed == response.compressed,
{
}

/// An error is shown with its fault, status and message.
pub proof fn errors_are_shown_whole(error: CacheError)
    ensures
        error@.fault == error.fault,
        error@.status == error.status,
        error@.message == error.message@,
{
}

/// What may have failed is shown as what it is, or as its error.
pub proof fn outcomes_are_shown_whole(
    route: Route,
    session: Session,
    response: JBHttpResponse,
    headers: HeaderMap,
    error: CacheError,
)
    ensures
        outcome::<Route>(Ok(route)) == Ok::<RouteView, CacheErrorView>(route@),
        outcome::<Route>(Err(error)) == Err::<RouteView, CacheErrorView>(error@),
        outcome::<Session>(Ok(session)) matches Ok(shown) && shown == session@,
        outcome::<Session>(Err(error)) matches Err(shown) && shown == error@,
        outcome::<JBHttpResponse>(Ok(response)) matches Ok(shown) && shown == response@,
        outcome::<JBHttpResponse>(Err(error)) matches Err(shown) && shown == error@,
        header_outcome(Ok(headers)) matches Ok(shown) && shown == header_entries(headers),
        header_outcome(Err(error)) matches Err(shown) && shown == error@,
{
}

/// A session is shown with its route, its mode, the host that the client reaches the proxy at, its
/// expressions and what is to be done next.
pub proof fn sessions_are_shown_whole(session: Session)
    ensures
        session@.route == session.route@,
        session@.cache_mode == session.cache_mode,
        session@.accessible_host == session.accessible_host@,
        session@.regexes == *session.regexes,
        session@.progress == session.progress@,
{
}

/// What is known of a resource is shown with its response, status and part file, and a reply with
/// its status, headers and body, and how that is sent.
pub proof fn findings_and_replies_are_shown_whole(found: Found, reply: Reply)
    ensures
        found@.response == found.response@,
        found@.upstream == found.upstream,
        found@.part == found.part@,
        reply@.status == reply.status,
        reply@.headers == header_entries(reply.headers),
        reply@.body == reply.body@,
        reply@.br == reply.br,
        reply@.decode == reply.decode,
{
}

/// A step is shown as the step that it is, with what it holds.
pub proof fn steps_are_shown_whole(found: Found, bytes: Vec<u8>, reply: Reply, name: String)
    ensures
        Progress::ProbeIndex@ == ProgressView::ProbeIndex,
        Progress::Fetch(None)@ == ProgressView::Fetch(None),
        Progress::Fetch(Some(name))@ == ProgressView::Fetch(Some(name@)),
        Progress::ReadIndex(None)@ == ProgressView::ReadIndex(None),
        Progress::ReadIndex(Some(name))@ == ProgressView::ReadIndex(Some(name@)),
        Progress::MakeBodyDirectory(found)@ == ProgressView::MakeBodyDirectory(found@),
        Progress::ProbeCached(found)@ == ProgressView::ProbeCached(found@),
        Progress::ProbeStored(found)@ == ProgressView::ProbeStored(found@),
        Progress::OpenPart(found)@ == ProgressView::OpenPart(found@),
        Progress::ProbeLocked(found)@ == ProgressView::ProbeLocked(found@),
        Progress::DropPart(found)@ == ProgressView::DropPart(found@),
        Progress::ReadBytes(found)@ == ProgressView::ReadBytes(found@),
        Progress::WritePart(found, bytes)@ == ProgressView::WritePart(found@, bytes@),
        Progress::MakeIndexDirectory(found)@ == ProgressView::MakeIndexDirectory(found@),
        Progress::WriteIndex(found)@ == ProgressView::WriteIndex(found@),
        Progress::MovePart(found)@ == ProgressView::MovePart(found@),
        Progress::Serve(reply)@ == ProgressView::Serve(reply@),
{
}

/// An event is shown as the event that it is, with what it tells; and so is an optional path and
/// query.
pub proof fn events_are_shown_whole(
    there: bool,
    status: u16,
    headers: HeaderMap,
    response: JBHttpResponse,
    bytes: Vec<u8>,
    fault: Fault,
    subject: String,
    destination: String,
    target: PathAndQuery,
)
    ensures
        Event::Exists(there)@ == EventView::Exists(there),
        (Event::Response { status, headers })@ == (EventView::Response {
            status,
            headers: header_entries(headers),
        }),
        Event::Index(response)@ == EventView::Index(response@),
        Event::Bytes(bytes)@ == EventView::Bytes(bytes@),
        Event::Done@ == EventView::Done,
        (Event::Failed { fault, subject, destination })@ == (EventView::Failed {
            fault,
            subject: subject@,
            destination: destination@,
        }),
        target_view(None) is None,
        target_view(Some(target)) == Some(target_text(target)),
{
}

}
