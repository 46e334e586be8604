//! One request, step by step: what is to be done next, and what follows from how it went.

use std::sync::Arc;

use axum::http::HeaderMap;
use regex::Regex;
use vstd::prelude::*;
use vstd::string::*;

use crate::fault::{
    error_about, outcome, upstream_error, CacheError, CacheErrorView, Circumstances, Fault,
};
use crate::http::{header_entries, header_remove, Entries};
use crate::response::{
    described, holds_links, replied, told, JBHttpResponse, JBHttpResponseView,
};
use crate::rewrite::{rewrite_body, rewritten};
use crate::route::{Route, RouteView};

verus! {

/// When the upstream is asked.
#[derive(Clone, Copy, Debug, PartialEq, Eq, Structural)]
pub enum CacheMode {
    /// For every request.
    Online,
    /// Not before the cache has been.
    Offline,
    /// Once for each resource.
    Oneshot,
}

/// The regular expressions that the cache goes by.
pub struct Regexes {
    /// Matches the content types of bodies that are stored compressed.
    pub content_to_compress: Regex,
    /// Matches the hosts that the proxy may be used with.
    pub jackbox_urls: Regex,
}

/// What is known of a resource once its headers or its index entry have been read.
pub struct Found {
    pub response: JBHttpResponse,
    /// The status of the upstream response; none where the index entry was read.
    pub upstream: Option<u16>,
    /// The name of the body, below the cache directory, that the part file is named after.
    pub part: String,
}

/// The reply to the client.
pub struct Reply {
    pub status: u16,
    pub headers: HeaderMap,
    /// The name of the stored body, below the cache directory.
    pub body: String,
    /// Whether the client accepts brotli, so that the stored body is sent as it is.
    pub br: bool,
    /// Whether the stored body is to be decompressed.
    pub decode: bool,
}

/// What is to be done next.
pub enum Progress {
    /// See whether there is an index entry.
    ProbeIndex,
    /// Send the request upstream; on a second attempt, with the name of the part file.
    Fetch(Option<String>),
    /// Read the index entry; on a second attempt, with the name of the part file.
    ReadIndex(Option<String>),
    /// Make the directory of the body.
    MakeBodyDirectory(Found),
    /// See whether the body is there, to know whether to try again.
    ProbeCached(Found),
    /// See whether the body is there, to know whether to store it.
    ProbeStored(Found),
    /// Open and lock the part file.
    OpenPart(Found),
    /// See whether the body has come in the meantime.
    ProbeLocked(Found),
    /// Unlock and remove the part file.
    DropPart(Found),
    /// Read the body of the upstream response.
    ReadBytes(Found),
    /// Write the body to the part file, in the form in which it is stored.
    WritePart(Found, Vec<u8>),
    /// Make the directory of the index entry.
    MakeIndexDirectory(Found),
    /// Write the index entry.
    WriteIndex(Found),
    /// Move the part file to where the body belongs.
    MovePart(Found),
    /// Send the reply.
    Serve(Reply),
}

/// How what was to be done went.
pub enum Event {
    /// Whether the file is there.
    Exists(bool),
    /// The upstream response.
    Response { status: u16, headers: HeaderMap },
    /// The index entry.
    Index(JBHttpResponse),
    /// The body of the upstream response.
    Bytes(Vec<u8>),
    /// It is done.
    Done,
    /// It could not be done, on account of `subject`, or of its move to `destination`.
    Failed { fault: Fault, subject: String, destination: String },
}

/// One request.
pub struct Session {
    pub route: Route,
    pub cache_mode: CacheMode,
    /// Where the client reaches the proxy.
    pub accessible_host: String,
    pub regexes: Arc<Regexes>,
    pub progress: Progress,
}

/// The view of a `Found`.
#[verifier::ext_equal]
pub struct FoundView {
    pub response: JBHttpResponseView,
    pub upstream: Option<u16>,
    pub part: Seq<char>,
}

/// The view of a `Reply`.
#[verifier::ext_equal]
pub struct ReplyView {
    pub status: u16,
    pub headers: Entries,
    pub body: Seq<char>,
    pub br: bool,
    pub decode: bool,
}

/// The view of a `Progress`.
#[verifier::ext_equal]
pub enum ProgressView {
    ProbeIndex,
    Fetch(Option<Seq<char>>),
    ReadIndex(Option<Seq<char>>),
    MakeBodyDirectory(FoundView),
    ProbeCached(FoundView),
    ProbeStored(FoundView),
    OpenPart(FoundView),
    ProbeLocked(FoundView),
    DropPart(FoundView),
    ReadBytes(FoundView),
    WritePart(FoundView, Seq<u8>),
    MakeIndexDirectory(FoundView),
    WriteIndex(FoundView),
    MovePart(FoundView),
    Serve(ReplyView),
}

/// The view of an `Event`.
#[verifier::ext_equal]
pub enum EventView {
    Exists(bool),
    Response { status: u16, headers: Entries },
    Index(JBHttpResponseView),
    Bytes(Seq<u8>),
    Done,
    Failed { fault: Fault, subject: Seq<char>, destination: Seq<char> },
}

/// The view of a `Session`.
#[verifier::ext_equal]
pub struct SessionView {
    pub route: RouteView,
    pub cache_mode: CacheMode,
    pub accessible_host: Seq<char>,
    pub regexes: Regexes,
    pub progress: ProgressView,
}

impl View for Found {
    type V = FoundView;

    open spec fn view(&self) -> FoundView {
        FoundView { response: self.response@, upstream: self.upstream, part: self.part@ }
    }
}

impl View for Reply {
    type V = ReplyView;

    open spec fn view(&self) -> ReplyView {
        ReplyView {
            status: self.status,
            headers: header_entries(self.headers),
            body: self.body@,
            br: self.br,
            decode: self.decode,
        }
    }
}

/// The view of an optional name.
pub open spec fn name_view(name: Option<String>) -> Option<Seq<char>> {
    match name {
        Some(name) => Some(name@),
        None => None,
    }
}

impl View for Progress {
    type V = ProgressView;

    open spec fn view(&self) -> ProgressView {
        match *self {
            Progress::ProbeIndex => ProgressView::ProbeIndex,
            Progress::Fetch(part) => ProgressView::Fetch(name_view(part)),
            Progress::ReadIndex(part) => ProgressView::ReadIndex(name_view(part)),
            Progress::MakeBodyDirectory(found) => ProgressView::MakeBodyDirectory(found@),
            Progress::ProbeCached(found) => ProgressView::ProbeCached(found@),
            Progress::ProbeStored(found) => ProgressView::ProbeStored(found@),
            Progress::OpenPart(found) => ProgressView::OpenPart(found@),
            Progress::ProbeLocked(found) => ProgressView::ProbeLocked(found@),
            Progress::DropPart(found) => ProgressView::DropPart(found@),
            Progress::ReadBytes(found) => ProgressView::ReadBytes(found@),
            Progress::WritePart(found, bytes) => ProgressView::WritePart(found@, bytes@),
            Progress::MakeIndexDirectory(found) => ProgressView::MakeIndexDirectory(found@),
            Progress::WriteIndex(found) => ProgressView::WriteIndex(found@),
            Progress::MovePart(found) => ProgressView::MovePart(found@),
            Progress::Serve(reply) => ProgressView::Serve(reply@),
        }
    }
}

impl View for Event {
    type V = EventView;

    open spec fn view(&self) -> EventView {
        match *self {
            Event::Exists(exists) => EventView::Exists(exists),
            Event::Response { status, headers } => EventView::Response {
                status,
                headers: header_entries(headers),
            },
            Event::Index(response) => EventView::Index(response@),
            Event::Bytes(bytes) => EventView::Bytes(bytes@),
            Event::Done => EventView::Done,
            Event::Failed { fault, subject, destination } => EventView::Failed {
                fault,
                subject: subject@,
                destination: destination@,
            },
        }
    }
}

impl View for Session {
    type V = SessionView;

    open spec fn view(&self) -> SessionView {
        SessionView {
            route: self.route@,
            cache_mode: self.cache_mode,
            accessible_host: self.accessible_host@,
            regexes: *self.regexes,
            progress: self.progress@,
        }
    }
}

/// The name of a body: the entity tag below the host, marked where it is stored compressed.
pub open spec fn body_name(host: Seq<char>, response: JBHttpResponseView) -> Seq<char> {
    host + "/"@ + response.etag + if response.compressed {
        ".br"@
    } else {
        ""@
    }
}

/// Whether the upstream sent a body, other than that what the client has is still good.
pub open spec fn fresh(found: FoundView) -> bool {
    found.upstream is Some && found.upstream != Some(304u16)
}

/// Whether a status says that the request failed, by the client's fault or the server's.
pub open spec fn is_error_status(status: u16) -> bool {
    400 <= status < 600
}

/// Which way a request begins: by the index entry, or by asking the upstream.
pub open spec fn first_step(cache_mode: CacheMode) -> ProgressView {
    match cache_mode {
        CacheMode::Online => ProgressView::Fetch(None),
        CacheMode::Offline => ProgressView::ReadIndex(None),
        CacheMode::Oneshot => ProgressView::ProbeIndex,
    }
}

/// The fault where a stored body cannot be read, or decompressed on the way.
pub open spec fn read_fault(decode: bool) -> Fault {
    if decode {
        Fault::BodyDecompress
    } else {
        Fault::BodyRead
    }
}

/// Which faults there can be in what is to be done. A body that is sent as it is stored is only
/// read; of any other the size is read first, and the file is opened.
pub open spec fn can_fail(progress: ProgressView, fault: Fault) -> bool {
    match progress {
        ProgressView::Fetch(_) => fault == Fault::Acquire,
        ProgressView::ReadIndex(_) => fault == Fault::IndexMissing || fault
            == Fault::IndexMalformed,
        ProgressView::MakeBodyDirectory(_) => fault == Fault::BodyParent || fault
            == Fault::BodyDirectory,
        ProgressView::OpenPart(_) => fault == Fault::PartOpen || fault == Fault::PartLock,
        ProgressView::ReadBytes(_) => fault == Fault::BodyBytes,
        ProgressView::WritePart(_, _) => fault == Fault::PartCopy || fault
            == Fault::PartShutdown,
        ProgressView::MakeIndexDirectory(_) => fault == Fault::IndexParent || fault
            == Fault::IndexDirectory,
        ProgressView::WriteIndex(_) => fault == Fault::IndexCreate || fault
            == Fault::IndexSerialize,
        ProgressView::MovePart(_) => fault == Fault::PartMove,
        ProgressView::Serve(reply) => fault == read_fault(reply.decode) || (!reply.br && (fault
            == Fault::BodyMetadata || fault == Fault::BodyOpen)),
        _ => false,
    }
}

/// Whether an event tells how what was to be done went.
pub open spec fn answers(event: EventView, progress: ProgressView) -> bool {
    match event {
        EventView::Exists(_) => progress is ProbeIndex || progress is ProbeCached || progress
            is ProbeStored || progress is ProbeLocked,
        EventView::Response { .. } => progress is Fetch,
        EventView::Index(_) => progress is ReadIndex,
        EventView::Bytes(_) => progress is ReadBytes,
        EventView::Done => progress is MakeBodyDirectory || progress is OpenPart || progress
            is DropPart || progress is WritePart || progress is MakeIndexDirectory || progress
            is WriteIndex || progress is MovePart,
        EventView::Failed { fault, .. } => can_fail(progress, fault),
    }
}

impl SessionView {
    /// The session with something else to be done next.
    pub open spec fn then_do(self, progress: ProgressView) -> SessionView {
        SessionView { progress, ..self }
    }

    /// What follows once a response is known: on the first attempt its directory is made, and
    /// the part file is named after it; on the second the part file keeps its name.
    pub open spec fn with_response(
        self,
        response: JBHttpResponseView,
        upstream: Option<u16>,
        part: Option<Seq<char>>,
    ) -> SessionView {
        match part {
            None => self.then_do(
                ProgressView::MakeBodyDirectory(
                    FoundView { response, upstream, part: body_name(self.route.host, response) },
                ),
            ),
            Some(part) => self.then_do(
                ProgressView::ProbeStored(FoundView { response, upstream, part }),
            ),
        }
    }

    /// The second attempt, for which the upstream is not told what the client has.
    pub open spec fn retry(self, found: FoundView) -> SessionView {
        SessionView {
            route: RouteView {
                headers: self.route.headers.remove("if-none-match"@),
                ..self.route
            },
            progress: if self.cache_mode == CacheMode::Online {
                ProgressView::ReadIndex(Some(found.part))
            } else {
                ProgressView::Fetch(Some(found.part))
            },
            ..self
        }
    }

    /// The reply from the stored body.
    pub open spec fn serve(self, found: FoundView) -> Result<SessionView, CacheErrorView> {
        match replied(found.response, self.route.br) {
            Ok(headers) => Ok(
                self.then_do(
                    ProgressView::Serve(
                        ReplyView {
                            status: 200,
                            headers,
                            body: body_name(self.route.host, found.response),
                            br: self.route.br,
                            decode: found.response.compressed && !self.route.br,
                        },
                    ),
                ),
            ),
            Err(error) => Err(error),
        }
    }

    /// The body that is stored of an upstream one.
    pub open spec fn stored(self, found: FoundView, bytes: Seq<u8>) -> Seq<u8> {
        if holds_links(found.response.content_type) {
            rewritten(bytes, self.regexes.jackbox_urls, self.accessible_host)
        } else {
            bytes
        }
    }

    /// The error for a fault in what was to be done.
    pub open spec fn failed(
        self,
        fault: Fault,
        subject: Seq<char>,
        destination: Seq<char>,
    ) -> CacheErrorView {
        error_about(
            fault,
            Circumstances {
                retried: match self.progress {
                    ProgressView::Fetch(part) => part is Some,
                    ProgressView::ReadIndex(part) => part is Some,
                    _ => false,
                },
                compressed: match self.progress {
                    ProgressView::WritePart(found, _) => found.response.compressed,
                    _ => false,
                },
                subject: match fault {
                    Fault::Acquire | Fault::BodyBytes => self.route.uri,
                    Fault::PartCopy | Fault::PartShutdown => ""@,
                    _ => subject,
                },
                destination: match fault {
                    Fault::PartMove => destination,
                    _ => ""@,
                },
            },
        )
    }
}

/// How a session goes on after an event, or the error with which it ends. An event that does not
/// tell of what was to be done changes nothing.
pub open spec fn resumed(session: SessionView, event: EventView) -> Result<
    SessionView,
    CacheErrorView,
> {
    if answers(event, session.progress) {
        advanced(session, event)
    } else {
        Ok(session)
    }
}

/// How a session goes on after an event that tells of what was to be done.
pub open spec fn advanced(session: SessionView, event: EventView) -> Result<
    SessionView,
    CacheErrorView,
>
    recommends
        answers(event, session.progress),
{
    match (session.progress, event) {
        (_, EventView::Failed { fault, subject, destination }) => Err(
            session.failed(fault, subject, destination),
        ),
        (ProgressView::ProbeIndex, EventView::Exists(exists)) => Ok(
            session.then_do(
                if exists {
                    ProgressView::ReadIndex(None)
                } else {
                    ProgressView::Fetch(None)
                },
            ),
        ),
        (ProgressView::Fetch(part), EventView::Response { status, headers }) => {
            if is_error_status(status) {
                Err(upstream_error(status))
            } else {
                match described(headers, session.regexes.content_to_compress) {
                    Ok(response) => Ok(session.with_response(response, Some(status), part)),
                    Err(error) => Err(error),
                }
            }
        },
        (ProgressView::ReadIndex(part), EventView::Index(response)) => Ok(
            session.with_response(response, None, part),
        ),
        (ProgressView::MakeBodyDirectory(found), EventView::Done) => Ok(
            session.then_do(
                if fresh(found) {
                    ProgressView::ProbeStored(found)
                } else {
                    ProgressView::ProbeCached(found)
                },
            ),
        ),
        (ProgressView::ProbeCached(found), EventView::Exists(exists)) => Ok(
            if exists {
                session.then_do(ProgressView::ProbeStored(found))
            } else {
                session.retry(found)
            },
        ),
        (ProgressView::ProbeStored(found), EventView::Exists(exists)) => if exists {
            session.serve(found)
        } else {
            Ok(session.then_do(ProgressView::OpenPart(found)))
        },
        (ProgressView::OpenPart(found), EventView::Done) => Ok(
            session.then_do(
                if fresh(found) {
                    ProgressView::ProbeLocked(found)
                } else {
                    ProgressView::DropPart(found)
                },
            ),
        ),
        (ProgressView::ProbeLocked(found), EventView::Exists(exists)) => Ok(
            session.then_do(
                if exists {
                    ProgressView::DropPart(found)
                } else {
                    ProgressView::ReadBytes(found)
                },
            ),
        ),
        (ProgressView::DropPart(found), EventView::Done) => session.serve(found),
        (ProgressView::ReadBytes(found), EventView::Bytes(bytes)) => match told(found.response) {
            Ok(_) => Ok(
                session.then_do(ProgressView::WritePart(found, session.stored(found, bytes))),
            ),
            Err(error) => Err(error),
        },
        (ProgressView::WritePart(found, _), EventView::Done) => Ok(
            session.then_do(ProgressView::MakeIndexDirectory(found)),
        ),
        (ProgressView::MakeIndexDirectory(found), EventView::Done) => Ok(
            session.then_do(ProgressView::WriteIndex(found)),
        ),
        (ProgressView::WriteIndex(found), EventView::Done) => Ok(
            session.then_do(ProgressView::MovePart(found)),
        ),
        (ProgressView::MovePart(found), EventView::Done) => session.serve(found),
        _ => Ok(session),
    }
}

/// The name of a body: the entity tag below the host, marked where it is stored compressed.
pub fn name_body(host: &str, response: &JBHttpResponse) -> (res: String)
    ensures
        res@ == body_name(host@, response@),
{
    let name = host.to_owned().concat("/").concat(response.etag.as_str());
    if response.compressed {
        name.concat(".br")
    } else {
        name.concat("")
    }
}

impl Found {
    /// Whether the upstream sent a body, other than that what the client has is still good.
    pub fn is_fresh(&self) -> (res: bool)
        ensures
            res == fresh(self@),
    {
        match self.upstream {
            Some(status) => status != 304,
            None => false,
        }
    }
}

impl Reply {
    /// The fault where the stored body cannot be read, or decompressed on the way.
    pub fn read_fault(&self) -> (res: Fault)
        ensures
            res == read_fault(self.decode),
    {
        if self.decode {
            Fault::BodyDecompress
        } else {
            Fault::BodyRead
        }
    }
}

impl Progress {
    /// Whether there can be such a fault in what is to be done.
    pub fn can_fail(&self, fault: Fault) -> (res: bool)
        ensures
            res == can_fail(self@, fault),
    {
        match self {
            Progress::Fetch(_) => fault == Fault::Acquire,
            Progress::ReadIndex(_) => fault == Fault::IndexMissing || fault
                == Fault::IndexMalformed,
            Progress::MakeBodyDirectory(_) => fault == Fault::BodyParent || fault
                == Fault::BodyDirectory,
            Progress::OpenPart(_) => fault == Fault::PartOpen || fault == Fault::PartLock,
            Progress::ReadBytes(_) => fault == Fault::BodyBytes,
            Progress::WritePart(_, _) => fault == Fault::PartCopy || fault == Fault::PartShutdown,
            Progress::MakeIndexDirectory(_) => fault == Fault::IndexParent || fault
                == Fault::IndexDirectory,
            Progress::WriteIndex(_) => fault == Fault::IndexCreate || fault
                == Fault::IndexSerialize,
            Progress::MovePart(_) => fault == Fault::PartMove,
            Progress::Serve(reply) => fault == reply.read_fault() || (!reply.br && (fault
                == Fault::BodyMetadata || fault == Fault::BodyOpen)),
            _ => false,
        }
    }
}

impl Event {
    /// Whether this tells how what was to be done went.
    pub fn answers(&self, progress: &Progress) -> (res: bool)
        ensures
            res == answers(self@, progress@),
    {
        match self {
            Event::Exists(_) => matches!(
                progress,
                Progress::ProbeIndex | Progress::ProbeCached(_) | Progress::ProbeStored(_)
                    | Progress::ProbeLocked(_)
            ),
            Event::Response { .. } => matches!(progress, Progress::Fetch(_)),
            Event::Index(_) => matches!(progress, Progress::ReadIndex(_)),
            Event::Bytes(_) => matches!(progress, Progress::ReadBytes(_)),
            Event::Done => matches!(
                progress,
                Progress::MakeBodyDirectory(_) | Progress::OpenPart(_) | Progress::DropPart(_)
                    | Progress::WritePart(_, _) | Progress::MakeIndexDirectory(_)
                    | Progress::WriteIndex(_) | Progress::MovePart(_)
            ),
            Event::Failed { fault, .. } => progress.can_fail(*fault),
        }
    }
}

impl Session {
    /// Begins to answer a request.
    pub fn begin(
        route: Route,
        cache_mode: CacheMode,
        accessible_host: &str,
        regexes: Arc<Regexes>,
    ) -> (res: Session)
        ensures
            res@ == (SessionView {
                route: route@,
                cache_mode,
                accessible_host: accessible_host@,
                regexes: *regexes,
                progress: first_step(cache_mode),
            }),
    {
        let progress = match cache_mode {
            CacheMode::Online => Progress::Fetch(None),
            CacheMode::Offline => Progress::ReadIndex(None),
            CacheMode::Oneshot => Progress::ProbeIndex,
        };
        Session {
            route,
            cache_mode,
            accessible_host: accessible_host.to_owned(),
            regexes,
            progress,
        }
    }

    fn then_do(self, progress: Progress) -> (res: Session)
        ensures
            res@ == self@.then_do(progress@),
    {
        Session {
            route: self.route,
            cache_mode: self.cache_mode,
            accessible_host: self.accessible_host,
            regexes: self.regexes,
            progress,
        }
    }

    fn with_response(
        self,
        response: JBHttpResponse,
        upstream: Option<u16>,
        part: Option<String>,
    ) -> (res: Session)
        ensures
            res@ == self@.with_response(response@, upstream, name_view(part)),
    {
        match part {
            None => {
                let part = name_body(self.route.host.as_str(), &response);
                self.then_do(Progress::MakeBodyDirectory(Found { response, upstream, part }))
            },
            Some(part) => self.then_do(
                Progress::ProbeStored(Found { response, upstream, part }),
            ),
        }
    }

    fn retry(self, found: Found) -> (res: Session)
        ensures
            res@ == self@.retry(found@),
    {
        let mut session = self;
        header_remove(&mut session.route.headers, "if-none-match");
        if session.cache_mode == CacheMode::Online {
            session.then_do(Progress::ReadIndex(Some(found.part)))
        } else {
            session.then_do(Progress::Fetch(Some(found.part)))
        }
    }

    fn serve(self, found: Found) -> (res: Result<Session, CacheError>)
        ensures
            outcome(res) == self@.serve(found@),
    {
        match found.response.reply_headers(self.route.br) {
            Err(error) => Err(error),
            Ok(headers) => {
                let body = name_body(self.route.host.as_str(), &found.response);
                let br = self.route.br;
                let decode = found.response.compressed && !br;
                Ok(self.then_do(Progress::Serve(Reply { status: 200, headers, body, br, decode })))
            },
        }
    }

    fn store(self, found: Found, bytes: Vec<u8>) -> (res: Result<Session, CacheError>)
        ensures
            outcome(res) == (match told(found@.response) {
                Ok(_) => Ok(
                    self@.then_do(
                        ProgressView::WritePart(found@, self@.stored(found@, bytes@)),
                    ),
                ),
                Err(error) => Err(error),
            }),
    {
        match found.response.has_links() {
            Err(error) => Err(error),
            Ok(false) => Ok(self.then_do(Progress::WritePart(found, bytes))),
            Ok(true) => {
                let bytes = rewrite_body(
                    bytes.as_slice(),
                    &self.regexes.jackbox_urls,
                    self.accessible_host.as_str(),
                );
                Ok(self.then_do(Progress::WritePart(found, bytes)))
            },
        }
    }

    fn failed(&self, fault: Fault, subject: &str, destination: &str) -> (res: CacheError)
        ensures
            res@ == self@.failed(fault, subject@, destination@),
    {
        let retried = match &self.progress {
            Progress::Fetch(part) => part.is_some(),
            Progress::ReadIndex(part) => part.is_some(),
            _ => false,
        };
        let compressed = match &self.progress {
            Progress::WritePart(found, _) => found.response.compressed,
            _ => false,
        };
        let subject = match fault {
            Fault::Acquire | Fault::BodyBytes => self.route.uri.as_str(),
            Fault::PartCopy | Fault::PartShutdown => "",
            _ => subject,
        };
        let destination = match fault {
            Fault::PartMove => destination,
            _ => "",
        };
        CacheError::about(fault, retried, compressed, subject, destination)
    }

    /// Goes on after an event, or ends with an error. An event that does not tell of what was to
    /// be done changes nothing.
    #[verifier::rlimit(30)]
    pub fn resume(self, event: Event) -> (res: Result<Session, CacheError>)
        ensures
            outcome(res) == resumed(self@, event@),
    {
        if !event.answers(&self.progress) {
            return Ok(self);
        }
        if let Event::Failed { fault, subject, destination } = &event {
            return Err(self.failed(*fault, subject.as_str(), destination.as_str()));
        }
        let Session { route, cache_mode, accessible_host, regexes, progress } = self;
        let idle = Session {
            route,
            cache_mode,
            accessible_host,
            regexes,
            progress: Progress::ProbeIndex,
        };
        match (progress, event) {
            (Progress::ProbeIndex, Event::Exists(exists)) => Ok(
                idle.then_do(
                    if exists {
                        Progress::ReadIndex(None)
                    } else {
                        Progress::Fetch(None)
                    },
                ),
            ),
            (Progress::Fetch(part), Event::Response { status, headers }) => {
                if 400 <= status && status < 600 {
                    return Err(CacheError::upstream(status));
                }
                match JBHttpResponse::from_request(
                    &headers,
                    &idle.regexes.content_to_compress,
                ) {
                    Ok(response) => Ok(idle.with_response(response, Some(status), part)),
                    Err(error) => Err(error),
                }
            },
            (Progress::ReadIndex(part), Event::Index(response)) => Ok(
                idle.with_response(response, None, part),
            ),
            (Progress::MakeBodyDirectory(found), Event::Done) => {
                if found.is_fresh() {
                    Ok(idle.then_do(Progress::ProbeStored(found)))
                } else {
                    Ok(idle.then_do(Progress::ProbeCached(found)))
                }
            },
            (Progress::ProbeCached(found), Event::Exists(exists)) => {
                if exists {
                    Ok(idle.then_do(Progress::ProbeStored(found)))
                } else {
                    Ok(idle.retry(found))
                }
            },
            (Progress::ProbeStored(found), Event::Exists(exists)) => {
                if exists {
                    idle.serve(found)
                } else {
                    Ok(idle.then_do(Progress::OpenPart(found)))
                }
            },
            (Progress::OpenPart(found), Event::Done) => {
                if found.is_fresh() {
                    Ok(idle.then_do(Progress::ProbeLocked(found)))
                } else {
                    Ok(idle.then_do(Progress::DropPart(found)))
                }
            },
            (Progress::ProbeLocked(found), Event::Exists(exists)) => {
                if exists {
                    Ok(idle.then_do(Progress::DropPart(found)))
                } else {
                    Ok(idle.then_do(Progress::ReadBytes(found)))
                }
            },
            (Progress::DropPart(found), Event::Done) => idle.serve(found),
            (Progress::ReadBytes(found), Event::Bytes(bytes)) => idle.store(found, bytes),
            (Progress::WritePart(found, _), Event::Done) => Ok(
                idle.then_do(Progress::MakeIndexDirectory(found)),
            ),
            (Progress::MakeIndexDirectory(found), Event::Done) => Ok(
                idle.then_do(Progress::WriteIndex(found)),
            ),
            (Progress::WriteIndex(found), Event::Done) => Ok(
                idle.then_do(Progress::MovePart(found)),
            ),
            (Progress::MovePart(found), Event::Done) => idle.serve(found),
            _ => vstd::pervasive::unreached(),
        }
    }
}

}
