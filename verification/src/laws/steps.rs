//! What follows what.

use vstd::prelude::*;
use vstd::string::*;

use crate::fault::{fault_status, CacheErrorView, Fault};
use crate::http::Entries;
use crate::response::{described, JBHttpResponseView};
use crate::session::{
    read_fault, resumed, CacheMode, EventView, FoundView, ProgressView, SessionView,
};

verus! {

/// An answer of the upstream with a status from 400 to 599 ends the request with that status. Any
/// other is taken for what its headers say: on the first attempt the directory of the body is made
/// next, and the part file is named after the body; on the second it is seen next whether the body
/// is there, and the part file keeps its name.
pub proof fn answers_are_taken_or_passed_on(
    session: SessionView,
    part: Option<Seq<char>>,
    status: u16,
    headers: Entries,
)
    requires
        session.progress == ProgressView::Fetch(part),
    ensures
        ({
            let res = resumed(session, EventView::Response { status, headers });
            if 400 <= status <= 599 {
                res matches Err(error) && error.fault == Fault::Upstream && error.status == status
                    && error.message.len() == 0
            } else {
                match described(headers, session.regexes.content_to_compress) {
                    Err(refusal) => res matches Err(error) && error == refusal,
                    Ok(response) => res matches Ok(next) && next == (SessionView {
                        progress: next.progress,
                        ..session
                    }) && takes_response(session, part, response, Some(status), next.progress),
                }
            }
        }),
{
    reveal_strlit("");
    assert(session.route.host + "/"@ + described(
        headers,
        session.regexes.content_to_compress,
    )->Ok_0.etag + ""@ =~= session.route.host + "/"@ + described(
        headers,
        session.regexes.content_to_compress,
    )->Ok_0.etag);
}

/// Whether a step is the one that follows once a response is known.
pub open spec fn takes_response(
    session: SessionView,
    part: Option<Seq<char>>,
    response: JBHttpResponseView,
    upstream: Option<u16>,
    progress: ProgressView,
) -> bool {
    match part {
        None => progress matches ProgressView::MakeBodyDirectory(found) && {
            &&& found.response == response
            &&& found.upstream == upstream
            &&& response.compressed ==> found.part == session.route.host + "/"@ + response.etag
                + ".br"@
            &&& !response.compressed ==> found.part == session.route.host + "/"@ + response.etag
        },
        Some(name) => progress matches ProgressView::ProbeStored(found) && {
            &&& found.response == response
            &&& found.upstream == upstream
            &&& found.part == name
        },
    }
}

/// An index entry is taken for what it says, as an answer of the upstream is; there is no status
/// then.
pub proof fn index_entries_are_taken(
    session: SessionView,
    part: Option<Seq<char>>,
    response: JBHttpResponseView,
)
    requires
        session.progress == ProgressView::ReadIndex(part),
    ensures
        resumed(session, EventView::Index(response)) matches Ok(next) && next == (SessionView {
            progress: next.progress,
            ..session
        }) && takes_response(session, part, response, None, next.progress),
{
    reveal_strlit("");
    assert(session.route.host + "/"@ + response.etag + ""@ =~= session.route.host + "/"@
        + response.etag);
}

/// In oneshot mode the index entry is read where there is one, and the upstream is asked where
/// there is none.
pub proof fn index_entries_are_seen_first(session: SessionView, there: bool)
    requires
        session.progress == ProgressView::ProbeIndex,
    ensures
        resumed(session, EventView::Exists(there)) matches Ok(next) && next == (SessionView {
            progress: next.progress,
            ..session
        }) && if there {
            next.progress == ProgressView::ReadIndex(None)
        } else {
            next.progress == ProgressView::Fetch(None)
        },
{
}

/// Once the directory is there, a body that the upstream has just sent goes to be stored; for any
/// other it is seen first whether it is in the cache.
pub proof fn only_sent_bodies_are_new(session: SessionView, found: FoundView)
    requires
        session.progress == ProgressView::MakeBodyDirectory(found),
    ensures
        resumed(session, EventView::Done) matches Ok(next) && next == (SessionView {
            progress: next.progress,
            ..session
        }) && match found.upstream {
            Some(304u16) => next.progress == ProgressView::ProbeCached(found),
            Some(_) => next.progress == ProgressView::ProbeStored(found),
            None => next.progress == ProgressView::ProbeCached(found),
        },
{
}

/// A body that is gone from the cache is looked for once more: online in the index entry, else at
/// the upstream, which is no longer told what the client has. Every other header stays, and so
/// does everything else about the request.
pub proof fn bodies_that_are_gone_are_looked_for_again(
    session: SessionView,
    found: FoundView,
    there: bool,
)
    requires
        session.progress == ProgressView::ProbeCached(found),
    ensures
        resumed(session, EventView::Exists(there)) matches Ok(next) && if there {
            next == (SessionView { progress: ProgressView::ProbeStored(found), ..session })
        } else {
            &&& session.cache_mode == CacheMode::Online ==> next.progress
                == ProgressView::ReadIndex(Some(found.part))
            &&& session.cache_mode != CacheMode::Online ==> next.progress == ProgressView::Fetch(
                Some(found.part),
            )
            &&& !next.route.headers.contains_key("if-none-match"@)
            &&& forall|name: Seq<char>|
                name != "if-none-match"@ ==> (#[trigger] next.route.headers.contains_key(name)
                    <==> session.route.headers.contains_key(name))
            &&& forall|name: Seq<char>|
                name != "if-none-match"@ && #[trigger] next.route.headers.contains_key(name)
                    ==> next.route.headers[name] == session.route.headers[name]
            &&& next.route.uri == session.route.uri
            &&& next.route.host == session.route.host
            &&& next.route.index == session.route.index
            &&& next.route.br == session.route.br
            &&& next.cache_mode == session.cache_mode
            &&& next.accessible_host == session.accessible_host
            &&& next.regexes == session.regexes
        },
{
}

/// A body that is there is served; for one that is not the part file is opened.
pub proof fn bodies_that_are_there_are_served(
    session: SessionView,
    found: FoundView,
    there: bool,
)
    requires
        session.progress == ProgressView::ProbeStored(found),
    ensures
        there ==> resumed(session, EventView::Exists(there)) == session.serve(found),
        !there ==> resumed(session, EventView::Exists(there)) == Ok::<
            SessionView,
            CacheErrorView,
        >(SessionView { progress: ProgressView::OpenPart(found), ..session }),
{
}

/// Once the part file is locked, a body that the upstream has just sent is read, unless it has
/// come in the meantime. In any other case the part file goes, and what is stored is served.
pub proof fn part_files_are_dropped_or_filled(session: SessionView, found: FoundView, there: bool)
    ensures
        session.progress == ProgressView::OpenPart(found) ==> (resumed(session, EventView::Done)
            matches Ok(next) && next == (SessionView { progress: next.progress, ..session })
            && match found.upstream {
            Some(304u16) => next.progress == ProgressView::DropPart(found),
            Some(_) => next.progress == ProgressView::ProbeLocked(found),
            None => next.progress == ProgressView::DropPart(found),
        }),
        session.progress == ProgressView::ProbeLocked(found) ==> (resumed(
            session,
            EventView::Exists(there),
        ) matches Ok(next) && next == (SessionView { progress: next.progress, ..session })
            && if there {
            next.progress == ProgressView::DropPart(found)
        } else {
            next.progress == ProgressView::ReadBytes(found)
        }),
        session.progress == ProgressView::DropPart(found) ==> resumed(session, EventView::Done)
            == session.serve(found),
{
}

/// A body that has been written gets its index entry, then its place, and is then served; what is
/// known of it stays the same throughout.
pub proof fn written_bodies_are_entered_and_placed(
    session: SessionView,
    found: FoundView,
    body: Seq<u8>,
)
    ensures
        session.progress == ProgressView::WritePart(found, body) ==> resumed(
            session,
            EventView::Done,
        ) == Ok::<SessionView, CacheErrorView>(
            SessionView { progress: ProgressView::MakeIndexDirectory(found), ..session },
        ),
        session.progress == ProgressView::MakeIndexDirectory(found) ==> resumed(
            session,
            EventView::Done,
        ) == Ok::<SessionView, CacheErrorView>(
            SessionView { progress: ProgressView::WriteIndex(found), ..session },
        ),
        session.progress == ProgressView::WriteIndex(found) ==> resumed(session, EventView::Done)
            == Ok::<SessionView, CacheErrorView>(
            SessionView { progress: ProgressView::MovePart(found), ..session },
        ),
        session.progress == ProgressView::MovePart(found) ==> resumed(session, EventView::Done)
            == session.serve(found),
{
}

/// An event that tells of something else than what was to be done changes nothing.
pub proof fn other_events_change_nothing(session: SessionView, event: EventView)
    requires
        match event {
            EventView::Exists(_) => !(session.progress is ProbeIndex) && !(session.progress
                is ProbeCached) && !(session.progress is ProbeStored) && !(session.progress
                is ProbeLocked),
            EventView::Response { .. } => !(session.progress is Fetch),
            EventView::Index(_) => !(session.progress is ReadIndex),
            EventView::Bytes(_) => !(session.progress is ReadBytes),
            EventView::Done => session.progress is ProbeIndex || session.progress is Fetch
                || session.progress is ReadIndex || session.progress is ProbeCached
                || session.progress is ProbeStored || session.progress is ProbeLocked
                || session.progress is ReadBytes || session.progress is Serve,
            EventView::Failed { .. } => session.progress is ProbeIndex || session.progress
                is ProbeCached || session.progress is ProbeStored || session.progress is ProbeLocked
                || session.progress is DropPart,
        },
    ensures
        resumed(session, event) == Ok::<SessionView, CacheErrorView>(session),
{
}

/// What a request ends with.
pub open spec fn ends_with(
    res: Result<SessionView, CacheErrorView>,
    fault: Fault,
    status: u16,
    message: Seq<char>,
) -> bool {
    res matches Err(error) && error.fault == fault && error.status == status && error.message
        == message
}

/// The upstream cannot be asked: the message names the URI, and says whether it was asked without
/// the client's entity tag. Any other fault is none of this step.
pub proof fn failures_to_ask_are_told(
    session: SessionView,
    part: Option<Seq<char>>,
    fault: Fault,
    subject: Seq<char>,
    destination: Seq<char>,
)
    requires
        session.progress == ProgressView::Fetch(part),
    ensures
        ({
            let res = resumed(session, EventView::Failed { fault, subject, destination });
            match fault {
                Fault::Acquire => ends_with(
                    res,
                    fault,
                    500,
                    if part is Some {
                        "Failed to acquire resource from `"@ + session.route.uri
                            + "` (with stripped Etag)"@
                    } else {
                        "Failed to acquire resource from `"@ + session.route.uri + "`"@
                    },
                ),
                _ => res == Ok::<SessionView, CacheErrorView>(session),
            }
        }),
{
    reveal_strlit("");
    let res = resumed(session, EventView::Failed { fault, subject, destination });
    if let Err(error) = res {
        if fault == Fault::Acquire {
            assert(error.message =~= if part is Some {
                "Failed to acquire resource from `"@ + session.route.uri + "` (with stripped Etag)"@
            } else {
                "Failed to acquire resource from `"@ + session.route.uri + "`"@
            });
        }
    }
}

/// The index entry is missing or malformed: the message names its file, and says whether it was
/// read after the body was found to be gone. Any other fault is none of this step.
pub proof fn failures_to_read_the_index_are_told(
    session: SessionView,
    part: Option<Seq<char>>,
    fault: Fault,
    subject: Seq<char>,
    destination: Seq<char>,
)
    requires
        session.progress == ProgressView::ReadIndex(part),
    ensures
        ({
            let res = resumed(session, EventView::Failed { fault, subject, destination });
            match fault {
                Fault::IndexMissing => ends_with(
                    res,
                    fault,
                    404,
                    if part is Some {
                        "The offline resource `"@ + subject
                            + "` could not be found (stripped Etag)"@
                    } else {
                        "The offline resource `"@ + subject + "` could not be found"@
                    },
                ),
                Fault::IndexMalformed => ends_with(
                    res,
                    fault,
                    500,
                    if part is Some {
                        "The offline resource `"@ + subject
                            + "` could not be deserialized (stripped Etag)"@
                    } else {
                        "The offline resource `"@ + subject + "` could not be deserialized"@
                    },
                ),
                _ => res == Ok::<SessionView, CacheErrorView>(session),
            }
        }),
{
    reveal_strlit("");
    let res = resumed(session, EventView::Failed { fault, subject, destination });
    if let Err(error) = res {
        if fault == Fault::IndexMissing {
            assert(error.message =~= if part is Some {
                "The offline resource `"@ + subject + "` could not be found (stripped Etag)"@
            } else {
                "The offline resource `"@ + subject + "` could not be found"@
            });
        } else if fault == Fault::IndexMalformed {
            assert(error.message =~= if part is Some {
                "The offline resource `"@ + subject + "` could not be deserialized (stripped Etag)"@
            } else {
                "The offline resource `"@ + subject + "` could not be deserialized"@
            });
        }
    }
}

/// The directory of a body cannot be made. Any other fault is none of this step.
pub proof fn failures_to_make_the_body_directory_are_told(
    session: SessionView,
    found: FoundView,
    fault: Fault,
    subject: Seq<char>,
    destination: Seq<char>,
)
    requires
        session.progress == ProgressView::MakeBodyDirectory(found),
    ensures
        ({
            let res = resumed(session, EventView::Failed { fault, subject, destination });
            match fault {
                Fault::BodyParent => ends_with(
                    res,
                    fault,
                    500,
                    "The cached resource `"@ + subject + "` has no parent directory"@,
                ),
                Fault::BodyDirectory => ends_with(
                    res,
                    fault,
                    500,
                    "The directory `"@ + subject
                        + "` could not be created for the cached resource"@,
                ),
                _ => res == Ok::<SessionView, CacheErrorView>(session),
            }
        }),
{
    reveal_strlit("");
    let res = resumed(session, EventView::Failed { fault, subject, destination });
    if let Err(error) = res {
        if fault == Fault::BodyParent {
            assert(error.message =~= "The cached resource `"@ + subject
                + "` has no parent directory"@);
        } else if fault == Fault::BodyDirectory {
            assert(error.message =~= "The directory `"@ + subject
                + "` could not be created for the cached resource"@);
        }
    }
}

/// A part file cannot be opened or locked. Any other fault is none of this step.
pub proof fn failures_to_open_the_part_file_are_told(
    session: SessionView,
    found: FoundView,
    fault: Fault,
    subject: Seq<char>,
    destination: Seq<char>,
)
    requires
        session.progress == ProgressView::OpenPart(found),
    ensures
        ({
            let res = resumed(session, EventView::Failed { fault, subject, destination });
            match fault {
                Fault::PartOpen => ends_with(
                    res,
                    fault,
                    500,
                    "Failed to open/create part file for resource `"@ + subject + "`"@,
                ),
                Fault::PartLock => ends_with(
                    res,
                    fault,
                    500,
                    "Failed to open part file for writing for resource `"@ + subject + "`"@,
                ),
                _ => res == Ok::<SessionView, CacheErrorView>(session),
            }
        }),
{
    reveal_strlit("");
    let res = resumed(session, EventView::Failed { fault, subject, destination });
    if let Err(error) = res {
        if fault == Fault::PartOpen {
            assert(error.message =~= "Failed to open/create part file for resource `"@ + subject
                + "`"@);
        } else if fault == Fault::PartLock {
            assert(error.message =~= "Failed to open part file for writing for resource `"@
                + subject + "`"@);
        }
    }
}

/// The body of an answer cannot be read: the message names the URI. Any other fault is none of
/// this step.
pub proof fn failures_to_read_the_upstream_body_are_told(
    session: SessionView,
    found: FoundView,
    fault: Fault,
    subject: Seq<char>,
    destination: Seq<char>,
)
    requires
        session.progress == ProgressView::ReadBytes(found),
    ensures
        ({
            let res = resumed(session, EventView::Failed { fault, subject, destination });
            match fault {
                Fault::BodyBytes => ends_with(
                    res,
                    fault,
                    500,
                    "Failed to retreive bytes for URL with path: `"@ + session.route.uri + "`"@,
                ),
                _ => res == Ok::<SessionView, CacheErrorView>(session),
            }
        }),
{
    reveal_strlit("");
    let res = resumed(session, EventView::Failed { fault, subject, destination });
    if let Err(error) = res {
        if fault == Fault::BodyBytes {
            assert(error.message =~= "Failed to retreive bytes for URL with path: `"@
                + session.route.uri + "`"@);
        }
    }
}

/// A part file cannot be written: the message says whether the body was being compressed. Any
/// other fault is none of this step.
pub proof fn failures_to_write_the_part_file_are_told(
    session: SessionView,
    found: FoundView,
    body: Seq<u8>,
    fault: Fault,
    subject: Seq<char>,
    destination: Seq<char>,
)
    requires
        session.progress == ProgressView::WritePart(found, body),
    ensures
        ({
            let res = resumed(session, EventView::Failed { fault, subject, destination });
            match fault {
                Fault::PartCopy => ends_with(
                    res,
                    fault,
                    500,
                    if found.response.compressed {
                        "Failed to copy byte stream to a compressed brotli file"@
                    } else {
                        "Failed to copy byte stream to an uncompressed file"@
                    },
                ),
                Fault::PartShutdown => ends_with(
                    res,
                    fault,
                    500,
                    if found.response.compressed {
                        "Failed to shutdown compressed brotli file stream"@
                    } else {
                        "Failed to shutdown uncompressed file stream"@
                    },
                ),
                _ => res == Ok::<SessionView, CacheErrorView>(session),
            }
        }),
{
    reveal_strlit("");
    let res = resumed(session, EventView::Failed { fault, subject, destination });
    if let Err(error) = res {
        if fault == Fault::PartCopy {
            assert(error.message =~= if found.response.compressed {
                "Failed to copy byte stream to a compressed brotli file"@
            } else {
                "Failed to copy byte stream to an uncompressed file"@
            });
        } else if fault == Fault::PartShutdown {
            assert(error.message =~= if found.response.compressed {
                "Failed to shutdown compressed brotli file stream"@
            } else {
                "Failed to shutdown uncompressed file stream"@
            });
        }
    }
}

/// The directory of an index entry cannot be made. Any other fault is none of this step.
pub proof fn failures_to_make_the_index_directory_are_told(
    session: SessionView,
    found: FoundView,
    fault: Fault,
    subject: Seq<char>,
    destination: Seq<char>,
)
    requires
        session.progress == ProgressView::MakeIndexDirectory(found),
    ensures
        ({
            let res = resumed(session, EventView::Failed { fault, subject, destination });
            match fault {
                Fault::IndexParent => ends_with(
                    res,
                    fault,
                    500,
                    "Raw cached resource `"@ + subject + "` does not have a parent directory"@,
                ),
                Fault::IndexDirectory => ends_with(
                    res,
                    fault,
                    500,
                    "Failed to create directory for raw resource `"@ + subject + "`"@,
                ),
                _ => res == Ok::<SessionView, CacheErrorView>(session),
            }
        }),
{
    reveal_strlit("");
    let res = resumed(session, EventView::Failed { fault, subject, destination });
    if let Err(error) = res {
        if fault == Fault::IndexParent {
            assert(error.message =~= "Raw cached resource `"@ + subject
                + "` does not have a parent directory"@);
        } else if fault == Fault::IndexDirectory {
            assert(error.message =~= "Failed to create directory for raw resource `"@ + subject
                + "`"@);
        }
    }
}

/// An index entry cannot be written. Any other fault is none of this step.
pub proof fn failures_to_write_the_index_are_told(
    session: SessionView,
    found: FoundView,
    fault: Fault,
    subject: Seq<char>,
    destination: Seq<char>,
)
    requires
        session.progress == ProgressView::WriteIndex(found),
    ensures
        ({
            let res = resumed(session, EventView::Failed { fault, subject, destination });
            match fault {
                Fault::IndexCreate => ends_with(
                    res,
                    fault,
                    500,
                    "Failed to create file for raw resource `"@ + subject + "`"@,
                ),
                Fault::IndexSerialize => ends_with(
                    res,
                    fault,
                    500,
                    "Failed to serialize raw resource `"@ + subject + "`"@,
                ),
                _ => res == Ok::<SessionView, CacheErrorView>(session),
            }
        }),
{
    reveal_strlit("");
    let res = resumed(session, EventView::Failed { fault, subject, destination });
    if let Err(error) = res {
        if fault == Fault::IndexCreate {
            assert(error.message =~= "Failed to create file for raw resource `"@ + subject + "`"@);
        } else if fault == Fault::IndexSerialize {
            assert(error.message =~= "Failed to serialize raw resource `"@ + subject + "`"@);
        }
    }
}

/// A part file cannot be moved: the message names both files. Any other fault is none of this
/// step.
pub proof fn failures_to_move_the_part_file_are_told(
    session: SessionView,
    found: FoundView,
    fault: Fault,
    subject: Seq<char>,
    destination: Seq<char>,
)
    requires
        session.progress == ProgressView::MovePart(found),
    ensures
        ({
            let res = resumed(session, EventView::Failed { fault, subject, destination });
            match fault {
                Fault::PartMove => ends_with(
                    res,
                    fault,
                    500,
                    "Failed to move part file `"@ + subject
                        + "` into it's cached resource path `"@ + destination + "`"@,
                ),
                _ => res == Ok::<SessionView, CacheErrorView>(session),
            }
        }),
{
    reveal_strlit("");
    let res = resumed(session, EventView::Failed { fault, subject, destination });
    if let Err(error) = res {
        if fault == Fault::PartMove {
            assert(error.message =~= "Failed to move part file `"@ + subject
                + "` into it's cached resource path `"@ + destination + "`"@);
        }
    }
}

/// A stored body cannot be read. A client that accepts brotli is sent it as it is, so that it is
/// only read; for any other its size is read first and its file is opened, and where it has to be
/// decompressed, that is what fails. Any other fault is none of this step.
pub proof fn failures_to_serve_are_told(
    session: SessionView,
    fault: Fault,
    subject: Seq<char>,
    destination: Seq<char>,
)
    requires
        session.progress is Serve,
    ensures
        ({
            let res = resumed(session, EventView::Failed { fault, subject, destination });
            let reply = session.progress->Serve_0;
            if fault == Fault::BodyRead && !reply.decode {
                ends_with(
                    res,
                    fault,
                    500,
                    "Failed to read cached resource `"@ + subject + "`"@,
                )
            } else if fault == Fault::BodyMetadata && !reply.br {
                ends_with(
                    res,
                    fault,
                    500,
                    "Failed to read metadata for cached resource `"@ + subject + "`"@,
                )
            } else if fault == Fault::BodyOpen && !reply.br {
                ends_with(
                    res,
                    fault,
                    500,
                    "Failed to open cached resource `"@ + subject + "`"@,
                )
            } else if fault == Fault::BodyDecompress && reply.decode {
                ends_with(
                    res,
                    fault,
                    500,
                    "Failed to decompress cached resource `"@ + subject + "`"@,
                )
            } else {
                res == Ok::<SessionView, CacheErrorView>(session)
            }
        }),
{
    reveal_strlit("");
    if let Err(error) = resumed(session, EventView::Failed { fault, subject, destination }) {
        if fault == Fault::BodyRead {
            assert(error.message =~= "Failed to read cached resource `"@ + subject + "`"@);
        } else if fault == Fault::BodyMetadata {
            assert(error.message =~= "Failed to read metadata for cached resource `"@ + subject
                + "`"@);
        } else if fault == Fault::BodyOpen {
            assert(error.message =~= "Failed to open cached resource `"@ + subject + "`"@);
        } else {
            assert(error.message =~= "Failed to decompress cached resource `"@ + subject + "`"@);
        }
    }
}

/// A request for another host is a bad one, a resource without an index entry is not found, a
/// response whose entity tag or content type is no text cannot be processed, and anything else
/// that goes wrong does so here.
pub proof fn faults_have_their_status(fault: Fault)
    ensures
        fault_status(fault) == 400 <==> fault == Fault::NotJackbox,
        fault_status(fault) == 404 <==> fault == Fault::IndexMissing,
        fault_status(fault) == 422 <==> fault == Fault::EtagText || fault
            == Fault::ContentTypeText,
        fault_status(fault) == 500 <==> fault != Fault::NotJackbox && fault != Fault::IndexMissing
            && fault != Fault::EtagText && fault != Fault::ContentTypeText,
{
}

/// The fault where a body cannot be read is that it cannot be decompressed, exactly where it is to
/// be.
pub proof fn unread_bodies_are_told_apart(decode: bool)
    ensures
        read_fault(decode) == Fault::BodyDecompress <==> decode,
        read_fault(decode) == Fault::BodyRead <==> !decode,
{
}

}
