//! What can go wrong, and what the client is told.

use vstd::prelude::*;
use vstd::string::*;

verus! {

/// The ways in which a request can fail.
#[derive(Clone, Copy, Debug, PartialEq, Eq, Structural)]
pub enum Fault {
    /// A proxied host that is none of Jackbox's.
    NotJackbox,
    /// A proxied host that is no authority.
    HostAuthority,
    /// A proxied host that no header value can hold.
    HostHeader,
    /// A proxied path that is none.
    TargetPath,
    /// A request without a path.
    UriParts,
    /// A response without an entity tag.
    EtagMissing,
    /// A response whose entity tag is no visible text.
    EtagText,
    /// A response whose content type is no visible text.
    ContentTypeText,
    /// A stored entity tag that no header value can hold.
    EtagHeader,
    /// A stored content type that no header value can hold.
    ContentTypeHeader,
    /// The upstream request was not answered.
    Acquire,
    /// The upstream answered with an error, which is passed on.
    Upstream,
    /// The index entry could not be opened.
    IndexMissing,
    /// The index entry could not be read.
    IndexMalformed,
    /// The body has no directory.
    BodyParent,
    /// The directory of the body could not be made.
    BodyDirectory,
    /// The part file could not be opened.
    PartOpen,
    /// The part file could not be locked.
    PartLock,
    /// The upstream body could not be read.
    BodyBytes,
    /// The body could not be written.
    PartCopy,
    /// The written body could not be flushed.
    PartShutdown,
    /// The index entry has no directory.
    IndexParent,
    /// The directory of the index entry could not be made.
    IndexDirectory,
    /// The index entry could not be created.
    IndexCreate,
    /// The index entry could not be written.
    IndexSerialize,
    /// The part file could not be moved to where the body belongs.
    PartMove,
    /// The stored body could not be read.
    BodyRead,
    /// The size of the stored body could not be read.
    BodyMetadata,
    /// The stored body could not be opened.
    BodyOpen,
    /// The stored body could not be decompressed.
    BodyDecompress,
}

/// The status with which a fault of this crate is answered. An upstream error keeps the status
/// that the upstream gave it.
pub open spec fn fault_status(fault: Fault) -> u16 {
    match fault {
        Fault::NotJackbox => 400,
        Fault::IndexMissing => 404,
        Fault::EtagText | Fault::ContentTypeText => 422,
        _ => 500,
    }
}

/// How the message for a fault begins.
pub open spec fn fault_opening(fault: Fault, compressed: bool) -> Seq<char> {
    match fault {
        Fault::NotJackbox => "Proxy can only be used with Jackbox services"@,
        Fault::HostAuthority => "Failed to convert host `"@,
        Fault::HostHeader => "Failed to convert host `"@,
        Fault::TargetPath => "Failed to convert `"@,
        Fault::UriParts => "URI parts did not make a valid URI"@,
        Fault::EtagMissing => "Etag was not present in response"@,
        Fault::EtagText => "Etag was not valid UTF-8"@,
        Fault::ContentTypeText => "Content-Type was not valid UTF-8"@,
        Fault::EtagHeader => "Failed to convert Etag from String to HeaderValue"@,
        Fault::ContentTypeHeader => "Failed to convert Content-Type from String to HeaderValue"@,
        Fault::Acquire => "Failed to acquire resource from `"@,
        Fault::IndexMissing => "The offline resource `"@,
        Fault::IndexMalformed => "The offline resource `"@,
        Fault::BodyParent => "The cached resource `"@,
        Fault::BodyDirectory => "The directory `"@,
        Fault::PartOpen => "Failed to open/create part file for resource `"@,
        Fault::PartLock => "Failed to open part file for writing for resource `"@,
        Fault::BodyBytes => "Failed to retreive bytes for URL with path: `"@,
        Fault::PartCopy => if compressed {
            "Failed to copy byte stream to a compressed brotli file"@
        } else {
            "Failed to copy byte stream to an uncompressed file"@
        },
        Fault::PartShutdown => if compressed {
            "Failed to shutdown compressed brotli file stream"@
        } else {
            "Failed to shutdown uncompressed file stream"@
        },
        Fault::IndexParent => "Raw cached resource `"@,
        Fault::IndexDirectory => "Failed to create directory for raw resource `"@,
        Fault::IndexCreate => "Failed to create file for raw resource `"@,
        Fault::IndexSerialize => "Failed to serialize raw resource `"@,
        Fault::PartMove => "Failed to move part file `"@,
        Fault::BodyRead => "Failed to read cached resource `"@,
        Fault::BodyMetadata => "Failed to read metadata for cached resource `"@,
        Fault::BodyOpen => "Failed to open cached resource `"@,
        Fault::BodyDecompress => "Failed to decompress cached resource `"@,
        _ => ""@,
    }
}

/// How the message for a fault goes on after what it is about.
pub open spec fn fault_closing(fault: Fault, retried: bool) -> Seq<char> {
    match fault {
        Fault::HostAuthority => "` into Authority"@,
        Fault::HostHeader => "` into HeaderValue"@,
        Fault::TargetPath => "` to a URI path & query"@,
        Fault::Acquire => if retried {
            "` (with stripped Etag)"@
        } else {
            "`"@
        },
        Fault::IndexMissing => if retried {
            "` could not be found (stripped Etag)"@
        } else {
            "` could not be found"@
        },
        Fault::IndexMalformed => if retried {
            "` could not be deserialized (stripped Etag)"@
        } else {
            "` could not be deserialized"@
        },
        Fault::BodyParent => "` has no parent directory"@,
        Fault::BodyDirectory => "` could not be created for the cached resource"@,
        Fault::PartOpen => "`"@,
        Fault::PartLock => "`"@,
        Fault::BodyBytes => "`"@,
        Fault::IndexParent => "` does not have a parent directory"@,
        Fault::IndexDirectory => "`"@,
        Fault::IndexCreate => "`"@,
        Fault::IndexSerialize => "`"@,
        Fault::PartMove => "` into it's cached resource path `"@,
        Fault::BodyRead => "`"@,
        Fault::BodyMetadata => "`"@,
        Fault::BodyOpen => "`"@,
        Fault::BodyDecompress => "`"@,
        _ => ""@,
    }
}

/// How the message for a fault ends, after the second thing that it is about.
pub open spec fn fault_ending(fault: Fault) -> Seq<char> {
    match fault {
        Fault::PartMove => "`"@,
        _ => ""@,
    }
}

/// The circumstances in which a fault arises, which its message tells.
pub struct Circumstances {
    /// On the second attempt, made without the client's entity tag.
    pub retried: bool,
    /// While the body was being compressed.
    pub compressed: bool,
    /// What the fault is about: a host, a URI or a file.
    pub subject: Seq<char>,
    /// Where the subject was to be moved.
    pub destination: Seq<char>,
}

/// The message for a fault.
pub open spec fn fault_message(fault: Fault, about: Circumstances) -> Seq<char> {
    fault_opening(fault, about.compressed) + about.subject + fault_closing(fault, about.retried)
        + about.destination + fault_ending(fault)
}

/// A request that failed: why, with which status it is answered, and in which words.
#[derive(Debug)]
pub struct CacheError {
    pub fault: Fault,
    pub status: u16,
    pub message: String,
}

/// The view of a `CacheError`.
#[verifier::ext_equal]
pub struct CacheErrorView {
    pub fault: Fault,
    pub status: u16,
    pub message: Seq<char>,
}

impl View for CacheError {
    type V = CacheErrorView;

    open spec fn view(&self) -> CacheErrorView {
        CacheErrorView { fault: self.fault, status: self.status, message: self.message@ }
    }
}

/// The view of what may have failed.
pub open spec fn outcome<T: View>(res: Result<T, CacheError>) -> Result<T::V, CacheErrorView> {
    match res {
        Ok(value) => Ok(value@),
        Err(error) => Err(error@),
    }
}

/// The error for a fault, given the circumstances.
pub open spec fn error_about(fault: Fault, about: Circumstances) -> CacheErrorView {
    CacheErrorView {
        fault,
        status: fault_status(fault),
        message: fault_message(fault, about),
    }
}

/// The error for a fault that is about `subject`.
pub open spec fn error_on(fault: Fault, subject: Seq<char>) -> CacheErrorView {
    error_about(
        fault,
        Circumstances {
            retried: false,
            compressed: false,
            subject,
            destination: Seq::empty(),
        },
    )
}

/// The error for a fault that is about nothing in particular.
pub open spec fn error_of(fault: Fault) -> CacheErrorView {
    error_on(fault, Seq::empty())
}

/// The error for an answer of the upstream that is an error itself.
pub open spec fn upstream_error(status: u16) -> CacheErrorView {
    CacheErrorView { fault: Fault::Upstream, status, message: Seq::empty() }
}

impl Fault {
    /// The status with which this fault is answered.
    pub fn status(self) -> (res: u16)
        ensures
            res == fault_status(self),
    {
        match self {
            Fault::NotJackbox => 400,
            Fault::IndexMissing => 404,
            Fault::EtagText | Fault::ContentTypeText => 422,
            _ => 500,
        }
    }

    fn opening(self, compressed: bool) -> (res: &'static str)
        ensures
            res@ == fault_opening(self, compressed),
    {
        match self {
            Fault::NotJackbox => "Proxy can only be used with Jackbox services",
            Fault::HostAuthority => "Failed to convert host `",
            Fault::HostHeader => "Failed to convert host `",
            Fault::TargetPath => "Failed to convert `",
            Fault::UriParts => "URI parts did not make a valid URI",
            Fault::EtagMissing => "Etag was not present in response",
            Fault::EtagText => "Etag was not valid UTF-8",
            Fault::ContentTypeText => "Content-Type was not valid UTF-8",
            Fault::EtagHeader => "Failed to convert Etag from String to HeaderValue",
            Fault::ContentTypeHeader => "Failed to convert Content-Type from String to HeaderValue",
            Fault::Acquire => "Failed to acquire resource from `",
            Fault::IndexMissing => "The offline resource `",
            Fault::IndexMalformed => "The offline resource `",
            Fault::BodyParent => "The cached resource `",
            Fault::BodyDirectory => "The directory `",
            Fault::PartOpen => "Failed to open/create part file for resource `",
            Fault::PartLock => "Failed to open part file for writing for resource `",
            Fault::BodyBytes => "Failed to retreive bytes for URL with path: `",
            Fault::PartCopy => if compressed {
                "Failed to copy byte stream to a compressed brotli file"
            } else {
                "Failed to copy byte stream to an uncompressed file"
            },
            Fault::PartShutdown => if compressed {
                "Failed to shutdown compressed brotli file stream"
            } else {
                "Failed to shutdown uncompressed file stream"
            },
            Fault::IndexParent => "Raw cached resource `",
            Fault::IndexDirectory => "Failed to create directory for raw resource `",
            Fault::IndexCreate => "Failed to create file for raw resource `",
            Fault::IndexSerialize => "Failed to serialize raw resource `",
            Fault::PartMove => "Failed to move part file `",
            Fault::BodyRead => "Failed to read cached resource `",
            Fault::BodyMetadata => "Failed to read metadata for cached resource `",
            Fault::BodyOpen => "Failed to open cached resource `",
            Fault::BodyDecompress => "Failed to decompress cached resource `",
            _ => "",
        }
    }

    fn closing(self, retried: bool) -> (res: &'static str)
        ensures
            res@ == fault_closing(self, retried),
    {
        match self {
            Fault::HostAuthority => "` into Authority",
            Fault::HostHeader => "` into HeaderValue",
            Fault::TargetPath => "` to a URI path & query",
            Fault::Acquire => if retried {
                "` (with stripped Etag)"
            } else {
                "`"
            },
            Fault::IndexMissing => if retried {
                "` could not be found (stripped Etag)"
            } else {
                "` could not be found"
            },
            Fault::IndexMalformed => if retried {
                "` could not be deserialized (stripped Etag)"
            } else {
                "` could not be deserialized"
            },
            Fault::BodyParent => "` has no parent directory",
            Fault::BodyDirectory => "` could not be created for the cached resource",
            Fault::PartOpen => "`",
            Fault::PartLock => "`",
            Fault::BodyBytes => "`",
            Fault::IndexParent => "` does not have a parent directory",
            Fault::IndexDirectory => "`",
            Fault::IndexCreate => "`",
            Fault::IndexSerialize => "`",
            Fault::PartMove => "` into it's cached resource path `",
            Fault::BodyRead => "`",
            Fault::BodyMetadata => "`",
            Fault::BodyOpen => "`",
            Fault::BodyDecompress => "`",
            _ => "",
        }
    }

    fn ending(self) -> (res: &'static str)
        ensures
            res@ == fault_ending(self),
    {
        match self {
            Fault::PartMove => "`",
            _ => "",
        }
    }
}

impl CacheError {
    /// The error for a fault, given the circumstances.
    pub fn about(
        fault: Fault,
        retried: bool,
        compressed: bool,
        subject: &str,
        destination: &str,
    ) -> (res: CacheError)
        ensures
            res@ == error_about(
                fault,
                (Circumstances {
                    retried,
                    compressed,
                    subject: subject@,
                    destination: destination@,
                }),
            ),
    {
        let mut message = fault.opening(compressed).to_owned();
        message.append(subject);
        message.append(fault.closing(retried));
        message.append(destination);
        message.append(fault.ending());
        CacheError { fault, status: fault.status(), message }
    }

    /// The error for a fault that is about `subject`.
    pub fn on(fault: Fault, subject: &str) -> (res: CacheError)
        ensures
            res@ == error_on(fault, subject@),
    {
        proof {
            reveal_strlit("");
            assert(""@ =~= Seq::<char>::empty());
        }
        CacheError::about(fault, false, false, subject, "")
    }

    /// The error for a fault that is about nothing in particular.
    pub fn of(fault: Fault) -> (res: CacheError)
        ensures
            res@ == error_of(fault),
    {
        proof {
            reveal_strlit("");
            assert(""@ =~= Seq::<char>::empty());
        }
        CacheError::on(fault, "")
    }

    /// The error for an answer of the upstream that is an error itself.
    pub fn upstream(status: u16) -> (res: CacheError)
        ensures
            res@ == upstream_error(status),
    {
        CacheError { fault: Fault::Upstream, status, message: String::new() }
    }
}

}
