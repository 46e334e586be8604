//! What is kept of an upstream response, and what is told of it to the client.

use axum::http::HeaderMap;
use regex::Regex;
use vstd::prelude::*;
use vstd::string::*;
use vstd::utf8::*;

use crate::fault::{error_of, outcome, CacheError, CacheErrorView, Fault};
use crate::http::{
    ascii_text, first_value, header_entries, header_get, header_insert, header_new, header_outcome,
    header_remove, header_text, header_value, holds_at_most, value_allowed, value_visible, Entries,
};
use crate::rewrite::{is_match, regex_matches};
use crate::text::bytes_spell;

verus! {

/// What the cache keeps of an upstream response beside its body.
#[derive(Debug)]
pub struct JBHttpResponse {
    /// The entity tag, under which the body is stored.
    pub etag: String,
    pub content_type: Option<String>,
    /// Whether the body is stored compressed.
    pub compressed: bool,
}

/// The view of a `JBHttpResponse`.
#[verifier::ext_equal]
pub struct JBHttpResponseView {
    pub etag: Seq<char>,
    pub content_type: Option<Seq<char>>,
    pub compressed: bool,
}

impl View for JBHttpResponse {
    type V = JBHttpResponseView;

    open spec fn view(&self) -> JBHttpResponseView {
        JBHttpResponseView {
            etag: self.etag@,
            content_type: match self.content_type {
                Some(content_type) => Some(content_type@),
                None => None,
            },
            compressed: self.compressed,
        }
    }
}

/// What is kept of a response with the given header entries, or why it cannot be kept.
pub open spec fn described(entries: Entries, content_to_compress: Regex) -> Result<
    JBHttpResponseView,
    CacheErrorView,
> {
    match (first_value(entries, "etag"@), first_value(entries, "content-type"@)) {
        (None, _) => Err(error_of(Fault::EtagMissing)),
        (Some(etag), _) if !value_visible(etag) => Err(error_of(Fault::EtagText)),
        (Some(_), Some(content_type)) if !value_visible(content_type) => Err(
            error_of(Fault::ContentTypeText),
        ),
        (Some(etag), Some(content_type)) => Ok(
            JBHttpResponseView {
                etag: ascii_text(etag),
                content_type: Some(ascii_text(content_type)),
                compressed: regex_matches(content_to_compress, ascii_text(content_type)),
            },
        ),
        (Some(etag), None) => Ok(
            JBHttpResponseView {
                etag: ascii_text(etag),
                content_type: None,
                compressed: false,
            },
        ),
    }
}

/// The header entries that tell of a kept response, or why they cannot be made.
pub open spec fn told(response: JBHttpResponseView) -> Result<Entries, CacheErrorView> {
    let etag = encode_utf8(response.etag);
    let tagged = Entries::empty().insert("etag"@, seq![etag]);
    if !value_allowed(etag) {
        Err(error_of(Fault::EtagHeader))
    } else {
        match response.content_type {
            None => Ok(tagged),
            Some(content_type) => {
                let content_type = encode_utf8(content_type);
                if !value_allowed(content_type) {
                    Err(error_of(Fault::ContentTypeHeader))
                } else {
                    Ok(tagged.insert("content-type"@, seq![content_type]))
                }
            },
        }
    }
}

/// The header entries of the reply to a client that accepts brotli or does not.
pub open spec fn replied(response: JBHttpResponseView, br: bool) -> Result<
    Entries,
    CacheErrorView,
> {
    match told(response) {
        Ok(entries) => Ok(
            if br && response.compressed {
                entries.insert("content-encoding"@, seq![encode_utf8("br"@)])
            } else {
                entries
            },
        ),
        Err(error) => Err(error),
    }
}

/// The content types whose bodies have their links rewritten.
pub open spec fn holds_links(content_type: Option<Seq<char>>) -> bool {
    ||| content_type == Some("text/html"@)
    ||| content_type == Some("text/javascript"@)
    ||| content_type == Some("application.json"@)
    ||| content_type == Some("text/css"@)
}

/// The names in a reply are three different ones.
pub proof fn reply_names_differ()
    ensures
        "etag"@ != "content-type"@,
        "etag"@ != "content-encoding"@,
        "content-type"@ != "content-encoding"@,
{
    reveal_strlit("etag");
    reveal_strlit("content-type");
    reveal_strlit("content-encoding");
    assert("etag"@.len() == 4);
    assert("content-type"@.len() == 12);
    assert("content-encoding"@.len() == 16);
}

/// `br` is a value that a header can hold.
proof fn br_allowed()
    ensures
        value_allowed(encode_utf8("br"@)),
{
    reveal_strlit("br");
    assert(is_ascii_chars("br"@));
    is_ascii_chars_encode_utf8("br"@);
    assert("br"@[0] == 'b' && "br"@[1] == 'r');
}

/// Texts with the same UTF-8 bytes are the same.
proof fn same_bytes_same_text(a: Seq<char>, b: Seq<char>)
    ensures
        encode_utf8(a) == encode_utf8(b) <==> a == b,
{
    encode_utf8_decode_utf8(a);
    encode_utf8_decode_utf8(b);
}

impl JBHttpResponse {
    /// What is kept of a response with the given headers. Its body is stored compressed where
    /// the content type asks for it.
    pub fn from_request(headers: &HeaderMap, content_to_compress: &Regex) -> (res: Result<
        JBHttpResponse,
        CacheError,
    >)
        ensures
            outcome(res) == described(header_entries(*headers), *content_to_compress),
    {
        let etag = match header_get(headers, "etag") {
            None => {
                return Err(CacheError::of(Fault::EtagMissing));
            },
            Some(value) => match header_text(value.as_slice()) {
                Err(_) => {
                    return Err(CacheError::of(Fault::EtagText));
                },
                Ok(text) => text,
            },
        };
        match header_get(headers, "content-type") {
            None => Ok(JBHttpResponse { etag, content_type: None, compressed: false }),
            Some(value) => match header_text(value.as_slice()) {
                Err(_) => Err(CacheError::of(Fault::ContentTypeText)),
                Ok(text) => {
                    let compressed = is_match(content_to_compress, text.as_str());
                    Ok(JBHttpResponse { etag, content_type: Some(text), compressed })
                },
            },
        }
    }

    /// The headers that tell of this response.
    pub fn headers(&self) -> (res: Result<HeaderMap, CacheError>)
        ensures
            header_outcome(res) == told(self@),
            res matches Ok(headers) ==> holds_at_most(headers, 2),
    {
        let mut headers = header_new();
        match header_value(self.etag.as_str()) {
            Err(_) => {
                return Err(CacheError::of(Fault::EtagHeader));
            },
            Ok(value) => header_insert(&mut headers, "etag", value.as_slice()),
        }
        if let Some(content_type) = &self.content_type {
            match header_value(content_type.as_str()) {
                Err(_) => {
                    return Err(CacheError::of(Fault::ContentTypeHeader));
                },
                Ok(value) => header_insert(&mut headers, "content-type", value.as_slice()),
            }
        }
        Ok(headers)
    }

    /// The headers of the reply to a client that accepts brotli or does not.
    pub fn reply_headers(&self, br: bool) -> (res: Result<HeaderMap, CacheError>)
        ensures
            header_outcome(res) == replied(self@, br),
    {
        let mut headers = match self.headers() {
            Err(error) => {
                return Err(error);
            },
            Ok(headers) => headers,
        };
        proof {
            reply_names_differ();
            br_allowed();
        }
        if br {
            if self.compressed {
                header_insert(&mut headers, "content-encoding", "br".as_bytes());
            }
        } else {
            let ghost entries = header_entries(headers);
            header_remove(&mut headers, "content-encoding");
            assert(entries.remove("content-encoding"@) =~= entries);
        }
        Ok(headers)
    }

    /// Whether the links in the body are to be rewritten, which the content type in the headers
    /// decides.
    pub fn has_links(&self) -> (res: Result<bool, CacheError>)
        ensures
            match (res, told(self@)) {
                (Ok(links), Ok(_)) => links == holds_links(self@.content_type),
                (Err(error), Err(told)) => error@ == told,
                _ => false,
            },
    {
        let headers = match self.headers() {
            Err(error) => {
                return Err(error);
            },
            Ok(headers) => headers,
        };
        let value = header_get(&headers, "content-type");
        proof {
            reply_names_differ();
            if let Some(content_type) = self@.content_type {
                same_bytes_same_text(content_type, "text/html"@);
                same_bytes_same_text(content_type, "text/javascript"@);
                same_bytes_same_text(content_type, "application.json"@);
                same_bytes_same_text(content_type, "text/css"@);
            }
        }
        match value {
            None => Ok(false),
            Some(bytes) => {
                let bytes = bytes.as_slice();
                Ok(
                    bytes_spell(bytes, "text/html") || bytes_spell(bytes, "text/javascript")
                        || bytes_spell(bytes, "application.json") || bytes_spell(
                        bytes,
                        "text/css",
                    ),
                )
            },
        }
    }
}

}
