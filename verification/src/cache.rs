//! The cache: how a request begins.

use std::sync::Arc;

use axum::http::uri::Uri;
use axum::http::HeaderMap;
use vstd::prelude::*;

use crate::fault::{outcome, CacheError, CacheErrorView};
use crate::http::{header_entries, holds_at_most, uri_parts, uri_target, Entries, MAX_NAMES};
use crate::route::{precedes_headers, routed, Route};
use crate::session::{first_step, CacheMode, Regexes, Session, SessionView};

verus! {

/// A cache in front of Jackbox's servers.
pub struct HttpCache {
    pub regexes: Arc<Regexes>,
}

impl Clone for HttpCache {
    fn clone(&self) -> (res: HttpCache)
        ensures
            res.regexes == self.regexes,
    {
        HttpCache { regexes: self.regexes.clone() }
    }
}

/// The session that answers a request with the given path and query and header entries, or the
/// error with which it is refused.
pub open spec fn begun(
    target: Option<Seq<char>>,
    entries: Entries,
    cache_mode: CacheMode,
    accessible_host: Seq<char>,
    regexes: Regexes,
) -> Result<SessionView, CacheErrorView> {
    match routed(target, entries, regexes.jackbox_urls) {
        Ok(route) => Ok(
            SessionView {
                route,
                cache_mode,
                accessible_host,
                regexes,
                progress: first_step(cache_mode),
            },
        ),
        Err(error) => Err(error),
    }
}

impl HttpCache {
    /// Begins to answer a request; nothing where its headers have no room for another name.
    pub fn get_cached(
        &self,
        uri: Uri,
        headers: HeaderMap,
        cache_mode: CacheMode,
        accessible_host: &str,
    ) -> (res: Option<Result<Session, CacheError>>)
        ensures
            res matches Some(begin) ==> outcome(begin) == begun(
                uri_parts(uri).path_and_query,
                header_entries(headers),
                cache_mode,
                accessible_host@,
                *self.regexes,
            ),
            holds_at_most(headers, MAX_NAMES - 1) ==> res is Some,
            begun(
                uri_parts(uri).path_and_query,
                header_entries(headers),
                cache_mode,
                accessible_host@,
                *self.regexes,
            ) matches Err(error) && precedes_headers(error.fault) ==> res is Some,
    {
        match Route::new(uri_target(uri), headers, &self.regexes.jackbox_urls) {
            None => None,
            Some(Err(error)) => Some(Err(error)),
            Some(Ok(route)) => Some(
                Ok(Session::begin(route, cache_mode, accessible_host, self.regexes.clone())),
            ),
        }
    }
}

}
