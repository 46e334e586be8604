//! A caching proxy in front of Jackbox's servers.
//!
//! A request is routed to `jackbox.tv`, or to another of Jackbox's hosts that its path names. What
//! the upstream sends is stored on disk under its entity tag, and an index entry under the path of
//! the resource says which entity tag that is. Later requests are answered from there.
//!
//! This crate decides; it does no I/O. [`cache::HttpCache::get_cached`] begins a
//! [`session::Session`], which says what is to be done next; its caller does that, and hands what
//! came of it to [`session::Session::resume`], until there is a reply to send or an error.

pub mod accept;
pub mod cache;
pub mod coding;
pub mod fault;
pub mod http;
pub mod laws;
pub mod part;
pub mod response;
pub mod rewrite;
pub mod route;
pub mod session;
pub mod text;
