//! The traffic observer: which requests are logged, and what the record holds.

use vstd::prelude::*;
use crate::addr::SocketAddr;
use crate::text::{chars_of, ends_with, starts_with};

verus! {

/// What the pipeline knows of one request: who sent it and what it asks for.
#[derive(Clone, Debug, PartialEq, Eq)]
pub struct RequestContext {
    pub peer_address: SocketAddr,
    pub method: String,
    /// The request target as received, query string included.
    pub uri: String,
}

/// A request as contracts see it: its texts by their characters.
pub struct RequestView {
    pub peer_address: SocketAddr,
    pub method: Seq<char>,
    pub uri: Seq<char>,
}

impl View for RequestContext {
    type V = RequestView;

    open spec fn view(&self) -> RequestView {
        RequestView {
            peer_address: self.peer_address,
            method: self.method@,
            uri: self.uri@,
        }
    }
}

/// One line of the access log.
#[derive(Clone, Debug, PartialEq, Eq)]
pub struct LogRecord {
    pub method: String,
    pub uri: String,
    pub peer_address: SocketAddr,
    /// The status of the response that the client was sent.
    pub status: u16,
}

/// A log record as contracts see it.
pub struct RecordView {
    pub method: Seq<char>,
    pub uri: Seq<char>,
    pub peer_address: SocketAddr,
    pub status: u16,
}

impl View for LogRecord {
    type V = RecordView;

    open spec fn view(&self) -> RecordView {
        RecordView {
            method: self.method@,
            uri: self.uri@,
            peer_address: self.peer_address,
            status: self.status,
        }
    }
}

/// The view of a record that may be absent.
pub open spec fn record_view(record: Option<LogRecord>) -> Option<RecordView> {
    match record {
        Some(r) => Some(r@),
        None => None,
    }
}

/// A path is a static asset when it lies under `/assets/` or ends in one of six
/// file extensions. The comparison is by character and case-sensitive.
pub open spec fn is_static_asset_path(path: Seq<char>) -> bool {
    ||| "/assets/"@.is_prefix_of(path)
    ||| ".css"@.is_suffix_of(path)
    ||| ".js"@.is_suffix_of(path)
    ||| ".png"@.is_suffix_of(path)
    ||| ".svg"@.is_suffix_of(path)
    ||| ".ico"@.is_suffix_of(path)
    ||| ".woff2"@.is_suffix_of(path)
}

/// The path component of the request target `uri`, as the `http` crate reads
/// it, or `None` where that crate takes `uri` for no valid target.
pub uninterp spec fn uri_path_of(uri: Seq<char>) -> Option<Seq<char>>;

/// The view of a text that may be absent.
pub open spec fn text_view(text: Option<String>) -> Option<Seq<char>> {
    match text {
        Some(t) => Some(t@),
        None => None,
    }
}

/// Whether a request for `uri` is written to the access log: every request is
/// but those whose path is a static asset. A target without a readable path is
/// logged.
pub open spec fn is_logged(uri: Seq<char>) -> bool {
    match uri_path_of(uri) {
        Some(path) => !is_static_asset_path(path),
        None => true,
    }
}

/// What the observer writes for a request that was answered with `status`:
/// nothing for a static asset, else the request's own fields and the status.
pub open spec fn record_for(request: RequestView, status: u16) -> Option<RecordView> {
    if !is_logged(request.uri) {
        None
    } else {
        Some(
            RecordView {
                method: request.method,
                uri: request.uri,
                peer_address: request.peer_address,
                status,
            },
        )
    }
}

/// Classifies a request path for the access log.
pub fn is_static_asset(path: &str) -> (asset: bool)
    ensures
        asset == is_static_asset_path(path@),
{
    let text = chars_of(path);
    starts_with(&text, "/assets/")
        || ends_with(&text, ".css")
        || ends_with(&text, ".js")
        || ends_with(&text, ".png")
        || ends_with(&text, ".svg")
        || ends_with(&text, ".ico")
        || ends_with(&text, ".woff2")
}

/// Parses `uri` with `Uri::from_str` of the `http` crate, as axum hands it on,
/// and reads the result with `Uri::path`. Nothing is claimed of either but that
/// what they give depends on the text alone; a parse error becomes `None`.
#[verifier::external_body]
fn uri_path(uri: &str) -> (path: Option<String>)
    ensures
        text_view(path) == uri_path_of(uri@),
{
    match uri.parse::<axum::http::Uri>() {
        Ok(parsed) => Some(parsed.path().to_owned()),
        Err(_) => None,
    }
}

/// Whether a request for `uri` is to be written to the access log.
pub fn logs_request(uri: &str) -> (logged: bool)
    ensures
        logged == is_logged(uri@),
{
    match uri_path(uri) {
        Some(path) => !is_static_asset(path.as_str()),
        None => true,
    }
}

/// The observer's stage, run once the response to `ctx` is known.
///
/// Returns the record to emit, if any. The request and the response are not
/// touched: the caller sends on what it got.
pub fn log_traffic(ctx: &RequestContext, status: u16) -> (record: Option<LogRecord>)
    ensures
        record_view(record) == record_for(ctx@, status),
{
    if !logs_request(ctx.uri.as_str()) {
        None
    } else {
        Some(
            LogRecord {
                method: ctx.method.clone(),
                uri: ctx.uri.clone(),
                peer_address: ctx.peer_address,
                status,
            },
        )
    }
}

} // verus!
