//! The responses of the HTTP front end, decided from plain values.
//!
//! Routing is an exact match of the request's path and query against the
//! index path `/` and the configured stream and snapshot paths. Every reply
//! then gets the same cache-defeating and server headers.
use vstd::prelude::*;
use crate::frames::{Control, Frame, FrameStream, Frames, Timestamp, release_step};
use crate::text::{decimal, fixed_digits, push_decimal, push_fixed_digits};

verus! {

/// Configurable paths to the HTTP server's endpoints.
#[derive(Debug, Clone)]
pub struct Paths {
    pub stream: String,
    pub snapshot: String,
}

/// Which handler a request goes to.
#[derive(Clone, Copy, Debug, PartialEq, Eq, Structural)]
pub enum Route {
    Index,
    Stream,
    Snapshot,
    NotFound,
}

/// One header line: name and value.
#[derive(Debug, Clone)]
pub struct Header {
    pub name: String,
    pub value: String,
}

/// The body of a reply.
#[derive(Debug, Clone)]
pub enum Body {
    Text(String),
    Image(Vec<u8>),
    /// A `multipart/x-mixed-replace` stream separated by `boundary`, one part
    /// per frame of the request's subscription, written as the frames come.
    Multipart { boundary: String },
}

/// A response: status, headers in order, body.
#[derive(Debug, Clone)]
pub struct Reply {
    pub status: u16,
    pub headers: Vec<Header>,
    pub body: Body,
}

/// The headers as (name, value) pairs.
pub open spec fn header_pairs(hs: Seq<Header>) -> Seq<(Seq<char>, Seq<char>)> {
    hs.map_values(|h: Header| (h.name@, h.value@))
}

/// The route of `path`: the index path first, then the stream path, then the
/// snapshot path.
pub open spec fn route_of(paths: Paths, path: Seq<char>) -> Route {
    if path == "/"@ {
        Route::Index
    } else if path == paths.stream@ {
        Route::Stream
    } else if path == paths.snapshot@ {
        Route::Snapshot
    } else {
        Route::NotFound
    }
}

/// The name the server gives itself, with its version.
pub open spec fn server_name(version: Seq<char>) -> Seq<char> {
    "gst-mjpg/v"@ + version
}

/// The headers every reply carries.
pub open spec fn common_headers(version: Seq<char>) -> Seq<(Seq<char>, Seq<char>)> {
    seq![
        ("Server"@, server_name(version)),
        ("Cache-Control"@, "no-store, no-cache, must-revalidate, pre-check=0, post-check=0, max-age=0"@),
        ("Pragma"@, "no-cache"@),
        ("Expires"@, "Mon, 3 Jan 2000 12:34:56 GMT"@),
    ]
}

/// The index page: links to the stream and snapshot paths, and the version.
pub open spec fn index_page(paths: Paths, version: Seq<char>) -> Seq<char> {
    "<html><body><h1><code>gst-mjpg</code></h1><p><a href=\""@ + paths.stream@
        + "\">start stream</a><p><a href=\""@ + paths.snapshot@
        + "\">get snapshot</a><address>"@ + server_name(version)
}

/// A timestamp as seconds, a point, and six digits of microseconds.
pub open spec fn timestamp_chars(ts: Timestamp) -> Seq<char> {
    decimal(ts.secs as nat) + "."@ + fixed_digits(ts.micros as nat, 6)
}

/// The headers of the part that carries a frame with timestamp `ts`.
pub open spec fn part_header_pairs(ts: Option<Timestamp>) -> Seq<(Seq<char>, Seq<char>)> {
    match ts {
        Some(t) => seq![("Content-Type"@, "image/jpeg"@), ("X-Timestamp"@, timestamp_chars(t))],
        None => seq![("Content-Type"@, "image/jpeg"@)],
    }
}

/// The reply is `status` with the single header `Content-Type: content_type`.
pub open spec fn is_reply(r: Reply, status: u16, content_type: Seq<char>) -> bool {
    &&& r.status == status
    &&& header_pairs(r.headers@) == seq![("Content-Type"@, content_type)]
}

/// The text of a server error reply.
pub open spec fn server_error_text(message: Seq<char>) -> Seq<char> {
    "server error: "@ + message
}

fn header(name: &str, value: String) -> (h: Header)
    ensures
        h.name@ == name@,
        h.value@ == value@,
{
    Header { name: String::from_str(name), value }
}

fn single_header(name: &str, value: String) -> (r: Vec<Header>)
    ensures
        r@.len() == 1,
        header_pairs(r@) == seq![(name@, value@)],
{
    let mut r: Vec<Header> = Vec::new();
    r.push(header(name, value));
    assert(header_pairs(r@) =~= seq![(name@, value@)]);
    r
}

/// Picks the handler for the request's path and query.
pub fn route(paths: &Paths, path: &str) -> (r: Route)
    ensures
        r == route_of(*paths, path@),
{
    let p = path.to_owned();
    if p == String::from_str("/") {
        Route::Index
    } else if p == paths.stream {
        Route::Stream
    } else if p == paths.snapshot {
        Route::Snapshot
    } else {
        Route::NotFound
    }
}

/// The index page, as HTML.
pub fn index(paths: &Paths, version: &str) -> (r: Reply)
    ensures
        is_reply(r, 200, "text/html"@),
        r.body matches Body::Text(t) && t@ == index_page(*paths, version@),
{
    let mut page = String::from_str("<html><body><h1><code>gst-mjpg</code></h1><p><a href=\"");
    page.append(paths.stream.as_str());
    page.append("\">start stream</a><p><a href=\"");
    page.append(paths.snapshot.as_str());
    page.append("\">get snapshot</a><address>");
    page.append(server_header(version).as_str());
    assert(page@ =~= index_page(*paths, version@));
    Reply { status: 200, headers: single_header("Content-Type", String::from_str("text/html")), body: Body::Text(page) }
}

/// The reply for a path that no handler serves: 404, naming the path.
pub fn not_found(path: &str) -> (r: Reply)
    ensures
        is_reply(r, 404, "text/plain"@),
        r.body matches Body::Text(t) && t@ == "nothing configured for the path \""@ + path@ + "\""@,
{
    let mut text = String::from_str("nothing configured for the path \"");
    text.append(path);
    text.append("\"");
    Reply { status: 404, headers: single_header("Content-Type", String::from_str("text/plain")), body: Body::Text(text) }
}

/// The reply for a failed request: 500, with the error's description.
pub fn server_error(message: &str) -> (r: Reply)
    ensures
        is_reply(r, 500, "text/plain"@),
        r.body matches Body::Text(t) && t@ == server_error_text(message@),
{
    let text = String::from_str("server error: ").concat(message);
    Reply { status: 500, headers: single_header("Content-Type", String::from_str("text/plain")), body: Body::Text(text) }
}

/// The snapshot reply for the first thing read from a fresh subscription:
/// that frame's bytes as a JPEG image, or a server error when the frames
/// ended before one came.
pub fn handle_snapshot(first: Option<Frame>) -> (r: Reply)
    ensures
        first is Some ==> is_reply(r, 200, "image/jpeg"@),
        first is Some ==> (r.body matches Body::Image(d) && d@ == first->Some_0.data@),
        first is None ==> is_reply(r, 500, "text/plain"@),
        first is None ==> (r.body matches Body::Text(t) && t@ == server_error_text(
            "no frames from video source"@,
        )),
{
    match first {
        Some(f) => Reply {
            status: 200,
            headers: single_header("Content-Type", String::from_str("image/jpeg")),
            body: Body::Image(f.data),
        },
        None => server_error("no frames from video source"),
    }
}

/// Ends a snapshot request: releases its subscription `s` first, whatever
/// was read, then replies with the first frame read from it (`None` when the
/// frames ended before one came). Also returns the release's command for the
/// capture source.
pub fn finish_snapshot<T>(frames: &mut Frames<T>, s: &mut FrameStream, first: Option<Frame>) -> (r: (
    Reply,
    Control,
))
    ensures
        (final(frames)@, final(s)@, r.1) == release_step(old(frames)@, old(s)@),
        final(s)@.released,
        first is Some ==> is_reply(r.0, 200, "image/jpeg"@),
        first is Some ==> (r.0.body matches Body::Image(d) && d@ == first->Some_0.data@),
        first is None ==> is_reply(r.0, 500, "text/plain"@),
        first is None ==> (r.0.body matches Body::Text(t) && t@ == server_error_text(
            "no frames from video source"@,
        )),
{
    let control = frames.release(s);
    (handle_snapshot(first), control)
}

/// The head of a streaming reply whose parts are separated by `boundary`.
pub fn handle_stream(boundary: &str) -> (r: Reply)
    ensures
        is_reply(r, 200, "multipart/x-mixed-replace; boundary="@ + boundary@),
        r.body matches Body::Multipart { boundary: b } && b@ == boundary@,
{
    let content_type = String::from_str("multipart/x-mixed-replace; boundary=").concat(boundary);
    Reply {
        status: 200,
        headers: single_header("Content-Type", content_type),
        body: Body::Multipart { boundary: String::from_str(boundary) },
    }
}

/// The timestamp as `SECONDS.MICROS`, the microseconds zero-padded to six digits.
pub fn timestamp_text(ts: Timestamp) -> (r: String)
    requires
        ts.wf(),
    ensures
        r@ == timestamp_chars(ts),
{
    let mut r = String::new();
    push_decimal(&mut r, ts.secs);
    r.append(".");
    push_fixed_digits(&mut r, ts.micros as u64, 6);
    assert(r@ =~= timestamp_chars(ts));
    r
}

/// The headers of the multipart part that carries a frame with timestamp `ts`.
pub fn part_headers(ts: Option<Timestamp>) -> (r: Vec<Header>)
    requires
        ts matches Some(t) ==> t.wf(),
    ensures
        header_pairs(r@) == part_header_pairs(ts),
{
    let mut r = single_header("Content-Type", String::from_str("image/jpeg"));
    match ts {
        Some(t) => {
            let ghost before = r@;
            let h = header("X-Timestamp", timestamp_text(t));
            r.push(h);
            assert(r@[0] == before[0]);
            assert(header_pairs(before)[0] == ("Content-Type"@, "image/jpeg"@));
            assert(header_pairs(r@)[0] == header_pairs(before)[0]);
            assert(header_pairs(r@)[1] == ("X-Timestamp"@, timestamp_chars(t)));
            assert(header_pairs(r@) =~= part_header_pairs(ts));
        },
        None => {},
    }
    r
}

/// The value of the `Server` header.
pub fn server_header(version: &str) -> (r: String)
    ensures
        r@ == server_name(version@),
{
    String::from_str("gst-mjpg/v").concat(version)
}

/// Appends the headers every reply carries.
pub fn add_common_headers(reply: &mut Reply, version: &str)
    ensures
        final(reply).status == old(reply).status,
        final(reply).body == old(reply).body,
        header_pairs(final(reply).headers@) == header_pairs(old(reply).headers@) + common_headers(
            version@,
        ),
{
    let ghost before = reply.headers@;
    reply.headers.push(header("Server", server_header(version)));
    reply.headers.push(
        header(
            "Cache-Control",
            String::from_str("no-store, no-cache, must-revalidate, pre-check=0, post-check=0, max-age=0"),
        ),
    );
    reply.headers.push(header("Pragma", String::from_str("no-cache")));
    reply.headers.push(header("Expires", String::from_str("Mon, 3 Jan 2000 12:34:56 GMT")));
    assert(header_pairs(reply.headers@) =~= header_pairs(before) + common_headers(version@));
}

} // verus!
