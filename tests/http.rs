use futures::StreamExt;
use gst_mjpg::frames::{Delivery, Frame, Frames, Received, Timestamp};
use gst_mjpg::http::{
    add_common_headers, handle_snapshot, handle_stream, index, not_found, part_headers, route,
    server_error, server_header, timestamp_text, Body, Header, Paths, Reply, Route,
};

fn paths() -> Paths {
    Paths { stream: "/stream".to_string(), snapshot: "/snapshot".to_string() }
}

fn pairs(hs: &[Header]) -> Vec<(String, String)> {
    hs.iter().map(|h| (h.name.clone(), h.value.clone())).collect()
}

fn text(r: &Reply) -> String {
    match &r.body {
        Body::Text(t) => t.clone(),
        other => panic!("not a text body: {other:?}"),
    }
}

#[test]
fn routes_by_exact_path() {
    let p = paths();
    assert_eq!(route(&p, "/"), Route::Index);
    assert_eq!(route(&p, "/stream"), Route::Stream);
    assert_eq!(route(&p, "/snapshot"), Route::Snapshot);
    assert_eq!(route(&p, "/stream/"), Route::NotFound);
    assert_eq!(route(&p, "/snapshot?x=1"), Route::NotFound);
    assert_eq!(route(&p, ""), Route::NotFound);
}

#[test]
fn routes_with_query_in_configured_path() {
    let p = Paths { stream: "/?action=stream".to_string(), snapshot: "/?action=snapshot".to_string() };
    assert_eq!(route(&p, "/?action=stream"), Route::Stream);
    assert_eq!(route(&p, "/?action=snapshot"), Route::Snapshot);
    assert_eq!(route(&p, "/"), Route::Index);
}

#[test]
fn index_path_wins_over_configured_paths() {
    let p = Paths { stream: "/".to_string(), snapshot: "/".to_string() };
    assert_eq!(route(&p, "/"), Route::Index);
}

#[test]
fn unmatched_path_is_not_found() {
    let p = paths();
    assert_eq!(route(&p, "/bogus"), Route::NotFound);
    let r = not_found("/bogus");
    assert_eq!(r.status, 404);
    assert!(text(&r).contains("/bogus"));
    assert_eq!(text(&r), "nothing configured for the path \"/bogus\"");
    assert_eq!(pairs(&r.headers), vec![("Content-Type".to_string(), "text/plain".to_string())]);
}

#[test]
fn index_links_both_paths() {
    let r = index(&paths(), "1.2.3");
    assert_eq!(r.status, 200);
    assert_eq!(pairs(&r.headers), vec![("Content-Type".to_string(), "text/html".to_string())]);
    assert_eq!(
        text(&r),
        "<html><body><h1><code>gst-mjpg</code></h1><p><a href=\"/stream\">start stream</a>\
         <p><a href=\"/snapshot\">get snapshot</a><address>gst-mjpg/v1.2.3"
    );
}

#[test]
fn server_error_describes_error() {
    let r = server_error("boom");
    assert_eq!(r.status, 500);
    assert_eq!(text(&r), "server error: boom");
    assert_eq!(pairs(&r.headers), vec![("Content-Type".to_string(), "text/plain".to_string())]);
}

#[test]
fn snapshot_reply_carries_frame_bytes() {
    let f = Frame { data: vec![0xff, 0xd8, 0x01], timestamp: None };
    let r = handle_snapshot(Some(f));
    assert_eq!(r.status, 200);
    assert_eq!(pairs(&r.headers), vec![("Content-Type".to_string(), "image/jpeg".to_string())]);
    assert!(matches!(r.body, Body::Image(ref d) if *d == vec![0xff, 0xd8, 0x01]));
    let e = handle_snapshot(None);
    assert_eq!(e.status, 500);
    assert_eq!(text(&e), "server error: no frames from video source");
}

#[test]
fn stream_reply_names_boundary() {
    let r = handle_stream("abc-123");
    assert_eq!(r.status, 200);
    assert_eq!(
        pairs(&r.headers),
        vec![("Content-Type".to_string(), "multipart/x-mixed-replace; boundary=abc-123".to_string())]
    );
    assert!(matches!(r.body, Body::Multipart { ref boundary } if boundary == "abc-123"));
}

#[test]
fn timestamp_micros_are_zero_padded() {
    assert_eq!(timestamp_text(Timestamp { secs: 0, micros: 0 }), "0.000000");
    assert_eq!(timestamp_text(Timestamp { secs: 0, micros: 33000 }), "0.033000");
    assert_eq!(timestamp_text(Timestamp { secs: 12, micros: 345678 }), "12.345678");
    assert_eq!(timestamp_text(Timestamp { secs: 7, micros: 5 }), "7.000005");
    assert_eq!(
        timestamp_text(Timestamp { secs: u64::MAX, micros: 999999 }),
        "18446744073709551615.999999"
    );
}

#[test]
fn part_headers_with_and_without_timestamp() {
    assert_eq!(
        pairs(&part_headers(None)),
        vec![("Content-Type".to_string(), "image/jpeg".to_string())]
    );
    assert_eq!(
        pairs(&part_headers(Some(Timestamp { secs: 1, micros: 250000 }))),
        vec![
            ("Content-Type".to_string(), "image/jpeg".to_string()),
            ("X-Timestamp".to_string(), "1.250000".to_string()),
        ]
    );
}

#[test]
fn common_headers_are_appended() {
    let mut r = not_found("/x");
    add_common_headers(&mut r, "0.4.1");
    assert_eq!(r.status, 404);
    assert_eq!(
        pairs(&r.headers),
        vec![
            ("Content-Type".to_string(), "text/plain".to_string()),
            ("Server".to_string(), "gst-mjpg/v0.4.1".to_string()),
            (
                "Cache-Control".to_string(),
                "no-store, no-cache, must-revalidate, pre-check=0, post-check=0, max-age=0".to_string()
            ),
            ("Pragma".to_string(), "no-cache".to_string()),
            ("Expires".to_string(), "Mon, 3 Jan 2000 12:34:56 GMT".to_string()),
        ]
    );
    assert_eq!(server_header("2.0"), "gst-mjpg/v2.0");
}

fn multipart_body(boundary: &str, frames: Vec<Frame>) -> String {
    let parts = frames.into_iter().map(|f| {
        let mut headers = http::HeaderMap::new();
        for h in part_headers(f.timestamp) {
            headers.append(
                http::HeaderName::from_bytes(h.name.as_bytes()).unwrap(),
                http::HeaderValue::from_str(&h.value).unwrap(),
            );
        }
        Ok::<_, std::convert::Infallible>(multipart_stream::Part {
            headers,
            body: bytes::Bytes::from(f.data),
        })
    });
    let chunks = multipart_stream::serializer::serialize(futures::stream::iter(parts), boundary);
    let collected: Vec<Result<bytes::Bytes, std::convert::Infallible>> =
        futures::executor::block_on(chunks.collect());
    let mut out = Vec::new();
    for c in collected {
        out.extend_from_slice(&c.unwrap());
    }
    String::from_utf8(out).unwrap()
}

#[test]
fn stream_body_has_one_part_per_frame() {
    let mut subscribers = Frames::<Frame>::new();
    let mut sub = subscribers.stream().stream;
    let source = vec![
        Received::Frame(Frame { data: b"f1".to_vec(), timestamp: Some(Timestamp { secs: 0, micros: 0 }) }),
        Received::Frame(Frame { data: b"f2".to_vec(), timestamp: Some(Timestamp { secs: 0, micros: 33000 }) }),
        Received::Closed,
        Received::Frame(Frame { data: b"late".to_vec(), timestamp: None }),
    ];
    let mut frames = Vec::new();
    for r in source {
        match sub.receive(r) {
            Delivery::Frame(f) => frames.push(f),
            Delivery::Retry => {}
            Delivery::End => break,
        }
    }
    assert_eq!(frames.len(), 2);
    let reply = handle_stream("BND");
    assert!(matches!(reply.body, Body::Multipart { ref boundary } if boundary == "BND"));
    let body = multipart_body("BND", frames);
    assert_eq!(body.matches("--BND\r\n").count(), 2);
    let parts: Vec<&str> = body.split("--BND\r\n").filter(|p| !p.is_empty()).collect();
    assert_eq!(parts.len(), 2);
    assert!(parts[0].contains("content-type: image/jpeg\r\n"));
    assert!(parts[0].contains("x-timestamp: 0.000000\r\n"));
    assert!(parts[0].ends_with("\r\n\r\nf1"));
    assert!(parts[1].contains("content-type: image/jpeg\r\n"));
    assert!(parts[1].contains("x-timestamp: 0.033000\r\n"));
    assert!(parts[1].ends_with("\r\n\r\nf2"));
}
