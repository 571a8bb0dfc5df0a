use fileslink::download::{
    files_id, proxy_to_fasttelethon, service_path_of, Download, DownloadEvent, Proxy, ProxyEvent,
    Upstream,
};
use fileslink::names::sanitize_filename;
use fileslink::record::FileMetadata;
use fileslink::reply::{content_disposition_of, mime_or_bytes_of, Reply, Source};
use fileslink::upload::{record_of_upload, UploadJob};

fn record(mime_type: Option<&str>, message_id: Option<i32>) -> FileMetadata {
    FileMetadata {
        unique_id: "abc".to_string(),
        telegram_file_id: "tg".to_string(),
        file_name: "a\"b.txt".to_string(),
        mime_type: mime_type.map(|s| s.to_string()),
        file_size: 3,
        uploaded_at: 0,
        message_id,
    }
}

fn dl(force: bool) -> Option<String> {
    if force {
        Some("1".to_string())
    } else {
        None
    }
}

fn located(force: bool, mime_type: Option<&str>) -> Download {
    let state = Download::new("abc".to_string(), dl(force));
    files_id(state, DownloadEvent::Found(Some(record(mime_type, Some(5))))).unwrap()
}

fn fetching(force: bool, mime_type: Option<&str>) -> Download {
    files_id(located(force, mime_type), DownloadEvent::Located(Ok("p/f".to_string()))).unwrap()
}

fn text(reply: &Reply) -> (u16, String) {
    match reply {
        Reply::Text { status, body } => {
            assert!(reply.headers().is_empty());
            (*status, body.clone())
        }
        other => panic!("{:?}", other),
    }
}

fn file(reply: &Reply) -> (String, String, Source) {
    match reply {
        Reply::File { content_type, disposition, source } => {
            assert_eq!(reply.status(), 200);
            assert_eq!(
                reply.headers(),
                vec![
                    ("Content-Type", content_type.clone()),
                    ("Content-Disposition", disposition.clone()),
                    ("X-Content-Type-Options", "nosniff".to_string()),
                ]
            );
            (content_type.clone(), disposition.clone(), *source)
        }
        other => panic!("{:?}", other),
    }
}

fn done(state: Option<Download>) -> Reply {
    match state {
        Some(Download::Done { reply }) => reply,
        other => panic!("{:?}", other),
    }
}

fn proxy_done(state: Option<Proxy>) -> Reply {
    match state {
        Some(Proxy::Done { reply }) => reply,
        other => panic!("{:?}", other),
    }
}

#[test]
fn download_of_an_unknown_file() {
    let reply = done(files_id(Download::new("x".to_string(), None), DownloadEvent::Found(None)));
    assert_eq!(reply.status(), 404);
    match &reply {
        Reply::Html { body, .. } => assert_eq!(
            body,
            "<h1>404 Not Found</h1>\
             <p>The requested file does not exist.</p>\
             <a href=\"/\">Go back to the homepage</a>"
        ),
        other => panic!("{:?}", other),
    }
    assert_eq!(reply.headers(), vec![("Content-Type", "text/html; charset=utf-8".to_string())]);
}

#[test]
fn download_that_the_bot_refuses_for_its_size_is_handed_over() {
    for error in ["Api(BadRequest(\"file is too big\"))", "Bad Request: whatever"] {
        let state = files_id(located(true, None), DownloadEvent::Located(Err(error.to_string())));
        match state {
            Some(Download::HandOver { record, force_download }) => {
                assert_eq!(record.unique_id, "abc");
                assert!(force_download);
            }
            other => panic!("{:?}", other),
        }
    }
}

#[test]
fn download_handed_over_is_answered_by_the_service() {
    let event = DownloadEvent::Located(Err("file is too big".to_string()));
    let state = files_id(located(true, None), event).unwrap();
    let event = answered(200, Some(b"video/mp4"));
    let reply = proxy_done(proxy_to_fasttelethon(asked(true, None), event));
    let reply = done(files_id(state, DownloadEvent::HandedOver(reply)));
    assert_eq!(file(&reply).0, "video/mp4");
    assert_eq!(file(&reply).2, Source::Upstream);
}

#[test]
fn download_that_cannot_be_located() {
    let event = DownloadEvent::Located(Err("bad request".to_string()));
    let reply = done(files_id(located(false, None), event));
    assert_eq!(text(&reply), (500, "Failed to retrieve file from storage".to_string()));
}

#[test]
fn download_that_fails() {
    let reply = done(files_id(fetching(false, None), DownloadEvent::Fetched(false)));
    assert_eq!(text(&reply), (500, "Failed to download file from storage".to_string()));
}

#[test]
fn download_shown_in_the_browser() {
    let reply = done(files_id(fetching(false, Some("text/plain")), DownloadEvent::Fetched(true)));
    assert_eq!(
        file(&reply),
        (
            "text/plain".to_string(),
            "inline; filename=\"a_b.txt\"".to_string(),
            Source::Downloaded
        )
    );
    let reply = done(files_id(fetching(false, None), DownloadEvent::Fetched(true)));
    assert_eq!(file(&reply).0, "application/octet-stream");
}

#[test]
fn download_forced_is_saved_as_bytes() {
    let reply = done(files_id(fetching(true, Some("text/plain")), DownloadEvent::Fetched(true)));
    assert_eq!(
        file(&reply),
        (
            "application/octet-stream".to_string(),
            "attachment; filename=\"a_b.txt\"".to_string(),
            Source::Downloaded
        )
    );
}

#[test]
fn download_is_forced_by_an_empty_parameter() {
    match Download::new("abc".to_string(), Some(String::new())) {
        Download::Lookup { unique_id, force_download } => {
            assert_eq!(unique_id, "abc");
            assert!(force_download);
        }
        other => panic!("{:?}", other),
    }
}

#[test]
fn upload_comes_back_under_its_name() {
    let job = UploadJob {
        filename: sanitize_filename("my/<notes>.html"),
        length: 3,
        channel_id: -7,
        unique_id: "uX".to_string(),
    };
    let record = record_of_upload(job, "f".to_string(), 8, Some("text/html".to_string()), 9);
    assert_eq!(record.file_name, "my__notes_.html");
    let state = Download::new("uX".to_string(), None);
    let state = files_id(state, DownloadEvent::Found(Some(record))).unwrap();
    let state = files_id(state, DownloadEvent::Located(Ok("p".to_string()))).unwrap();
    let reply = done(files_id(state, DownloadEvent::Fetched(true)));
    assert_eq!(file(&reply).0, "text/html");
    assert_eq!(file(&reply).1, content_disposition_of("my/<notes>.html", false));
}

#[test]
fn download_event_out_of_turn_leads_nowhere() {
    assert!(files_id(located(false, None), DownloadEvent::Fetched(true)).is_none());
}

fn config(channel_id: Option<i64>) -> ProxyEvent {
    ProxyEvent::Config { service_url: "http://svc:8080//".to_string(), channel_id }
}

fn asked(force: bool, mime_type: Option<&str>) -> Proxy {
    let state = Proxy::new(record(mime_type, Some(77)), force);
    proxy_to_fasttelethon(state, config(Some(-1_001_234))).unwrap()
}

fn answered(status: u16, content_type: Option<&[u8]>) -> ProxyEvent {
    ProxyEvent::Answered(Some(Upstream { status, content_type: content_type.map(|b| b.to_vec()) }))
}

#[test]
fn proxy_without_a_channel() {
    let state = Proxy::new(record(None, None), false);
    let reply = proxy_done(proxy_to_fasttelethon(state, config(None)));
    assert_eq!(text(&reply), (503, "Large file download service not configured".to_string()));
}

#[test]
fn proxy_of_a_file_without_a_message() {
    let state = Proxy::new(record(None, None), false);
    let reply = proxy_done(proxy_to_fasttelethon(state, config(Some(1))));
    assert_eq!(
        text(&reply),
        (
            404,
            "File cannot be downloaded through the large-file service. Please re-upload it."
                .to_string()
        )
    );
}

#[test]
fn proxy_asks_for_the_message_of_the_channel() {
    match asked(false, None) {
        Proxy::Fetch { url, .. } => assert_eq!(url, "http://svc:8080/download/-1001234/77"),
        other => panic!("{:?}", other),
    }
    assert_eq!(service_path_of("http://h", 5, -1), "http://h/download/5/-1");
}

#[test]
fn proxy_that_cannot_be_reached() {
    let reply = proxy_done(proxy_to_fasttelethon(asked(false, None), ProxyEvent::Answered(None)));
    assert_eq!(text(&reply), (503, "Download service temporarily unavailable".to_string()));
}

#[test]
fn proxy_that_fails() {
    for status in [100u16, 199, 300, 404, 500] {
        let reply = proxy_done(proxy_to_fasttelethon(asked(false, None), answered(status, None)));
        assert_eq!(text(&reply), (502, "Failed to retrieve file from download service".to_string()));
    }
}

#[test]
fn proxy_passes_the_file_on() {
    let event = answered(206, Some(b"video/mp4"));
    let reply = proxy_done(proxy_to_fasttelethon(asked(true, Some("text/plain")), event));
    assert_eq!(
        file(&reply),
        (
            "video/mp4".to_string(),
            "attachment; filename=\"a_b.txt\"".to_string(),
            Source::Upstream
        )
    );
}

#[test]
fn proxy_falls_back_on_the_type_of_the_record() {
    let reply =
        proxy_done(proxy_to_fasttelethon(asked(false, Some("text/plain")), answered(200, None)));
    assert_eq!(file(&reply).0, "text/plain");
    let event = answered(299, Some(&[0xff]));
    let reply = proxy_done(proxy_to_fasttelethon(asked(false, None), event));
    assert_eq!(file(&reply).0, "application/octet-stream");
    assert_eq!(file(&reply).1, "inline; filename=\"a_b.txt\"");
}

#[test]
fn proxy_event_out_of_turn_leads_nowhere() {
    assert!(proxy_to_fasttelethon(asked(false, None), config(Some(1))).is_none());
}

#[test]
fn dispositions_are_header_values() {
    for name in ["a\r\nSet-Cookie: x", "\"; x=\"", "ünïcode", "", "\u{7f}\u{0}\t"] {
        for force in [true, false] {
            let value = content_disposition_of(name, force);
            assert!(http::HeaderValue::from_str(&value).is_ok());
            assert_eq!(value.matches('"').count(), 2);
        }
    }
}

#[test]
fn missing_types_are_plain_bytes() {
    assert_eq!(mime_or_bytes_of(None), "application/octet-stream");
    assert_eq!(mime_or_bytes_of(Some("a/b".to_string())), "a/b");
}
