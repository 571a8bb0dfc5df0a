use fileslink::fetch::{
    download_and_store_file_from_url, fetched_name_of, record_of_fetch, Fetch, FetchEvent,
    FetchedFile,
};
use fileslink::file_info::{get_file_info, FileInfo, Inquiry, InquiryEvent};
use fileslink::forward::{
    final_file_name, forward_file_to_storage_channel, generate_final_file_name, plan_forward,
    record_of_forward, stored_id_of, Forward, ForwardEvent, ForwardPlan, SendKind,
};
use fileslink::link::{announcement_of, edit_message_with_file_link, Link, LinkEvent};
use fileslink::message::{Media, Message, MimeType, PhotoSize};
use fileslink::queue::{process_queue, FileQueueItem, Worker, WorkerEvent};
use fileslink::record::FileMetadata;
use fileslink::upload::SentDocument;
use std::sync::Arc;

fn mime(text: &str, essence: &str) -> Option<MimeType> {
    Some(MimeType { text: text.to_string(), essence: essence.to_string() })
}

fn carrying(media: Media) -> Message {
    Message { chat_id: -5, id: 9, media }
}

fn item(media: Media, file_name: Option<&str>) -> FileQueueItem {
    FileQueueItem::new(
        Arc::new(carrying(media)),
        Arc::new(Message { chat_id: -6, id: 10, media: Media::Other }),
        Some("f".to_string()),
        file_name.map(|s| s.to_string()),
        None,
    )
}

fn document(name: Option<&str>, mime_type: Option<MimeType>) -> Media {
    Media::Document {
        file_id: "doc".to_string(),
        file_size: 11,
        file_name: name.map(|s| s.to_string()),
        mime_type,
    }
}

fn photo() -> Media {
    Media::Photo {
        sizes: vec![
            PhotoSize { file_id: "small".to_string(), file_size: 1 },
            PhotoSize { file_id: "large".to_string(), file_size: 2 },
        ],
    }
}

fn video(mime_type: Option<MimeType>) -> Media {
    Media::Video { file_id: "vid".to_string(), file_size: 12, mime_type }
}

fn animation(mime_type: Option<MimeType>) -> Media {
    Media::Animation { file_id: "ani".to_string(), file_size: 13, mime_type }
}

fn plan(media: Media, file_name: Option<&str>) -> ForwardPlan {
    plan_forward(&item(media, file_name), 7, "ID".to_string()).unwrap()
}

fn summary(plan: &ForwardPlan) -> (SendKind, &str, Option<&str>, u32, Option<&str>) {
    assert_eq!(plan.channel_id, 7);
    assert_eq!(plan.unique_id, "ID");
    (
        plan.kind,
        plan.file_id.as_str(),
        plan.file_name.as_deref(),
        plan.file_size,
        plan.mime_type.as_deref(),
    )
}

#[test]
fn plan_for_documents() {
    let p = plan(document(Some("own.txt"), mime("text/plain; charset=x", "text/plain")), None);
    assert_eq!(
        summary(&p),
        (SendKind::Document, "doc", Some("own.txt"), 11, Some("text/plain; charset=x"))
    );
    let p = plan(document(Some("own.txt"), None), Some("given.txt"));
    assert_eq!(summary(&p), (SendKind::Document, "doc", Some("given.txt"), 11, None));
    let p = plan(document(None, None), None);
    assert_eq!(summary(&p), (SendKind::Document, "doc", None, 11, None));
}

#[test]
fn plan_for_photos() {
    let p = plan(photo(), None);
    assert_eq!(
        summary(&p),
        (SendKind::Photo, "large", Some("photo_ID.jpg"), 2, Some("image/jpeg"))
    );
    let p = plan(photo(), Some("me.png"));
    assert_eq!(summary(&p).2, Some("me.png"));
    let none = plan_forward(&item(Media::Photo { sizes: Vec::new() }, None), 7, "ID".to_string());
    assert_eq!(none.unwrap_err(), "No photo found");
}

#[test]
fn plan_for_videos() {
    let p = plan(video(None), None);
    assert_eq!(
        summary(&p),
        (SendKind::Video, "vid", Some("video_ID.mp4"), 12, Some("video/mp4"))
    );
    let p = plan(video(mime("video/webm", "video/webm")), Some("v"));
    assert_eq!(summary(&p), (SendKind::Video, "vid", Some("v"), 12, Some("video/webm")));
}

#[test]
fn plan_for_animations() {
    let p = plan(animation(mime("image/gif;x=y", "image/gif")), None);
    assert_eq!(
        summary(&p),
        (SendKind::Animation, "ani", Some("animation_ID.gif"), 13, Some("image/gif;x=y"))
    );
    let p = plan(animation(None), None);
    assert_eq!(
        summary(&p),
        (SendKind::Animation, "ani", Some("animation_ID.mp4"), 13, Some("video/mp4"))
    );
}

#[test]
fn plan_for_anything_else() {
    let none = plan_forward(&item(Media::Other, None), 7, "ID".to_string());
    assert_eq!(none.unwrap_err(), "Unsupported file type");
}

#[test]
fn stored_identifiers() {
    assert_eq!(stored_id_of(&document(None, None)).unwrap(), "doc");
    assert_eq!(stored_id_of(&photo()).unwrap(), "large");
    assert_eq!(stored_id_of(&video(None)).unwrap(), "vid");
    assert_eq!(stored_id_of(&animation(None)).unwrap(), "ani");
    assert_eq!(
        stored_id_of(&Media::Photo { sizes: Vec::new() }).unwrap_err(),
        "No photo in forwarded message"
    );
    assert_eq!(
        stored_id_of(&Media::Other).unwrap_err(),
        "Could not get file_id from forwarded message"
    );
}

fn sending(media: Media) -> Forward {
    let state = Forward::new(item(media, None));
    forward_file_to_storage_channel(state, ForwardEvent::Channel(Ok(7))).unwrap()
}

fn forward_error(state: Option<Forward>) -> String {
    match state {
        Some(Forward::Done { result: Err(error) }) => error,
        other => panic!("{:?}", other),
    }
}

fn is_safe(c: char) -> bool {
    c == '_' || c == '-' || c.is_ascii_alphanumeric()
}

#[test]
fn forward_draws_an_identifier() {
    let mut seen: Vec<String> = Vec::new();
    for _ in 0..20 {
        match sending(photo()) {
            Forward::Send { plan, .. } => {
                assert_eq!(plan.unique_id.chars().count(), 8);
                assert!(plan.unique_id.chars().all(is_safe));
                assert_eq!(plan.file_name, Some(format!("photo_{}.jpg", plan.unique_id)));
                assert!(!seen.contains(&plan.unique_id));
                seen.push(plan.unique_id);
            }
            other => panic!("{:?}", other),
        }
    }
}

#[test]
fn forward_without_a_channel() {
    let state = Forward::new(item(photo(), None));
    let event = ForwardEvent::Channel(Err("unset".to_string()));
    assert_eq!(
        forward_error(forward_file_to_storage_channel(state, event)),
        "Storage channel not configured: unset"
    );
}

#[test]
fn forward_of_an_unsupported_message() {
    let state = Forward::new(item(Media::Other, None));
    let state = forward_file_to_storage_channel(state, ForwardEvent::Channel(Ok(7)));
    assert_eq!(forward_error(state), "Unsupported file type");
}

#[test]
fn forward_that_cannot_be_sent() {
    let cases = vec![
        (document(None, None), "Failed to forward document: e"),
        (photo(), "Failed to forward photo: e"),
        (video(None), "Failed to forward video: e"),
        (animation(None), "Failed to forward animation: e"),
    ];
    for (media, expected) in cases {
        let event = ForwardEvent::Sent(Err("e".to_string()));
        assert_eq!(forward_error(forward_file_to_storage_channel(sending(media), event)), expected);
    }
}

#[test]
fn forward_whose_message_carries_nothing() {
    let event = ForwardEvent::Sent(Ok(carrying(Media::Other)));
    assert_eq!(
        forward_error(forward_file_to_storage_channel(sending(photo()), event)),
        "Could not get file_id from forwarded message"
    );
}

#[test]
fn forward_records_what_was_stored() {
    let state = sending(document(Some("notes.pdf"), None));
    let event = ForwardEvent::Sent(Ok(carrying(video(None))));
    let state = forward_file_to_storage_channel(state, event).unwrap();
    assert!(matches!(&state, Forward::Stamp { message_id: 9, file_id, .. } if file_id == "vid"));
    let event = ForwardEvent::Clock(1_600_000_000);
    let state = forward_file_to_storage_channel(state, event).unwrap();
    match &state {
        Forward::Save { record, .. } => {
            assert_eq!(record.telegram_file_id, "vid");
            assert_eq!(record.file_name, "notes.pdf");
            assert_eq!(record.mime_type.as_deref(), Some("application/pdf"));
            assert_eq!(record.file_size, 11);
            assert_eq!(record.uploaded_at, 1_600_000_000);
            assert_eq!(record.message_id, Some(9));
        }
        other => panic!("{:?}", other),
    }
    let state = forward_file_to_storage_channel(state, ForwardEvent::Saved(Ok(()))).unwrap();
    match &state {
        Forward::Announce { item, record } => {
            assert_eq!(item.progress_message(), (-5, 10));
            assert_eq!(record.file_name, "notes.pdf");
        }
        other => panic!("{:?}", other),
    }
    let state = forward_file_to_storage_channel(state, ForwardEvent::Announced(Ok(())));
    assert!(matches!(state, Some(Forward::Done { result: Ok(()) })));
}

fn announced(state: Link, edited: bool) -> Result<(), String> {
    let state = edit_message_with_file_link(state, resolved()).unwrap();
    match edit_message_with_file_link(state, LinkEvent::Edited(edited)) {
        Some(Link::Done { result }) => result,
        other => panic!("{:?}", other),
    }
}

#[test]
fn forwarded_item_leaves_once_announced() {
    for edited in [true, false] {
        let mut queue = vec![item(photo(), None)];
        let state = process_queue(Worker::new(), WorkerEvent::Signal, &mut queue).unwrap();
        let worker = process_queue(state, WorkerEvent::Edited(true), &mut queue).unwrap();
        let event = ForwardEvent::Sent(Ok(carrying(photo())));
        let state = forward_file_to_storage_channel(sending(photo()), event).unwrap();
        let state = forward_file_to_storage_channel(state, ForwardEvent::Clock(1)).unwrap();
        let state = forward_file_to_storage_channel(state, ForwardEvent::Saved(Ok(()))).unwrap();
        let link = match &state {
            Forward::Announce { item, record } => Link::new(item, record),
            other => panic!("{:?}", other),
        };
        let event = ForwardEvent::Announced(announced(link, edited));
        let result = match forward_file_to_storage_channel(state, event) {
            Some(Forward::Done { result }) => result,
            other => panic!("{:?}", other),
        };
        let worker = process_queue(worker, WorkerEvent::Finished(result), &mut queue).unwrap();
        if edited {
            assert!(queue.is_empty());
            assert!(matches!(worker, Worker::Wait { failure: None }));
        } else {
            assert_eq!(queue.len(), 1);
            assert!(
                matches!(worker, Worker::Wait { failure: Some(e) } if e == "Failed to edit message")
            );
        }
    }
}

#[test]
fn forward_that_cannot_be_recorded() {
    let event = ForwardEvent::Sent(Ok(carrying(photo())));
    let state = forward_file_to_storage_channel(sending(photo()), event).unwrap();
    let state = forward_file_to_storage_channel(state, ForwardEvent::Clock(1)).unwrap();
    let event = ForwardEvent::Saved(Err("disk".to_string()));
    assert_eq!(
        forward_error(forward_file_to_storage_channel(state, event)),
        "Failed to save file metadata: disk"
    );
}

#[test]
fn forward_event_out_of_turn_leads_nowhere() {
    let event = ForwardEvent::Saved(Ok(()));
    assert!(forward_file_to_storage_channel(sending(photo()), event).is_none());
}

#[test]
fn forward_record_prefers_the_known_type() {
    let record = record_of_forward(
        plan(video(mime("video/webm", "video/webm")), None),
        "x".to_string(),
        1,
        Some("guess/ed".to_string()),
        2,
    );
    assert_eq!(record.mime_type.as_deref(), Some("video/webm"));
    let record = record_of_forward(
        plan(document(None, None), None),
        "x".to_string(),
        1,
        Some("guess/ed".to_string()),
        2,
    );
    assert_eq!(record.mime_type.as_deref(), Some("guess/ed"));
    assert_eq!(record.file_name, "file_ID");
    assert_eq!(record.unique_id, "ID");
}

#[test]
fn names_with_an_identifier_in_front() {
    let named = item(Media::Other, Some("my holiday pic.jpg"));
    let unnamed = item(Media::Other, None);
    assert_eq!(final_file_name("abcde".to_string(), &named, "p"), "abcde_my_holiday_pic.jpg");
    assert_eq!(final_file_name("abcde".to_string(), &unnamed, "a/b c.txt"), "abcde_b c.txt");
    assert_eq!(final_file_name("abcde".to_string(), &unnamed, "a/"), "abcde_");
    let drawn = generate_final_file_name(&unnamed, "a/b.txt");
    assert!(drawn.ends_with("_b.txt"));
    assert_eq!(drawn.chars().count(), 11);
    assert!(drawn.chars().take(5).all(is_safe));
}

// Files from a URL.

fn fetch_error(state: Option<Fetch>) -> String {
    match state {
        Some(Fetch::Done { result: Err(error) }) => error,
        other => panic!("{:?}", other),
    }
}

fn starting(url: &str) -> Fetch {
    Fetch::new(item(Media::Other, None), url.to_string())
}

fn getting() -> Fetch {
    let state = starting("https://host/dir/page.html");
    download_and_store_file_from_url(state, FetchEvent::Channel(Ok(-8))).unwrap()
}

fn reading() -> Fetch {
    download_and_store_file_from_url(getting(), FetchEvent::Responded(Ok(None))).unwrap()
}

fn fetched() -> Fetch {
    download_and_store_file_from_url(reading(), FetchEvent::Body(Ok(21))).unwrap()
}

fn received(file_id: Option<&str>) -> FetchEvent {
    FetchEvent::Sent(Ok(SentDocument {
        file_id: file_id.map(|s| s.to_string()),
        message_id: 31,
    }))
}

fn saving() -> Fetch {
    let state = download_and_store_file_from_url(fetched(), received(Some("tg"))).unwrap();
    assert!(matches!(&state, Fetch::Stamp { message_id: 31, file_id, .. } if file_id == "tg"));
    download_and_store_file_from_url(state, FetchEvent::Clock(41)).unwrap()
}

#[test]
fn names_of_fetched_files() {
    let name = |url: &str, header: Option<&[u8]>| fetched_name_of(url, &header.map(|h| h.to_vec()));
    let url = "https://h/x.bin";
    assert_eq!(name(url, None).unwrap(), "x.bin");
    assert_eq!(name(url, Some(b"inline")).unwrap(), "x.bin");
    assert_eq!(name(url, Some(b"attachment; filename=\"a b.pdf\"")).unwrap(), "a b.pdf");
    assert_eq!(name(url, Some(b"attachment; filename=a.pdf")).unwrap(), "a.pdf");
    assert_eq!(name(url, Some(b"filename=a; filename=b")).unwrap(), "a; ");
    assert_eq!(name(url, Some(&[b'f', 0xff])).unwrap(), "x.bin");
    assert_eq!(name(url, Some(b"attachment; filename=\"\"")), None);
    assert_eq!(name("https://h/", None), None);
    assert_eq!(name("plain", None).unwrap(), "plain");
}

#[test]
fn fetch_without_a_channel() {
    let state = starting("u");
    let event = FetchEvent::Channel(Err("unset".to_string()));
    assert_eq!(
        fetch_error(download_and_store_file_from_url(state, event)),
        "Storage channel not configured: unset"
    );
}

#[test]
fn fetch_without_a_response() {
    let event = FetchEvent::Responded(Err("dns".to_string()));
    assert_eq!(
        fetch_error(download_and_store_file_from_url(getting(), event)),
        "Failed to download file: dns"
    );
}

#[test]
fn fetch_without_a_name() {
    let event = FetchEvent::Responded(Ok(Some(b"filename=".to_vec())));
    assert_eq!(
        fetch_error(download_and_store_file_from_url(getting(), event)),
        "Could not determine file name"
    );
}

#[test]
fn fetch_without_a_body() {
    let event = FetchEvent::Body(Err("reset".to_string()));
    assert_eq!(
        fetch_error(download_and_store_file_from_url(reading(), event)),
        "Failed to read file bytes: reset"
    );
}

#[test]
fn fetch_draws_an_identifier() {
    match fetched() {
        Fetch::Send { file, .. } => {
            assert_eq!(file.channel_id, -8);
            assert_eq!(file.file_name, "page.html");
            assert_eq!(file.length, 21);
            assert_eq!(file.unique_id.chars().count(), 8);
            assert!(file.unique_id.chars().all(is_safe));
        }
        other => panic!("{:?}", other),
    }
}

#[test]
fn fetch_that_cannot_be_sent() {
    let event = FetchEvent::Sent(Err("e".to_string()));
    assert_eq!(
        fetch_error(download_and_store_file_from_url(fetched(), event)),
        "Failed to upload to storage channel: e"
    );
    assert_eq!(
        fetch_error(download_and_store_file_from_url(fetched(), received(None))),
        "No document in uploaded message"
    );
}

#[test]
fn fetch_records_what_was_stored() {
    let state = saving();
    match &state {
        Fetch::Save { record, .. } => {
            assert_eq!(record.telegram_file_id, "tg");
            assert_eq!(record.file_name, "page.html");
            assert_eq!(record.mime_type.as_deref(), Some("text/html"));
            assert_eq!(record.file_size, 21);
            assert_eq!(record.uploaded_at, 41);
            assert_eq!(record.message_id, Some(31));
        }
        other => panic!("{:?}", other),
    }
    let state = download_and_store_file_from_url(state, FetchEvent::Saved(Ok(()))).unwrap();
    match &state {
        Fetch::Announce { item, record } => {
            assert_eq!(item.progress_message(), (-5, 10));
            assert_eq!(record.file_name, "page.html");
        }
        other => panic!("{:?}", other),
    }
    let state = download_and_store_file_from_url(state, FetchEvent::Announced(Ok(())));
    assert!(matches!(state, Some(Fetch::Done { result: Ok(()) })));
}

#[test]
fn fetch_that_cannot_be_announced() {
    let state = download_and_store_file_from_url(saving(), FetchEvent::Saved(Ok(()))).unwrap();
    let link = match &state {
        Fetch::Announce { item, record } => Link::new(item, record),
        other => panic!("{:?}", other),
    };
    let event = FetchEvent::Announced(announced(link, false));
    assert_eq!(
        fetch_error(download_and_store_file_from_url(state, event)),
        "Failed to edit message"
    );
}

#[test]
fn fetch_that_cannot_be_recorded() {
    let event = FetchEvent::Saved(Err("disk".to_string()));
    assert_eq!(
        fetch_error(download_and_store_file_from_url(saving(), event)),
        "Failed to save file metadata: disk"
    );
}

#[test]
fn fetch_event_out_of_turn_leads_nowhere() {
    assert!(download_and_store_file_from_url(getting(), FetchEvent::Body(Ok(1))).is_none());
}

#[test]
fn fetch_record_keeps_the_low_bits_of_the_length() {
    let file = FetchedFile {
        channel_id: 1,
        file_name: "n".to_string(),
        length: 4_294_967_301,
        unique_id: "i".to_string(),
    };
    let record = record_of_fetch(file, "f".to_string(), 2, None, 3);
    assert_eq!(record.file_size, 5);
    assert_eq!(record.mime_type, None);
}

// Links.

fn stored(size: u32) -> FileMetadata {
    FileMetadata {
        unique_id: "ID".to_string(),
        telegram_file_id: "tg".to_string(),
        file_name: "n.txt".to_string(),
        mime_type: None,
        file_size: size,
        uploaded_at: 0,
        message_id: None,
    }
}

fn resolved() -> LinkEvent {
    LinkEvent::Resolved {
        file_domain: "https://d".to_string(),
        full_path: "/files/ID_n.txt".to_string(),
    }
}

#[test]
fn link_is_announced() {
    let state = Link::new(&item(Media::Other, None), &stored(1536));
    match &state {
        Link::Resolve { unique_id, file_name, .. } => {
            assert_eq!((unique_id.as_str(), file_name.as_str()), ("ID", "n.txt"));
        }
        other => panic!("{:?}", other),
    }
    let state = edit_message_with_file_link(state, resolved()).unwrap();
    match &state {
        Link::Edit { chat_id, message_id, text } => {
            assert_eq!((*chat_id, *message_id), (-5, 10));
            assert_eq!(
                text,
                "✅ <b>File uploaded successfully!</b>\n\n📁 <b>File:</b> n.txt\n📊 <b>Size:</b> 1.50 KB\n\n👀 <b>View:</b>\n<a href=\"https://d/files/ID_n.txt\">Open File</a>\n\n⬇️ <b>Download:</b>\n<a href=\"https://d/files/ID_n.txt?dl=1&close=1\">Download File</a>"
            );
        }
        other => panic!("{:?}", other),
    }
    let state = edit_message_with_file_link(state, LinkEvent::Edited(true));
    assert!(matches!(state, Some(Link::Done { result: Ok(()) })));
}

#[test]
fn link_that_cannot_be_announced() {
    let state = Link::new(&item(Media::Other, None), &stored(1));
    let state = edit_message_with_file_link(state, resolved()).unwrap();
    match edit_message_with_file_link(state, LinkEvent::Edited(false)) {
        Some(Link::Done { result: Err(error) }) => assert_eq!(error, "Failed to edit message"),
        other => panic!("{:?}", other),
    }
}

#[test]
fn link_event_out_of_turn_leads_nowhere() {
    let state = Link::new(&item(Media::Other, None), &stored(1));
    assert!(edit_message_with_file_link(state, LinkEvent::Edited(true)).is_none());
    assert!(announcement_of("n", 0, "d", "p").contains("0 bytes"));
}

// Inquiries.

fn info() -> FileInfo {
    FileInfo { path: "p".to_string(), size: 4 }
}

#[test]
fn inquiry_that_succeeds() {
    match get_file_info(Inquiry::new(), InquiryEvent::Answered(Some(info()))) {
        Some(Inquiry::Done { result: Ok(found) }) => {
            assert_eq!((found.path.as_str(), found.size), ("p", 4));
        }
        other => panic!("{:?}", other),
    }
}

#[test]
fn inquiry_tries_three_times() {
    let mut state = Inquiry::new();
    for _ in 0..2 {
        state = get_file_info(state, InquiryEvent::Answered(None)).unwrap();
        assert!(matches!(state, Inquiry::Pause { seconds: 5, .. }));
        state = get_file_info(state, InquiryEvent::Resumed).unwrap();
    }
    match get_file_info(state, InquiryEvent::Answered(None)) {
        Some(Inquiry::Done { result: Err(error) }) => {
            assert_eq!(error, "Failed to get file info");
        }
        other => panic!("{:?}", other),
    }
}

#[test]
fn inquiry_event_out_of_turn_leads_nowhere() {
    assert!(get_file_info(Inquiry::new(), InquiryEvent::Resumed).is_none());
}
