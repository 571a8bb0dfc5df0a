use fileslink::message::{Media, Message};
use fileslink::queue::{
    can_snapshot, clear_queue_all, get_queue_snapshot, process_queue, FileQueueItem, Worker,
    WorkerEvent, MAX_ATTEMPTS, PROCESSING_TEXT,
};
use std::sync::Arc;

fn message(chat_id: i64, id: i32) -> Arc<Message> {
    Arc::new(Message { chat_id, id, media: Media::Other })
}

fn item(n: i32, file_id: Option<&str>, file_name: Option<&str>, url: Option<&str>) -> FileQueueItem {
    FileQueueItem::new(
        message(1000 + n as i64, n),
        message(2000 + n as i64, 100 + n),
        file_id.map(|s| s.to_string()),
        file_name.map(|s| s.to_string()),
        url.map(|s| s.to_string()),
    )
}

#[test]
fn summaries() {
    assert_eq!(item(1, Some("f"), Some("n.txt"), Some("u")).summary(), "n.txt");
    assert_eq!(item(1, Some("f"), None, Some("http://h/x")).summary(), "URL: http://h/x");
    assert_eq!(item(1, Some("f"), None, None).summary(), "file_id: f");
    assert_eq!(item(1, None, None, None).summary(), "<unknown>");
}

#[test]
fn summaries_of_long_urls_are_cut() {
    let exact = "u".repeat(48);
    assert_eq!(item(1, None, None, Some(&exact)).summary(), format!("URL: {}", exact));
    let long = "u".repeat(49);
    assert_eq!(item(1, None, None, Some(&long)).summary(), format!("URL: {}…", exact));
    let wide = "é".repeat(30);
    assert_eq!(item(1, None, None, Some(&wide)).summary(), format!("URL: {}…", "é".repeat(24)));
}

#[test]
fn urls_cut_within_a_character_have_no_summary() {
    let odd = format!("x{}", "é".repeat(30));
    assert!(!item(1, None, None, Some(&odd)).can_summarize());
    assert!(item(1, None, Some("n"), Some(&odd)).can_summarize());
    assert!(item(1, None, None, Some(&"é".repeat(30))).can_summarize());
    assert!(item(1, None, None, Some("é")).can_summarize());
    assert!(item(1, None, None, None).can_summarize());
    let queue = vec![item(1, None, None, None), item(2, None, None, Some(&odd))];
    assert!(can_snapshot(&queue, 1));
    assert!(!can_snapshot(&queue, 2));
    assert!(!can_snapshot(&queue, 10));
}

#[test]
fn snapshots() {
    let queue: Vec<FileQueueItem> =
        (1..=12).map(|n| item(n, None, Some(&format!("f{}", n)), None)).collect();
    let (total, lines) = get_queue_snapshot(&queue, 10);
    assert_eq!(total, 12);
    assert_eq!(lines.len(), 10);
    assert_eq!(lines[0], "1. f1");
    assert_eq!(lines[9], "10. f10");
    assert_eq!(get_queue_snapshot(&queue, 100).1.len(), 12);
    assert_eq!(get_queue_snapshot(&queue, 0), (12, Vec::new()));
    assert_eq!(get_queue_snapshot(&Vec::new(), 5), (0, Vec::new()));
}

#[test]
fn clearing() {
    let mut queue = vec![item(1, None, None, None), item(2, None, None, None)];
    assert_eq!(clear_queue_all(&mut queue), 2);
    assert!(queue.is_empty());
    assert_eq!(clear_queue_all(&mut queue), 0);
}

#[test]
fn clones_are_equal() {
    let a = item(1, Some("f"), Some("n"), Some("u"));
    let b = a.clone();
    assert!(Arc::ptr_eq(&a.message, &b.message));
    assert_eq!((a.file_id, a.file_name, a.url), (b.file_id, b.file_name, b.url));
}

#[test]
fn worker_waits_for_an_item() {
    let mut queue = Vec::new();
    let state = process_queue(Worker::new(), WorkerEvent::Signal, &mut queue);
    assert!(matches!(state, Some(Worker::Wait { failure: None })));
    assert_eq!(PROCESSING_TEXT, "Processing file...");
}

#[test]
fn worker_announces_in_the_chat_that_asked() {
    let mut queue = vec![item(1, Some("f1"), None, None)];
    assert_eq!(queue[0].progress_message(), (1001, 101));
    match process_queue(Worker::new(), WorkerEvent::Signal, &mut queue) {
        Some(Worker::Announce { item, attempt, chat_id, message_id, text }) => {
            assert_eq!(item.message.id, 1);
            assert_eq!(attempt, 1);
            assert_eq!((chat_id, message_id), (1001, 101));
            assert_eq!(text, "Processing file...");
        }
        other => panic!("{:?}", other),
    }
}

#[test]
fn worker_stores_items_in_order() {
    let mut queue = vec![
        item(1, Some("f1"), None, Some("http://h/1")),
        item(2, Some("f2"), None, None),
        item(3, Some("f3"), None, None),
    ];
    let state = process_queue(Worker::new(), WorkerEvent::Signal, &mut queue).unwrap();
    let state = process_queue(state, WorkerEvent::Edited(true), &mut queue).unwrap();
    match &state {
        Worker::Download { item, url } => {
            assert_eq!(item.message.id, 1);
            assert_eq!(url, "http://h/1");
        }
        other => panic!("{:?}", other),
    }
    assert_eq!(queue.len(), 3);
    let state = process_queue(state, WorkerEvent::Finished(Ok(())), &mut queue).unwrap();
    match &state {
        Worker::Report { chat_id, message_id, text } => {
            assert_eq!((*chat_id, *message_id), (2002, 102));
            assert_eq!(text, "File processed. Remaining files in queue: 2");
        }
        other => panic!("{:?}", other),
    }
    let state = process_queue(state, WorkerEvent::Reported, &mut queue).unwrap();
    let state = process_queue(state, WorkerEvent::Signal, &mut queue).unwrap();
    let state = process_queue(state, WorkerEvent::Edited(true), &mut queue).unwrap();
    assert!(matches!(&state, Worker::Forward { file_id, .. } if file_id == "f2"));
    process_queue(state, WorkerEvent::Finished(Ok(())), &mut queue).unwrap();
    assert_eq!(queue.len(), 1);
    assert_eq!(queue[0].message.id, 3);
}

#[test]
fn worker_has_nothing_to_report_at_the_end() {
    let mut queue = vec![item(1, Some("f1"), None, None)];
    let state = process_queue(Worker::new(), WorkerEvent::Signal, &mut queue).unwrap();
    let state = process_queue(state, WorkerEvent::Edited(true), &mut queue).unwrap();
    let state = process_queue(state, WorkerEvent::Finished(Ok(())), &mut queue).unwrap();
    assert!(matches!(state, Worker::Wait { failure: None }));
    assert!(queue.is_empty());
}

#[test]
fn worker_keeps_an_item_that_fails() {
    let mut queue = vec![item(1, Some("f1"), None, None), item(2, Some("f2"), None, None)];
    let state = process_queue(Worker::new(), WorkerEvent::Signal, &mut queue).unwrap();
    let state = process_queue(state, WorkerEvent::Edited(true), &mut queue).unwrap();
    let event = WorkerEvent::Finished(Err("no".to_string()));
    let state = process_queue(state, event, &mut queue).unwrap();
    assert!(matches!(&state, Worker::Wait { failure: Some(error) } if error == "no"));
    assert_eq!(queue.len(), 2);
    assert_eq!(queue[0].message.id, 1);
}

#[test]
fn worker_gives_up_an_item_without_a_file() {
    let mut queue = vec![item(1, None, Some("n"), None)];
    let state = process_queue(Worker::new(), WorkerEvent::Signal, &mut queue).unwrap();
    let state = process_queue(state, WorkerEvent::Edited(true), &mut queue).unwrap();
    assert!(
        matches!(&state, Worker::Wait { failure: Some(error) } if error == "No file_id or url found")
    );
    assert_eq!(queue.len(), 1);
}

#[test]
fn worker_announces_three_times_at_most() {
    let mut queue = vec![item(1, Some("f1"), None, None)];
    let mut state = process_queue(Worker::new(), WorkerEvent::Signal, &mut queue).unwrap();
    let mut pauses = Vec::new();
    for expected in 1..=MAX_ATTEMPTS {
        assert!(matches!(&state, Worker::Announce { attempt, .. } if *attempt == expected));
        state = process_queue(state, WorkerEvent::Edited(false), &mut queue).unwrap();
        if let Worker::Pause { seconds, .. } = &state {
            pauses.push(*seconds);
            state = process_queue(state, WorkerEvent::Resumed, &mut queue).unwrap();
        }
    }
    assert_eq!(pauses, vec![1, 2]);
    assert!(matches!(state, Worker::Forward { .. }));
}

#[test]
fn worker_event_out_of_turn_leads_nowhere() {
    let mut queue = vec![item(1, Some("f1"), None, None)];
    assert!(process_queue(Worker::new(), WorkerEvent::Finished(Ok(())), &mut queue).is_none());
    assert_eq!(queue.len(), 1);
}
