use fileslink::reply::Reply;
use fileslink::upload::{
    files_upload, record_of_upload, SentDocument, Upload, UploadEvent, UploadJob,
};

fn refusal(state: &Option<Upload>) -> (u16, String) {
    match state {
        Some(Upload::Done { reply: Reply::Text { status, body } }) => (*status, body.clone()),
        other => panic!("not refused: {:?}", other),
    }
}

fn begun() -> Upload {
    let start = Upload::new(Some("My: file.pdf".to_string()), 7);
    files_upload(start, UploadEvent::Channel(Some(-100))).unwrap()
}

fn sent(file_id: Option<&str>) -> UploadEvent {
    UploadEvent::Sent(Some(SentDocument {
        file_id: file_id.map(|s| s.to_string()),
        message_id: 42,
    }))
}

fn to_removal(event: UploadEvent) -> Upload {
    let state = files_upload(begun(), UploadEvent::TempWritten(true)).unwrap();
    files_upload(state, event).unwrap()
}

fn to_saving() -> Upload {
    files_upload(to_removal(sent(Some("tg"))), UploadEvent::TempRemoved { now: 1_700_000_000 })
        .unwrap()
}

#[test]
fn upload_of_an_empty_body_is_refused() {
    assert_eq!(refusal(&Some(Upload::new(Some("a".to_string()), 0))), (400, "Empty body".to_string()));
}

#[test]
fn upload_without_a_channel_is_refused() {
    let state = files_upload(Upload::new(None, 1), UploadEvent::Channel(None));
    assert_eq!(refusal(&state), (500, "Storage channel not configured".to_string()));
}

#[test]
fn upload_without_a_name_gets_one() {
    match Upload::new(None, 1) {
        Upload::ReadChannel { filename, length } => {
            assert_eq!(filename, "upload.bin");
            assert_eq!(length, 1);
        }
        other => panic!("{:?}", other),
    }
}

#[test]
fn upload_is_known_by_a_fresh_uuid() {
    let ids: Vec<String> = (0..20)
        .map(|_| match begun() {
            Upload::WriteTemp { job } => {
                assert_eq!(job.filename, "My_ file.pdf");
                assert_eq!(job.channel_id, -100);
                assert_eq!(job.temp_name(), format!("fileslink_upload_{}", job.unique_id));
                job.unique_id
            }
            other => panic!("{:?}", other),
        })
        .collect();
    for (n, id) in ids.iter().enumerate() {
        assert!(id.starts_with('u'));
        assert_eq!(id.len(), 37);
        for (i, c) in id.chars().skip(1).enumerate() {
            if [8, 13, 18, 23].contains(&i) {
                assert_eq!(c, '-');
            } else {
                assert!(c.is_ascii_digit() || ('a'..='f').contains(&c));
            }
        }
        assert_eq!(id.as_bytes()[15], b'4');
        assert!(b"89ab".contains(&id.as_bytes()[20]));
        assert!(!ids[..n].contains(id));
    }
}

#[test]
fn upload_that_cannot_be_written_is_refused() {
    let state = files_upload(begun(), UploadEvent::TempWritten(false));
    assert_eq!(refusal(&state), (500, "Failed to write upload".to_string()));
}

#[test]
fn upload_that_cannot_be_sent_is_cleaned_up_and_refused() {
    let state = to_removal(UploadEvent::Sent(None));
    assert!(matches!(state, Upload::RemoveTemp { .. }));
    let state = files_upload(state, UploadEvent::TempRemoved { now: 0 });
    assert_eq!(refusal(&state), (502, "Failed to store file in Telegram".to_string()));
}

#[test]
fn upload_without_a_file_id_is_refused() {
    let state = files_upload(to_removal(sent(None)), UploadEvent::TempRemoved { now: 0 });
    assert_eq!(refusal(&state), (502, "Stored message returned no file id".to_string()));
}

#[test]
fn upload_record_holds_what_was_stored() {
    match to_saving() {
        Upload::Save { record } => {
            assert!(record.unique_id.starts_with('u'));
            assert_eq!(record.telegram_file_id, "tg");
            assert_eq!(record.file_name, "My_ file.pdf");
            assert_eq!(record.mime_type.as_deref(), Some("application/pdf"));
            assert_eq!(record.file_size, 7);
            assert_eq!(record.uploaded_at, 1_700_000_000);
            assert_eq!(record.message_id, Some(42));
        }
        other => panic!("{:?}", other),
    }
}

#[test]
fn upload_of_an_unknown_type_has_no_mime_type() {
    let start = Upload::new(Some("noextension".to_string()), 1);
    let state = files_upload(start, UploadEvent::Channel(Some(1))).unwrap();
    let state = files_upload(state, UploadEvent::TempWritten(true)).unwrap();
    let state = files_upload(state, sent(Some("x"))).unwrap();
    match files_upload(state, UploadEvent::TempRemoved { now: 0 }) {
        Some(Upload::Save { record }) => assert_eq!(record.mime_type, None),
        other => panic!("{:?}", other),
    }
}

#[test]
fn upload_that_cannot_be_recorded_is_refused() {
    let state = files_upload(to_saving(), UploadEvent::Saved(false));
    assert_eq!(refusal(&state), (500, "Failed to save metadata".to_string()));
}

#[test]
fn upload_receipt() {
    let state = files_upload(to_saving(), UploadEvent::Saved(true)).unwrap();
    match &state {
        Upload::Serialize { receipt } => {
            assert!(receipt.success);
            assert!(receipt.unique_id.starts_with('u'));
            assert_eq!(receipt.file_name, "My_ file.pdf");
            assert_eq!(receipt.size, 7);
        }
        other => panic!("{:?}", other),
    }
    match files_upload(state, UploadEvent::Serialized(true)) {
        Some(Upload::Done { reply }) => {
            assert!(matches!(reply, Reply::Receipt));
            assert_eq!(reply.status(), 200);
            assert_eq!(
                reply.headers(),
                vec![
                    ("Content-Type", "application/json".to_string()),
                    ("Cache-Control", "no-store".to_string()),
                ]
            );
        }
        other => panic!("{:?}", other),
    }
}

#[test]
fn upload_receipt_that_cannot_be_serialised() {
    let state = files_upload(to_saving(), UploadEvent::Saved(true)).unwrap();
    let state = files_upload(state, UploadEvent::Serialized(false));
    assert_eq!(refusal(&state), (500, "Failed to create response".to_string()));
}

#[test]
fn upload_event_out_of_turn_leads_nowhere() {
    assert!(files_upload(begun(), UploadEvent::Saved(true)).is_none());
    assert!(files_upload(Upload::new(None, 0), UploadEvent::Channel(Some(1))).is_none());
}

#[test]
fn upload_record_of_a_given_mime_type() {
    let job = UploadJob {
        filename: "a.bin".to_string(),
        length: 52_428_800,
        channel_id: 1,
        unique_id: "u1".to_string(),
    };
    let record = record_of_upload(job, "f".to_string(), 3, Some("x/y".to_string()), 9);
    assert_eq!(record.mime_type.as_deref(), Some("x/y"));
    assert_eq!(record.file_size, 52_428_800);
    assert_eq!(record.unique_id, "u1");
    assert_eq!(record.uploaded_at, 9);
}
