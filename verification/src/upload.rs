//! The upload of a file over HTTP.

use vstd::prelude::*;

use crate::ident::{new_uuid, uuid_v4};
use crate::mime::{guess_mime, guessed_mime};
use crate::names::{sanitize_filename, sanitized};
use crate::pages::MAX_BODY_BYTES;
use crate::record::{kept_size, record_size, FileMetadata, Record};
use crate::reply::{
    text_reply, Answer, Reply, BAD_GATEWAY, BAD_REQUEST, INTERNAL_SERVER_ERROR,
};
use crate::text::optional;

verus! {

// ---------------------------------------------------------------------------------------------
// States and events
// ---------------------------------------------------------------------------------------------

/// An upload on its way to the storage channel.
#[derive(Debug)]
pub struct UploadJob {
    pub filename: String,
    /// The number of bytes in the body.
    pub length: usize,
    pub channel_id: i64,
    pub unique_id: String,
}

/// The contents of an `UploadJob`.
pub struct Job {
    pub filename: Seq<char>,
    pub length: usize,
    pub channel_id: i64,
    pub unique_id: Seq<char>,
}

impl View for UploadJob {
    type V = Job;

    open spec fn view(&self) -> Job {
        Job {
            filename: self.filename@,
            length: self.length,
            channel_id: self.channel_id,
            unique_id: self.unique_id@,
        }
    }
}

/// The message that carries a document sent to the storage channel.
#[derive(Debug)]
pub struct SentDocument {
    /// The identifier of the document, where the message holds one.
    pub file_id: Option<String>,
    pub message_id: i32,
}

/// What the uploader is told about the stored file.
#[derive(Debug)]
pub struct UploadResponse {
    pub success: bool,
    pub unique_id: String,
    pub file_name: String,
    pub size: u32,
}

/// The contents of an `UploadResponse`.
pub struct Receipt {
    pub success: bool,
    pub unique_id: Seq<char>,
    pub file_name: Seq<char>,
    pub size: u32,
}

impl View for UploadResponse {
    type V = Receipt;

    open spec fn view(&self) -> Receipt {
        Receipt {
            success: self.success,
            unique_id: self.unique_id@,
            file_name: self.file_name@,
            size: self.size,
        }
    }
}

/// An upload. Each state names what is to be done next.
#[derive(Debug)]
pub enum Upload {
    /// Look the storage channel up in the configuration.
    ReadChannel { filename: String, length: usize },
    /// Write the body to the temporary file of the job.
    WriteTemp { job: UploadJob },
    /// Send the temporary file to the channel as a document, with the unique id as its caption.
    Send { job: UploadJob },
    /// Remove the temporary file, whether or not it was sent, and read the clock.
    RemoveTemp { job: UploadJob, sent: Option<SentDocument> },
    /// Save the record of the file.
    Save { record: FileMetadata },
    /// Serialise the receipt.
    Serialize { receipt: UploadResponse },
    /// Answer.
    Done { reply: Reply },
}

/// The contents of an `Upload`.
pub enum UploadView {
    ReadChannel { filename: Seq<char>, length: usize },
    WriteTemp { job: Job },
    Send { job: Job },
    RemoveTemp { job: Job, sent: Option<SentDocument> },
    Save { record: Record },
    Serialize { receipt: Receipt },
    Done { reply: Answer },
}

impl View for Upload {
    type V = UploadView;

    open spec fn view(&self) -> UploadView {
        match *self {
            Upload::ReadChannel { filename, length } => UploadView::ReadChannel {
                filename: filename@,
                length,
            },
            Upload::WriteTemp { job } => UploadView::WriteTemp { job: job@ },
            Upload::Send { job } => UploadView::Send { job: job@ },
            Upload::RemoveTemp { job, sent } => UploadView::RemoveTemp { job: job@, sent },
            Upload::Save { record } => UploadView::Save { record: record@ },
            Upload::Serialize { receipt } => UploadView::Serialize { receipt: receipt@ },
            Upload::Done { reply } => UploadView::Done { reply: reply@ },
        }
    }
}

/// What came of the work that a state asks for.
#[derive(Debug)]
pub enum UploadEvent {
    /// The storage channel, where one is configured.
    Channel(Option<i64>),
    /// Whether the temporary file was written.
    TempWritten(bool),
    /// The message that carries the document, or nothing where sending failed.
    Sent(Option<SentDocument>),
    /// The temporary file is gone; the time is in seconds since the Unix epoch.
    TempRemoved { now: u64 },
    /// Whether the record was saved.
    Saved(bool),
    /// Whether the receipt was serialised.
    Serialized(bool),
}

// ---------------------------------------------------------------------------------------------
// What the upload comes to
// ---------------------------------------------------------------------------------------------

/// The upload ends with a short text.
pub open spec fn refused(status: u16, body: Seq<char>) -> UploadView {
    UploadView::Done { reply: Answer::Text { status, body } }
}

/// The first state of an upload: an empty body is refused.
pub open spec fn first_upload(filename: Option<Seq<char>>, length: usize) -> UploadView {
    if length == 0 {
        refused(BAD_REQUEST, "Empty body"@)
    } else {
        UploadView::ReadChannel {
            filename: sanitized(
                match filename {
                    Some(name) => name,
                    None => "upload.bin"@,
                },
            ),
            length,
        }
    }
}

/// The record of an uploaded file.
pub open spec fn upload_record(
    job: Job,
    file_id: Seq<char>,
    message_id: i32,
    mime_type: Option<Seq<char>>,
    now: u64,
) -> Record {
    Record {
        unique_id: job.unique_id,
        telegram_file_id: file_id,
        file_name: job.filename,
        mime_type,
        file_size: kept_size(job.length as nat),
        uploaded_at: now,
        message_id: Some(message_id),
    }
}

/// The receipt for a stored file.
pub open spec fn receipt_for(record: Record) -> Receipt {
    Receipt {
        success: true,
        unique_id: record.unique_id,
        file_name: record.file_name,
        size: record.file_size,
    }
}

/// With this step a job begins, and draws its identifier.
pub open spec fn begins_job(state: UploadView, event: UploadEvent) -> bool {
    state is ReadChannel && event matches UploadEvent::Channel(Some(_))
}

/// The state that follows `state` on `event`, where the event answers what the state asks for.
/// A job that begins with this step is known by `uuid`.
pub open spec fn next_upload(
    state: UploadView,
    event: UploadEvent,
    uuid: Seq<char>,
) -> Option<UploadView> {
    match (state, event) {
        (UploadView::ReadChannel { filename, length }, UploadEvent::Channel(channel)) => Some(
            match channel {
                Some(channel_id) => UploadView::WriteTemp {
                    job: Job { filename, length, channel_id, unique_id: "u"@ + uuid },
                },
                None => refused(INTERNAL_SERVER_ERROR, "Storage channel not configured"@),
            },
        ),
        (UploadView::WriteTemp { job }, UploadEvent::TempWritten(written)) => Some(
            if written {
                UploadView::Send { job }
            } else {
                refused(INTERNAL_SERVER_ERROR, "Failed to write upload"@)
            },
        ),
        (UploadView::Send { job }, UploadEvent::Sent(sent)) => Some(
            UploadView::RemoveTemp { job, sent },
        ),
        (UploadView::RemoveTemp { job, sent }, UploadEvent::TempRemoved { now }) => Some(
            match sent {
                None => refused(BAD_GATEWAY, "Failed to store file in Telegram"@),
                Some(document) => match document.file_id {
                    None => refused(BAD_GATEWAY, "Stored message returned no file id"@),
                    Some(file_id) => UploadView::Save {
                        record: upload_record(
                            job,
                            file_id@,
                            document.message_id,
                            guessed_mime(job.filename),
                            now,
                        ),
                    },
                },
            },
        ),
        (UploadView::Save { record }, UploadEvent::Saved(saved)) => Some(
            if saved {
                UploadView::Serialize { receipt: receipt_for(record) }
            } else {
                refused(INTERNAL_SERVER_ERROR, "Failed to save metadata"@)
            },
        ),
        (UploadView::Serialize { .. }, UploadEvent::Serialized(serialized)) => Some(
            if serialized {
                UploadView::Done { reply: Answer::Receipt }
            } else {
                refused(INTERNAL_SERVER_ERROR, "Failed to create response"@)
            },
        ),
        _ => None,
    }
}

/// A state that may be missing.
pub open spec fn upload_view(state: Option<Upload>) -> Option<UploadView> {
    match state {
        Some(state) => Some(state@),
        None => None,
    }
}

// ---------------------------------------------------------------------------------------------
// Running an upload
// ---------------------------------------------------------------------------------------------

impl UploadJob {
    /// The name of the temporary file that holds the body.
    pub fn temp_name(&self) -> (res: String)
        ensures
            res@ == "fileslink_upload_"@ + self@.unique_id,
    {
        "fileslink_upload_".to_owned().concat(self.unique_id.as_str())
    }
}

fn refuse(status: u16, body: &str) -> (res: Option<Upload>)
    ensures
        upload_view(res) == Some(refused(status, body@)),
{
    Some(Upload::Done { reply: text_reply(status, body) })
}

impl Upload {
    /// Takes up a request: the file name it gives, if any, and the length of its body.
    pub fn new(filename: Option<String>, length: usize) -> (res: Upload)
        ensures
            res@ == first_upload(optional(filename), length),
            length > 0 && filename is Some ==> {
                &&& res is ReadChannel
                &&& res->ReadChannel_filename@ == sanitized(filename->0@)
                &&& res->ReadChannel_length == length
            },
    {
        if length == 0 {
            return Upload::Done { reply: text_reply(BAD_REQUEST, "Empty body") };
        }
        let raw_filename = match filename {
            Some(name) => name,
            None => "upload.bin".to_owned(),
        };
        Upload::ReadChannel { filename: sanitize_filename(raw_filename.as_str()), length }
    }
}

/// The record of an uploaded file, given the MIME type that goes with its name.
pub fn record_of_upload(
    job: UploadJob,
    file_id: String,
    message_id: i32,
    mime_type: Option<String>,
    now: u64,
) -> (res: FileMetadata)
    ensures
        res@ == upload_record(job@, file_id@, message_id, optional(mime_type), now),
        res.unique_id == job.unique_id,
        res.telegram_file_id == file_id,
        res.file_name == job.filename,
        res.mime_type == mime_type,
        res.file_size == job.length as int % 0x1_0000_0000,
        res.uploaded_at == now,
        res.message_id == Some(message_id),
{
    FileMetadata {
        unique_id: job.unique_id,
        telegram_file_id: file_id,
        file_name: job.filename,
        mime_type,
        file_size: record_size(job.length),
        uploaded_at: now,
        message_id: Some(message_id),
    }
}

/// Begins the job of an upload under the identifier `uuid`.
pub fn upload_job(filename: String, length: usize, channel_id: i64, uuid: &str) -> (res: Upload)
    ensures
        res@ == (UploadView::WriteTemp {
            job: Job { filename: filename@, length, channel_id, unique_id: "u"@ + uuid@ },
        }),
{
    Upload::WriteTemp {
        job: UploadJob { filename, length, channel_id, unique_id: "u".to_owned().concat(uuid) },
    }
}

/// Takes an upload one step on. An event that does not answer what the state asks for leads
/// nowhere.
pub fn files_upload(state: Upload, event: UploadEvent) -> (res: Option<Upload>)
    ensures
        exists|uuid: Seq<char>|
            {
                &&& begins_job(state@, event) ==> uuid_v4(uuid)
                &&& upload_view(res) == #[trigger] next_upload(state@, event, uuid)
            },
        state@ is ReadChannel && event is Channel && event->Channel_0 is Some ==> {
            &&& res is Some && res->0 is WriteTemp
            &&& res->0->WriteTemp_job.filename@ == state->ReadChannel_filename@
            &&& res->0->WriteTemp_job.length == state->ReadChannel_length
            &&& res->0->WriteTemp_job.channel_id == event->Channel_0->0
            &&& exists|uuid: Seq<char>| #[trigger]
                uuid_v4(uuid) && res->0->WriteTemp_job.unique_id@ == "u"@ + uuid
        },
        state@ is Save && event == UploadEvent::Saved(true) ==> {
            &&& res is Some && res->0 is Serialize
            &&& res->0->receipt.success
            &&& res->0->receipt.unique_id@ == state->Save_record.unique_id@
            &&& res->0->receipt.file_name@ == state->Save_record.file_name@
            &&& res->0->receipt.size == state->Save_record.file_size
        },
{
    let ghost mut drawn: Seq<char> = Seq::empty();
    let res = match (state, event) {
        (Upload::ReadChannel { filename, length }, UploadEvent::Channel(channel)) => {
            match channel {
                Some(channel_id) => {
                    let uuid = new_uuid();
                    proof {
                        drawn = uuid@;
                    }
                    Some(upload_job(filename, length, channel_id, uuid.as_str()))
                },
                None => refuse(INTERNAL_SERVER_ERROR, "Storage channel not configured"),
            }
        },
        (Upload::WriteTemp { job }, UploadEvent::TempWritten(written)) => {
            if written {
                Some(Upload::Send { job })
            } else {
                refuse(INTERNAL_SERVER_ERROR, "Failed to write upload")
            }
        },
        (Upload::Send { job }, UploadEvent::Sent(sent)) => Some(Upload::RemoveTemp { job, sent }),
        (Upload::RemoveTemp { job, sent }, UploadEvent::TempRemoved { now }) => match sent {
            None => refuse(BAD_GATEWAY, "Failed to store file in Telegram"),
            Some(document) => match document.file_id {
                None => refuse(BAD_GATEWAY, "Stored message returned no file id"),
                Some(file_id) => {
                    let mime_type = guess_mime(job.filename.as_str());
                    Some(
                        Upload::Save {
                            record: record_of_upload(
                                job,
                                file_id,
                                document.message_id,
                                mime_type,
                                now,
                            ),
                        },
                    )
                },
            },
        },
        (Upload::Save { record }, UploadEvent::Saved(saved)) => {
            if saved {
                Some(
                    Upload::Serialize {
                        receipt: UploadResponse {
                            success: true,
                            unique_id: record.unique_id,
                            file_name: record.file_name,
                            size: record.file_size,
                        },
                    },
                )
            } else {
                refuse(INTERNAL_SERVER_ERROR, "Failed to save metadata")
            }
        },
        (Upload::Serialize { .. }, UploadEvent::Serialized(serialized)) => {
            if serialized {
                Some(Upload::Done { reply: Reply::Receipt })
            } else {
                refuse(INTERNAL_SERVER_ERROR, "Failed to create response")
            }
        },
        _ => None,
    };
    assert(upload_view(res) == next_upload(state@, event, drawn));
    res
}

// ---------------------------------------------------------------------------------------------
// Whole uploads
// ---------------------------------------------------------------------------------------------

/// `states` are the states of an upload one after the other, and `events` what came between.
pub open spec fn upload_run(
    states: Seq<UploadView>,
    events: Seq<UploadEvent>,
    uuid: Seq<char>,
) -> bool {
    &&& states.len() == events.len() + 1
    &&& forall|i: int|
        0 <= i < events.len() ==> #[trigger] next_upload(states[i], events[i], uuid) == Some(
            states[i + 1],
        )
}

/// Where an upload gets to on `events`: to its answer, or as far as they lead.
pub open spec fn upload_end(
    state: UploadView,
    events: Seq<UploadEvent>,
    uuid: Seq<char>,
) -> UploadView
    decreases events.len(),
{
    if state is Done || events.len() == 0 {
        state
    } else {
        match next_upload(state, events[0], uuid) {
            Some(next) => upload_end(next, events.drop_first(), uuid),
            None => state,
        }
    }
}

/// The answer to an upload, by what came of each piece of work: the first that failed decides.
pub open spec fn upload_answer(
    length: usize,
    channel: Option<i64>,
    written: bool,
    sent: Option<SentDocument>,
    saved: bool,
    serialized: bool,
) -> Answer {
    if length == 0 {
        Answer::Text { status: BAD_REQUEST, body: "Empty body"@ }
    } else if channel is None {
        Answer::Text {
            status: INTERNAL_SERVER_ERROR,
            body: "Storage channel not configured"@,
        }
    } else if !written {
        Answer::Text { status: INTERNAL_SERVER_ERROR, body: "Failed to write upload"@ }
    } else if sent is None {
        Answer::Text { status: BAD_GATEWAY, body: "Failed to store file in Telegram"@ }
    } else if sent->0.file_id is None {
        Answer::Text { status: BAD_GATEWAY, body: "Stored message returned no file id"@ }
    } else if !saved {
        Answer::Text { status: INTERNAL_SERVER_ERROR, body: "Failed to save metadata"@ }
    } else if !serialized {
        Answer::Text { status: INTERNAL_SERVER_ERROR, body: "Failed to create response"@ }
    } else {
        Answer::Receipt
    }
}

/// Every upload is answered, and the first piece of work that fails decides how.
pub proof fn law_first_failure_answers_upload(
    filename: Option<Seq<char>>,
    length: usize,
    channel: Option<i64>,
    written: bool,
    sent: Option<SentDocument>,
    now: u64,
    saved: bool,
    serialized: bool,
    uuid: Seq<char>,
)
    ensures
        upload_end(
            first_upload(filename, length),
            seq![
                UploadEvent::Channel(channel),
                UploadEvent::TempWritten(written),
                UploadEvent::Sent(sent),
                UploadEvent::TempRemoved { now },
                UploadEvent::Saved(saved),
                UploadEvent::Serialized(serialized),
            ],
            uuid,
        ) == (UploadView::Done {
            reply: upload_answer(length, channel, written, sent, saved, serialized),
        }),
{
    reveal_with_fuel(upload_end, 7);
}

/// Once the temporary file is written it is removed before the upload is answered.
pub proof fn law_temp_file_is_removed(
    states: Seq<UploadView>,
    events: Seq<UploadEvent>,
    uuid: Seq<char>,
    i: int,
    j: int,
)
    requires
        upload_run(states, events, uuid),
        0 <= i < j < states.len(),
        states[i] is Send,
        states[j] is Done,
    ensures
        i + 1 < j,
        states[i + 1] is RemoveTemp,
        states[i + 1]->RemoveTemp_job == states[i]->Send_job,
{
    assert(next_upload(states[i], events[i], uuid) is Some);
}

/// An upload that is answered with a receipt has stored what it was given: the file went to the
/// configured channel under the identifier that was drawn, its record was saved under that
/// identifier with the sanitized name and the length of the body, and the receipt says the same.
pub proof fn law_receipt_means_stored(
    filename: Option<Seq<char>>,
    length: usize,
    states: Seq<UploadView>,
    events: Seq<UploadEvent>,
    uuid: Seq<char>,
)
    requires
        upload_run(states, events, uuid),
        states[0] == first_upload(filename, length),
        states.last() == (UploadView::Done { reply: Answer::Receipt }),
    ensures
        states.len() == 7,
        events[0] matches UploadEvent::Channel(Some(channel_id)) && states[2] matches
            UploadView::Send { job } && job.channel_id == channel_id && job.unique_id == "u"@ + uuid,
        events[1] == UploadEvent::TempWritten(true),
        events[2] matches UploadEvent::Sent(Some(document)) && document.file_id matches Some(file_id)
            && states[4] matches UploadView::Save { record } && {
            &&& record.unique_id == "u"@ + uuid
            &&& record.telegram_file_id == file_id@
            &&& record.message_id == Some(document.message_id)
            &&& record.file_name == sanitized(
                match filename {
                    Some(name) => name,
                    None => "upload.bin"@,
                },
            )
            &&& record.file_size == kept_size(length as nat)
            &&& record.mime_type == guessed_mime(record.file_name)
            &&& events[3] == (UploadEvent::TempRemoved { now: record.uploaded_at })
            &&& states[5] == (UploadView::Serialize { receipt: receipt_for(record) })
            &&& states[5] matches UploadView::Serialize { receipt } && {
                &&& receipt.success
                &&& receipt.unique_id == record.unique_id
                &&& receipt.file_name == record.file_name
                &&& receipt.size == record.file_size
                &&& receipt.size == length as int % 0x1_0000_0000
            }
        },
        events[4] == UploadEvent::Saved(true),
        events[5] == UploadEvent::Serialized(true),
{
    let n = events.len();
    if length == 0 {
        assert(n > 0 ==> next_upload(states[0], events[0], uuid) is Some);
    } else {
        assert(n > 0);
        assert(next_upload(states[0], events[0], uuid) is Some);
        assert(n > 1 ==> next_upload(states[1], events[1], uuid) is Some);
        assert(n > 2 ==> next_upload(states[2], events[2], uuid) is Some);
        assert(n > 3 ==> next_upload(states[3], events[3], uuid) is Some);
        assert(n > 4 ==> next_upload(states[4], events[4], uuid) is Some);
        assert(n > 5 ==> next_upload(states[5], events[5], uuid) is Some);
        assert(n > 6 ==> next_upload(states[6], events[6], uuid) is Some);
    }
}

/// A body of a size that the server takes is recorded with its exact size.
pub proof fn law_recorded_size_is_exact(job: Job, file_id: Seq<char>, message_id: i32, now: u64)
    requires
        job.length <= MAX_BODY_BYTES,
    ensures
        upload_record(job, file_id, message_id, guessed_mime(job.filename), now).file_size
            == job.length,
{
}

/// An upload begins with the name that it gives, made fit for a header, or with `upload.bin`, and
/// with the length of its body. An empty body is refused, whatever its name.
pub proof fn law_upload_begins(name: Seq<char>, length: usize)
    ensures
        length > 0 ==> first_upload(Some(name), length) == (UploadView::ReadChannel {
            filename: sanitized(name),
            length,
        }),
        length > 0 ==> first_upload(None, length) == (UploadView::ReadChannel {
            filename: sanitized("upload.bin"@),
            length,
        }),
        first_upload(Some(name), 0) == (UploadView::Done {
            reply: Answer::Text { status: 400, body: "Empty body"@ },
        }),
        first_upload(None, 0) == (UploadView::Done {
            reply: Answer::Text { status: 400, body: "Empty body"@ },
        }),
{
}

/// What was given goes through the upload unchanged: the job has the name, the length, the channel
/// and the identifier that was drawn, and it stays the same until its temporary file is removed.
/// Only the beginning of a job draws an identifier.
pub proof fn law_job_goes_through_unchanged(
    filename: Seq<char>,
    length: usize,
    channel_id: i64,
    job: Job,
    sent: Option<SentDocument>,
    uuid: Seq<char>,
)
    ensures
        next_upload(
            UploadView::ReadChannel { filename, length },
            UploadEvent::Channel(Some(channel_id)),
            uuid,
        ) == Some(
            UploadView::WriteTemp {
                job: Job { filename, length, channel_id, unique_id: "u"@ + uuid },
            },
        ),
        next_upload(UploadView::WriteTemp { job }, UploadEvent::TempWritten(true), uuid) == Some(
            UploadView::Send { job },
        ),
        next_upload(UploadView::Send { job }, UploadEvent::Sent(sent), uuid) == Some(
            UploadView::RemoveTemp { job, sent },
        ),
        begins_job(
            UploadView::ReadChannel { filename, length },
            UploadEvent::Channel(Some(channel_id)),
        ),
{
}

/// The record of an upload says where the file is: under which identifier, in which message, as
/// which file of Telegram; and what it is: its name, the type that goes with the name, its length
/// and its time.
pub proof fn law_record_describes_the_upload(
    job: Job,
    document: SentDocument,
    now: u64,
    uuid: Seq<char>,
)
    requires
        document.file_id is Some,
    ensures
        next_upload(
            UploadView::RemoveTemp { job, sent: Some(document) },
            UploadEvent::TempRemoved { now },
            uuid,
        ) matches Some(UploadView::Save { record }) && {
            &&& record.unique_id == job.unique_id
            &&& record.telegram_file_id == document.file_id->0@
            &&& record.file_name == job.filename
            &&& record.mime_type == guessed_mime(job.filename)
            &&& record.file_size == job.length as int % 0x1_0000_0000
            &&& record.uploaded_at == now
            &&& record.message_id == Some(document.message_id)
        },
{
}

/// The receipt says what the record says: the identifier, the name and the size under which the
/// file was saved.
pub proof fn law_receipt_repeats_the_record(record: Record, receipt: Receipt, uuid: Seq<char>)
    ensures
        next_upload(UploadView::Save { record }, UploadEvent::Saved(true), uuid) matches Some(
            UploadView::Serialize { receipt: given },
        ) && {
            &&& given.success
            &&& given.unique_id == record.unique_id
            &&& given.file_name == record.file_name
            &&& given.size == record.file_size
        },
        next_upload(UploadView::Serialize { receipt }, UploadEvent::Serialized(true), uuid) == Some(
            UploadView::Done { reply: Answer::Receipt },
        ),
{
}

/// Each piece of work that fails is answered with a status and a text of its own, whatever the
/// upload.
pub proof fn law_upload_failures(
    filename: Seq<char>,
    length: usize,
    job: Job,
    document: SentDocument,
    record: Record,
    receipt: Receipt,
    now: u64,
    uuid: Seq<char>,
)
    requires
        document.file_id is None,
    ensures
        next_upload(
            UploadView::ReadChannel { filename, length },
            UploadEvent::Channel(None),
            uuid,
        ) == Some(
            UploadView::Done {
                reply: Answer::Text { status: 500, body: "Storage channel not configured"@ },
            },
        ),
        next_upload(UploadView::WriteTemp { job }, UploadEvent::TempWritten(false), uuid) == Some(
            UploadView::Done {
                reply: Answer::Text { status: 500, body: "Failed to write upload"@ },
            },
        ),
        next_upload(
            UploadView::RemoveTemp { job, sent: None },
            UploadEvent::TempRemoved { now },
            uuid,
        ) == Some(
            UploadView::Done {
                reply: Answer::Text { status: 502, body: "Failed to store file in Telegram"@ },
            },
        ),
        next_upload(
            UploadView::RemoveTemp { job, sent: Some(document) },
            UploadEvent::TempRemoved { now },
            uuid,
        ) == Some(
            UploadView::Done {
                reply: Answer::Text { status: 502, body: "Stored message returned no file id"@ },
            },
        ),
        next_upload(UploadView::Save { record }, UploadEvent::Saved(false), uuid) == Some(
            UploadView::Done {
                reply: Answer::Text { status: 500, body: "Failed to save metadata"@ },
            },
        ),
        next_upload(
            UploadView::Serialize { receipt },
            UploadEvent::Serialized(false),
            uuid,
        ) == Some(
            UploadView::Done {
                reply: Answer::Text { status: 500, body: "Failed to create response"@ },
            },
        ),
{
}

/// An upload takes a step if and only if the event answers what its state asks for, and nothing
/// but the beginning of a job depends on the identifier.
pub proof fn law_upload_takes_only_answers(
    state: UploadView,
    event: UploadEvent,
    uuid: Seq<char>,
    other: Seq<char>,
)
    ensures
        next_upload(state, event, uuid) is Some <==> {
            ||| state is ReadChannel && event is Channel
            ||| state is WriteTemp && event is TempWritten
            ||| state is Send && event is Sent
            ||| state is RemoveTemp && event is TempRemoved
            ||| state is Save && event is Saved
            ||| state is Serialize && event is Serialized
        },
        !(state is ReadChannel) ==> next_upload(state, event, uuid) == next_upload(
            state,
            event,
            other,
        ),
{
}

/// The contents of a job are its fields.
pub proof fn law_job_contents(job: UploadJob)
    ensures
        job@.filename == job.filename@,
        job@.length == job.length,
        job@.channel_id == job.channel_id,
        job@.unique_id == job.unique_id@,
{
}

/// The contents of a receipt are its fields.
pub proof fn law_receipt_contents(receipt: UploadResponse)
    ensures
        receipt@.success == receipt.success,
        receipt@.unique_id == receipt.unique_id@,
        receipt@.file_name == receipt.file_name@,
        receipt@.size == receipt.size,
{
}

/// The contents of a state are those of its parts.
pub proof fn law_upload_contents(state: Upload)
    ensures
        state matches Upload::ReadChannel { filename, length } ==> state@ == (UploadView::ReadChannel {
            filename: filename@,
            length,
        }),
        state matches Upload::WriteTemp { job } ==> state@ == (UploadView::WriteTemp {
            job: job@,
        }),
        state matches Upload::Send { job } ==> state@ == (UploadView::Send {
            job: job@,
        }),
        state matches Upload::RemoveTemp { job, sent } ==> state@ == (UploadView::RemoveTemp {
            job: job@,
            sent,
        }),
        state matches Upload::Save { record } ==> state@ == (UploadView::Save {
            record: record@,
        }),
        state matches Upload::Serialize { receipt } ==> state@ == (UploadView::Serialize {
            receipt: receipt@,
        }),
        state matches Upload::Done { reply } ==> state@ == (UploadView::Done {
            reply: reply@,
        }),
        upload_view(Some(state)) == Some(state@),
        upload_view(None) is None,
{
}

} // verus!
