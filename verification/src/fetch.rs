//! Storing a file that is fetched from a URL.

use vstd::prelude::*;

use crate::forward::{after_work, item_result, UNIQUE_ID_SIZE};
use crate::ident::{nano_id, new_nano_id};
use crate::link::{first_link, link_end, outcome, LinkEvent, LinkView};
use crate::mime::{guess_mime, guessed_mime};
use crate::queue::{work_on, worker_end, FileQueueItem, WorkerEvent};
use crate::record::{kept_size, record_size, FileMetadata, Record};
use crate::text::{
    after_last, after_last_of, first_after, header_text, lacks, law_after_last, law_header_text,
    law_second_piece, law_trimmed, optional, optional_header_text, optional_header_text_of, row,
    second_piece, second_piece_of, trim_of, trimmed,
};
use crate::upload::SentDocument;

verus! {

// ---------------------------------------------------------------------------------------------
// States and events
// ---------------------------------------------------------------------------------------------

/// A fetched file to send to the storage channel.
#[derive(Debug)]
pub struct FetchedFile {
    pub channel_id: i64,
    pub file_name: String,
    /// The number of bytes in the file.
    pub length: usize,
    /// The caption of the message, and the identifier in the link.
    pub unique_id: String,
}

/// The contents of a `FetchedFile`.
pub struct Fetched {
    pub channel_id: i64,
    pub file_name: Seq<char>,
    pub length: usize,
    pub unique_id: Seq<char>,
}

impl View for FetchedFile {
    type V = Fetched;

    open spec fn view(&self) -> Fetched {
        Fetched {
            channel_id: self.channel_id,
            file_name: self.file_name@,
            length: self.length,
            unique_id: self.unique_id@,
        }
    }
}

/// The storing of a file from a URL. Each state names what is to be done next.
#[derive(Debug)]
pub enum Fetch {
    /// Look the storage channel up in the configuration.
    ReadChannel { item: FileQueueItem, url: String },
    /// Ask for the file at the URL.
    Get { item: FileQueueItem, url: String, channel_id: i64 },
    /// Read the body of the response.
    ReadBody { item: FileQueueItem, channel_id: i64, file_name: String },
    /// Send the file to the channel as a document.
    Send { item: FileQueueItem, file: FetchedFile },
    /// Read the clock.
    Stamp { item: FileQueueItem, file: FetchedFile, file_id: String, message_id: i32 },
    /// Save the record of the file.
    Save { item: FileQueueItem, record: FileMetadata },
    /// The file is stored: announce its link.
    Announce { item: FileQueueItem, record: FileMetadata },
    /// The file is stored and its link announced, or why not.
    Done { result: Result<(), String> },
}

/// The contents of a `Fetch`.
pub enum FetchView {
    ReadChannel { item: FileQueueItem, url: Seq<char> },
    Get { item: FileQueueItem, url: Seq<char>, channel_id: i64 },
    ReadBody { item: FileQueueItem, channel_id: i64, file_name: Seq<char> },
    Send { item: FileQueueItem, file: Fetched },
    Stamp { item: FileQueueItem, file: Fetched, file_id: Seq<char>, message_id: i32 },
    Save { item: FileQueueItem, record: Record },
    Announce { item: FileQueueItem, record: Record },
    Done { result: Result<(), Seq<char>> },
}

impl View for Fetch {
    type V = FetchView;

    open spec fn view(&self) -> FetchView {
        match *self {
            Fetch::ReadChannel { item, url } => FetchView::ReadChannel { item, url: url@ },
            Fetch::Get { item, url, channel_id } => FetchView::Get { item, url: url@, channel_id },
            Fetch::ReadBody { item, channel_id, file_name } => FetchView::ReadBody {
                item,
                channel_id,
                file_name: file_name@,
            },
            Fetch::Send { item, file } => FetchView::Send { item, file: file@ },
            Fetch::Stamp { item, file, file_id, message_id } => FetchView::Stamp {
                item,
                file: file@,
                file_id: file_id@,
                message_id,
            },
            Fetch::Save { item, record } => FetchView::Save { item, record: record@ },
            Fetch::Announce { item, record } => FetchView::Announce { item, record: record@ },
            Fetch::Done { result } => FetchView::Done { result: outcome(result) },
        }
    }
}

/// What came of the work that a state asks for.
#[derive(Debug)]
pub enum FetchEvent {
    /// The storage channel, or why there is none.
    Channel(Result<i64, String>),
    /// The `Content-Disposition` header of the response, where it has one, or why there is no
    /// response.
    Responded(Result<Option<Vec<u8>>, String>),
    /// The number of bytes in the body, or why it was not read.
    Body(Result<usize, String>),
    /// The message in the channel that carries the file, or why it was not sent.
    Sent(Result<SentDocument, String>),
    /// The time in seconds since the Unix epoch.
    Clock(u64),
    /// The record was saved, or why it was not.
    Saved(Result<(), String>),
    /// The link was announced, or why it was not.
    Announced(Result<(), String>),
}

// ---------------------------------------------------------------------------------------------
// What is sent, and what is kept of it
// ---------------------------------------------------------------------------------------------

/// The name that a `Content-Disposition` header gives a file.
pub open spec fn header_name(content_disposition: Option<Vec<u8>>) -> Option<Seq<char>> {
    match optional_header_text(content_disposition) {
        None => None,
        Some(text) => match second_piece(text, "filename="@) {
            None => None,
            Some(piece) => Some(trimmed(piece, '"')),
        },
    }
}

/// The name of a fetched file: what its header gives, or else the last part of its URL; an empty
/// name is none.
pub open spec fn fetched_name(url: Seq<char>, content_disposition: Option<Vec<u8>>) -> Option<
    Seq<char>,
> {
    let name = match header_name(content_disposition) {
        Some(name) => name,
        None => after_last(url, '/'),
    };
    if name.len() == 0 {
        None
    } else {
        Some(name)
    }
}

/// The record of a fetched file; `mime_type` is the MIME type that goes with its name.
pub open spec fn fetch_record(
    file: Fetched,
    file_id: Seq<char>,
    message_id: i32,
    mime_type: Option<Seq<char>>,
    now: u64,
) -> Record {
    Record {
        unique_id: file.unique_id,
        telegram_file_id: file_id,
        file_name: file.file_name,
        mime_type,
        file_size: kept_size(file.length as nat),
        uploaded_at: now,
        message_id: Some(message_id),
    }
}

/// The item is given up.
pub open spec fn fetch_gives_up(error: Seq<char>) -> FetchView {
    FetchView::Done { result: Err(error) }
}

/// With this step the identifier of the file is drawn.
pub open spec fn fetch_draws_id(state: FetchView, event: FetchEvent) -> bool {
    state is ReadBody && event matches FetchEvent::Body(Ok(_))
}

/// The state that follows `state` on `event`, where the event answers what the state asks for.
/// The file is known by `unique_id` where it gets its identifier with this step.
pub open spec fn next_fetch(state: FetchView, event: FetchEvent, unique_id: Seq<char>) -> Option<
    FetchView,
> {
    match (state, event) {
        (FetchView::ReadChannel { item, url }, FetchEvent::Channel(channel)) => Some(
            match channel {
                Ok(channel_id) => FetchView::Get { item, url, channel_id },
                Err(error) => fetch_gives_up("Storage channel not configured: "@ + error@),
            },
        ),
        (FetchView::Get { item, url, channel_id }, FetchEvent::Responded(response)) => Some(
            match response {
                Ok(content_disposition) => match fetched_name(url, content_disposition) {
                    Some(file_name) => FetchView::ReadBody { item, channel_id, file_name },
                    None => fetch_gives_up("Could not determine file name"@),
                },
                Err(error) => fetch_gives_up("Failed to download file: "@ + error@),
            },
        ),
        (FetchView::ReadBody { item, channel_id, file_name }, FetchEvent::Body(body)) => Some(
            match body {
                Ok(length) => FetchView::Send {
                    item,
                    file: Fetched { channel_id, file_name, length, unique_id },
                },
                Err(error) => fetch_gives_up("Failed to read file bytes: "@ + error@),
            },
        ),
        (FetchView::Send { item, file }, FetchEvent::Sent(sent)) => Some(
            match sent {
                Ok(document) => match document.file_id {
                    Some(file_id) => FetchView::Stamp {
                        item,
                        file,
                        file_id: file_id@,
                        message_id: document.message_id,
                    },
                    None => fetch_gives_up("No document in uploaded message"@),
                },
                Err(error) => fetch_gives_up("Failed to upload to storage channel: "@ + error@),
            },
        ),
        (FetchView::Stamp { item, file, file_id, message_id }, FetchEvent::Clock(now)) => Some(
            FetchView::Save {
                item,
                record: fetch_record(
                    file,
                    file_id,
                    message_id,
                    guessed_mime(file.file_name),
                    now,
                ),
            },
        ),
        (FetchView::Save { item, record }, FetchEvent::Saved(saved)) => Some(
            match saved {
                Ok(_) => FetchView::Announce { item, record },
                Err(error) => fetch_gives_up("Failed to save file metadata: "@ + error@),
            },
        ),
        (FetchView::Announce { .. }, FetchEvent::Announced(announced)) => Some(
            FetchView::Done { result: outcome(announced) },
        ),
        _ => None,
    }
}

/// A state that may be missing.
pub open spec fn fetch_view(state: Option<Fetch>) -> Option<FetchView> {
    match state {
        Some(state) => Some(state@),
        None => None,
    }
}

// ---------------------------------------------------------------------------------------------
// Storing a file
// ---------------------------------------------------------------------------------------------

impl Fetch {
    /// Takes up an item whose file is at `url`.
    pub fn new(item: FileQueueItem, url: String) -> (res: Fetch)
        ensures
            res@ == (FetchView::ReadChannel { item, url: url@ }),
    {
        Fetch::ReadChannel { item, url }
    }
}

fn header_name_of(content_disposition: &Option<Vec<u8>>) -> (res: Option<String>)
    ensures
        optional(res) == header_name(*content_disposition),
{
    match optional_header_text_of(content_disposition) {
        None => None,
        Some(text) => match second_piece_of(text.as_str(), "filename=") {
            None => None,
            Some(piece) => Some(trim_of(piece.as_str(), '"')),
        },
    }
}

/// The name of a fetched file: what its header gives, or else the last part of its URL.
pub fn fetched_name_of(url: &str, content_disposition: &Option<Vec<u8>>) -> (res: Option<String>)
    ensures
        optional(res) == fetched_name(url@, *content_disposition),
{
    let name = match header_name_of(content_disposition) {
        Some(name) => name,
        None => after_last_of(url, '/'),
    };
    if name.as_str().is_empty() {
        None
    } else {
        Some(name)
    }
}

/// The record of a fetched file; `mime_type` is the MIME type that goes with its name.
pub fn record_of_fetch(
    file: FetchedFile,
    file_id: String,
    message_id: i32,
    mime_type: Option<String>,
    now: u64,
) -> (res: FileMetadata)
    ensures
        res@ == fetch_record(file@, file_id@, message_id, optional(mime_type), now),
        res.unique_id == file.unique_id,
        res.telegram_file_id == file_id,
        res.file_name == file.file_name,
        res.mime_type == mime_type,
        res.file_size == file.length as int % 0x1_0000_0000,
        res.uploaded_at == now,
        res.message_id == Some(message_id),
{
    FileMetadata {
        unique_id: file.unique_id,
        telegram_file_id: file_id,
        file_name: file.file_name,
        mime_type,
        file_size: record_size(file.length),
        uploaded_at: now,
        message_id: Some(message_id),
    }
}

fn fail_with(reason: &str, error: &str) -> (res: Option<Fetch>)
    ensures
        fetch_view(res) == Some(fetch_gives_up(reason@ + error@)),
{
    Some(Fetch::Done { result: Err(reason.to_owned().concat(error)) })
}

/// Takes the storing of a file one step on. An event that does not answer what the state asks
/// for leads nowhere.
pub fn download_and_store_file_from_url(state: Fetch, event: FetchEvent) -> (res: Option<Fetch>)
    ensures
        exists|unique_id: Seq<char>|
            {
                &&& fetch_draws_id(state@, event) ==> nano_id(unique_id, UNIQUE_ID_SIZE as nat)
                &&& fetch_view(res) == #[trigger] next_fetch(state@, event, unique_id)
            },
        state is ReadBody && event is Body && event->Body_0 is Ok ==> {
            &&& res is Some && res->0 is Send
            &&& nano_id(res->0->Send_file.unique_id@, 8)
            &&& res->0->Send_item == state->ReadBody_item
            &&& res->0->Send_file.channel_id == state->ReadBody_channel_id
            &&& res->0->Send_file.file_name == state->ReadBody_file_name
            &&& res->0->Send_file.length == event->Body_0->Ok_0
        },
{
    let ghost mut drawn: Seq<char> = Seq::empty();
    let res = match (state, event) {
        (Fetch::ReadChannel { item, url }, FetchEvent::Channel(channel)) => match channel {
            Ok(channel_id) => Some(Fetch::Get { item, url, channel_id }),
            Err(error) => fail_with("Storage channel not configured: ", error.as_str()),
        },
        (Fetch::Get { item, url, channel_id }, FetchEvent::Responded(response)) => match response {
            Ok(content_disposition) => match fetched_name_of(url.as_str(), &content_disposition) {
                Some(file_name) => Some(Fetch::ReadBody { item, channel_id, file_name }),
                None => Some(
                    Fetch::Done { result: Err("Could not determine file name".to_owned()) },
                ),
            },
            Err(error) => fail_with("Failed to download file: ", error.as_str()),
        },
        (Fetch::ReadBody { item, channel_id, file_name }, FetchEvent::Body(body)) => match body {
            Ok(length) => {
                let unique_id = new_nano_id(UNIQUE_ID_SIZE);
                proof {
                    drawn = unique_id@;
                }
                let file = FetchedFile { channel_id, file_name, length, unique_id };
                Some(Fetch::Send { item, file })
            },
            Err(error) => fail_with("Failed to read file bytes: ", error.as_str()),
        },
        (Fetch::Send { item, file }, FetchEvent::Sent(sent)) => match sent {
            Ok(document) => match document.file_id {
                Some(file_id) => Some(
                    Fetch::Stamp { item, file, file_id, message_id: document.message_id },
                ),
                None => Some(
                    Fetch::Done { result: Err("No document in uploaded message".to_owned()) },
                ),
            },
            Err(error) => fail_with("Failed to upload to storage channel: ", error.as_str()),
        },
        (Fetch::Stamp { item, file, file_id, message_id }, FetchEvent::Clock(now)) => {
            let mime_type = guess_mime(file.file_name.as_str());
            let record = record_of_fetch(file, file_id, message_id, mime_type, now);
            Some(Fetch::Save { item, record })
        },
        (Fetch::Save { item, record }, FetchEvent::Saved(saved)) => match saved {
            Ok(_) => Some(Fetch::Announce { item, record }),
            Err(error) => fail_with("Failed to save file metadata: ", error.as_str()),
        },
        (Fetch::Announce { .. }, FetchEvent::Announced(announced)) => Some(
            Fetch::Done { result: announced },
        ),
        _ => None,
    };
    assert(fetch_view(res) == next_fetch(state@, event, drawn));
    res
}

// ---------------------------------------------------------------------------------------------
// Whole files
// ---------------------------------------------------------------------------------------------

/// Where the storing of a file gets to on `events`: to its end, or as far as they lead.
pub open spec fn fetch_end(
    state: FetchView,
    events: Seq<FetchEvent>,
    unique_id: Seq<char>,
) -> FetchView
    decreases events.len(),
{
    if events.len() == 0 {
        state
    } else {
        match next_fetch(state, events[0], unique_id) {
            Some(next) => fetch_end(next, events.drop_first(), unique_id),
            None => state,
        }
    }
}

/// What the storing of a file comes to, before its link is announced: its record, or why it is not
/// stored, which the first piece of work that fails decides.
pub open spec fn fetch_outcome(
    url: Seq<char>,
    channel: Result<i64, String>,
    response: Result<Option<Vec<u8>>, String>,
    body: Result<usize, String>,
    sent: Result<SentDocument, String>,
    now: u64,
    saved: Result<(), String>,
    unique_id: Seq<char>,
) -> Result<Record, Seq<char>> {
    if channel is Err {
        Err("Storage channel not configured: "@ + channel->Err_0@)
    } else if response is Err {
        Err("Failed to download file: "@ + response->Err_0@)
    } else if fetched_name(url, response->Ok_0) is None {
        Err("Could not determine file name"@)
    } else if body is Err {
        Err("Failed to read file bytes: "@ + body->Err_0@)
    } else if sent is Err {
        Err("Failed to upload to storage channel: "@ + sent->Err_0@)
    } else if sent->Ok_0.file_id is None {
        Err("No document in uploaded message"@)
    } else if saved is Err {
        Err("Failed to save file metadata: "@ + saved->Err_0@)
    } else {
        let file_name = fetched_name(url, response->Ok_0)->0;
        Ok(
            Record {
                unique_id,
                telegram_file_id: sent->Ok_0.file_id->0@,
                file_name,
                mime_type: guessed_mime(file_name),
                file_size: kept_size(body->Ok_0 as nat),
                uploaded_at: now,
                message_id: Some(sent->Ok_0.message_id),
            },
        )
    }
}

/// The events of an item whose file is fetched.
pub open spec fn fetch_events(
    channel: Result<i64, String>,
    response: Result<Option<Vec<u8>>, String>,
    body: Result<usize, String>,
    sent: Result<SentDocument, String>,
    now: u64,
    saved: Result<(), String>,
    announced: Result<(), String>,
) -> Seq<FetchEvent> {
    seq![
        FetchEvent::Channel(channel),
        FetchEvent::Responded(response),
        FetchEvent::Body(body),
        FetchEvent::Sent(sent),
        FetchEvent::Clock(now),
        FetchEvent::Saved(saved),
        FetchEvent::Announced(announced),
    ]
}

/// An item succeeds or is given up, and the first piece of work that fails decides why. What is
/// stored is kept under the identifier that was drawn, the name that the header or the URL gives,
/// and the length of the body; what is announced is the record that was saved, for the item
/// itself.
pub proof fn law_first_failure_ends_fetch(
    item: FileQueueItem,
    url: Seq<char>,
    channel: Result<i64, String>,
    response: Result<Option<Vec<u8>>, String>,
    body: Result<usize, String>,
    sent: Result<SentDocument, String>,
    now: u64,
    saved: Result<(), String>,
    announced: Result<(), String>,
    unique_id: Seq<char>,
)
    ensures
        ({
            let start = FetchView::ReadChannel { item, url };
            let events = fetch_events(channel, response, body, sent, now, saved, announced);
            let stored = fetch_outcome(url, channel, response, body, sent, now, saved, unique_id);
            &&& fetch_end(start, events, unique_id) == (FetchView::Done {
                result: item_result(stored, announced),
            })
            &&& stored matches Ok(record) ==> fetch_end(start, events.drop_last(), unique_id) == (
            FetchView::Announce { item, record })
        }),
{
    reveal_with_fuel(fetch_end, 8);
    assert(fetch_events(channel, response, body, sent, now, saved, announced).drop_last() =~= seq![
        FetchEvent::Channel(channel),
        FetchEvent::Responded(response),
        FetchEvent::Body(body),
        FetchEvent::Sent(sent),
        FetchEvent::Clock(now),
        FetchEvent::Saved(saved),
    ]);
}

/// An item with a URL leaves the queue if and only if its file is stored and its link announced.
/// Here `announced` is what the announcement of the stored file came to, and `finished` what the
/// storing came to.
pub proof fn law_fetched_item_leaves_once_announced(
    queue: Seq<FileQueueItem>,
    channel: Result<i64, String>,
    response: Result<Option<Vec<u8>>, String>,
    body: Result<usize, String>,
    sent: Result<SentDocument, String>,
    now: u64,
    saved: Result<(), String>,
    file_domain: String,
    full_path: String,
    edited: bool,
    announced: Result<(), String>,
    finished: Result<(), String>,
    unique_id: Seq<char>,
)
    requires
        queue.len() > 0,
        queue[0].url is Some,
        fetch_outcome(queue[0].url->0@, channel, response, body, sent, now, saved, unique_id) matches
            Ok(record) ==> link_end(
            first_link(queue[0], record),
            seq![LinkEvent::Resolved { file_domain, full_path }, LinkEvent::Edited(edited)],
        ) == (LinkView::Done { result: outcome(announced) }),
        fetch_end(
            FetchView::ReadChannel { item: queue[0], url: queue[0].url->0@ },
            fetch_events(channel, response, body, sent, now, saved, announced),
            unique_id,
        ) == (FetchView::Done { result: outcome(finished) }),
    ensures
        worker_end(work_on(queue[0]), seq![WorkerEvent::Finished(finished)], queue) == after_work(
            queue,
            fetch_outcome(queue[0].url->0@, channel, response, body, sent, now, saved, unique_id),
            edited,
        ),
{
    let url = queue[0].url->0@;
    law_first_failure_ends_fetch(
        queue[0],
        url,
        channel,
        response,
        body,
        sent,
        now,
        saved,
        announced,
        unique_id,
    );
    reveal_with_fuel(link_end, 3);
    reveal_with_fuel(worker_end, 2);
}

/// The bytes of a header that spell `text`: visible ASCII, spaces and tabs.
pub open spec fn spells(header: Seq<u8>, text: Seq<char>) -> bool {
    &&& header.len() == text.len()
    &&& forall|i: int|
        0 <= i < header.len() ==> {
            &&& 32 <= #[trigger] header[i] <= 126 || header[i] == 9
            &&& text[i] == header[i] as char
        }
}

proof fn lemma_spells(header: Seq<u8>, text: Seq<char>)
    requires
        spells(header, text),
    ensures
        header_text(header) == Some(text),
{
    law_header_text(header);
    let read = header_text(header)->0;
    assert forall|i: int| 0 <= i < read.len() implies #[trigger] read[i] == text[i] by {
        let b: u8 = header[i];
        lemma_same_code(read[i], text[i], b);
    }
    assert(read =~= text);
}

proof fn lemma_same_code(c: char, d: char, b: u8)
    requires
        c as u32 == b as u32,
        d == b as char,
    ensures
        c == d,
{
}

proof fn lemma_quotes_hold_no_key(before: nat, name: Seq<char>, after: nat)
    requires
        lacks(name, "filename="@),
    ensures
        lacks(row('"', before) + name + row('"', after), "filename="@),
{
    reveal_strlit("filename=");
    let key = "filename="@;
    let piece = row('"', before) + name + row('"', after);
    assert forall|i: int, j: int|
        0 <= i <= j <= piece.len() && j - i == key.len() implies #[trigger] piece.subrange(i, j)
        != key by {
        let window = piece.subrange(i, j);
        if window == key {
            assert(window[0] == piece[i] && window[8] == piece[j - 1]);
            assert(before <= i && j <= before + name.len());
            assert(name.subrange(i - before, j - before) =~= window);
        }
    }
}

/// A response names its file: what follows the first `filename=` of the header, without the quotes
/// around it, is the name of the file, whatever stands before it and whatever the URL. A header
/// that names it by nothing leaves the file without a name.
pub proof fn law_header_names_the_file(
    url: Seq<char>,
    header: Vec<u8>,
    before: Seq<char>,
    opening: nat,
    name: Seq<char>,
    closing: nat,
)
    requires
        spells(
            header@,
            before + "filename="@ + (row('"', opening) + name + row('"', closing)),
        ),
        first_after(before, "filename="@),
        lacks(name, "filename="@),
        name.len() == 0 || (name[0] != '"' && name.last() != '"'),
    ensures
        name.len() > 0 ==> fetched_name(url, Some(header)) == Some(name),
        name.len() == 0 ==> fetched_name(url, Some(header)) is None,
{
    let piece = row('"', opening) + name + row('"', closing);
    lemma_spells(header@, before + "filename="@ + piece);
    lemma_quotes_hold_no_key(opening, name, closing);
    law_second_piece(before, "filename="@, piece, Seq::empty());
    law_trimmed(opening, name, closing, '"');
}

/// Where a header holds `filename=` more than once, the name ends at the second.
pub proof fn law_header_names_the_file_once(
    url: Seq<char>,
    header: Vec<u8>,
    before: Seq<char>,
    opening: nat,
    name: Seq<char>,
    closing: nat,
    rest: Seq<char>,
)
    requires
        ({
            let piece = row('"', opening) + name + row('"', closing);
            &&& spells(header@, before + "filename="@ + (piece + "filename="@ + rest))
            &&& first_after(before, "filename="@)
            &&& first_after(piece, "filename="@)
        }),
        name.len() == 0 || (name[0] != '"' && name.last() != '"'),
    ensures
        name.len() > 0 ==> fetched_name(url, Some(header)) == Some(name),
        name.len() == 0 ==> fetched_name(url, Some(header)) is None,
{
    let piece = row('"', opening) + name + row('"', closing);
    lemma_spells(header@, before + "filename="@ + (piece + "filename="@ + rest));
    law_second_piece(before, "filename="@, piece, rest);
    law_trimmed(opening, name, closing, '"');
}

/// The URL names the file, by what follows its last slash, where the header is missing, where it
/// is no text, and where it does not hold `filename=`; a URL that ends in a slash names none.
pub proof fn law_url_names_the_file(
    folder: Seq<char>,
    file: Seq<char>,
    header: Option<Vec<u8>>,
    text: Seq<char>,
)
    requires
        forall|i: int| 0 <= i < file.len() ==> #[trigger] file[i] != '/',
        ({
            ||| header is None
            ||| exists|i: int|
                0 <= i < header->0@.len() && (#[trigger] header->0@[i] < 32 || header->0@[i] > 126)
                    && header->0@[i] != 9
            ||| spells(header->0@, text) && lacks(text, "filename="@)
        }),
    ensures
        file.len() > 0 ==> fetched_name(folder.push('/') + file, header) == Some(file),
        file.len() > 0 ==> fetched_name(file, header) == Some(file),
        file.len() == 0 ==> fetched_name(folder.push('/') + file, header) is None,
{
    law_after_last(folder, '/', file);
    if header is Some {
        law_header_text(header->0@);
        if spells(header->0@, text) && lacks(text, "filename="@) {
            lemma_spells(header->0@, text);
            law_second_piece(text, "filename="@, text, text);
        }
    }
}

/// The item, the channel and the name go through the storing unchanged, and the file that is sent
/// has the length of the body and the identifier that was drawn.
pub proof fn law_fetch_goes_through_unchanged(
    item: FileQueueItem,
    url: Seq<char>,
    channel_id: i64,
    content_disposition: Option<Vec<u8>>,
    file_name: Seq<char>,
    length: usize,
    unique_id: Seq<char>,
)
    ensures
        next_fetch(
            FetchView::ReadChannel { item, url },
            FetchEvent::Channel(Ok(channel_id)),
            unique_id,
        ) == Some(FetchView::Get { item, url, channel_id }),
        fetched_name(url, content_disposition) matches Some(name) ==> next_fetch(
            FetchView::Get { item, url, channel_id },
            FetchEvent::Responded(Ok(content_disposition)),
            unique_id,
        ) == Some(FetchView::ReadBody { item, channel_id, file_name: name }),
        next_fetch(
            FetchView::ReadBody { item, channel_id, file_name },
            FetchEvent::Body(Ok(length)),
            unique_id,
        ) == Some(
            FetchView::Send { item, file: Fetched { channel_id, file_name, length, unique_id } },
        ),
        fetch_draws_id(
            FetchView::ReadBody { item, channel_id, file_name },
            FetchEvent::Body(Ok(length)),
        ),
{
}

/// The record says what was fetched and where it went: its name, the type that goes with the name,
/// its length and its time, and the message and the file of Telegram.
pub proof fn law_record_describes_the_fetch(
    item: FileQueueItem,
    file: Fetched,
    document: SentDocument,
    file_id: Seq<char>,
    message_id: i32,
    now: u64,
    unique_id: Seq<char>,
)
    ensures
        document.file_id matches Some(id) ==> next_fetch(
            FetchView::Send { item, file },
            FetchEvent::Sent(Ok(document)),
            unique_id,
        ) == Some(
            FetchView::Stamp { item, file, file_id: id@, message_id: document.message_id },
        ),
        next_fetch(
            FetchView::Stamp { item, file, file_id, message_id },
            FetchEvent::Clock(now),
            unique_id,
        ) matches Some(FetchView::Save { item: same, record }) && {
            &&& same == item
            &&& record.unique_id == file.unique_id
            &&& record.telegram_file_id == file_id
            &&& record.file_name == file.file_name
            &&& record.mime_type == guessed_mime(file.file_name)
            &&& record.file_size == file.length as int % 0x1_0000_0000
            &&& record.uploaded_at == now
            &&& record.message_id == Some(message_id)
        },
{
}

/// A record that is saved is announced, for the item that it belongs to, and what comes of the
/// announcement is what comes of the item.
pub proof fn law_fetch_ends_with_the_announcement(
    item: FileQueueItem,
    record: Record,
    error: String,
    unique_id: Seq<char>,
)
    ensures
        next_fetch(
            FetchView::Save { item, record },
            FetchEvent::Saved(Ok(())),
            unique_id,
        ) == Some(FetchView::Announce { item, record }),
        next_fetch(
            FetchView::Announce { item, record },
            FetchEvent::Announced(Ok(())),
            unique_id,
        ) == Some(FetchView::Done { result: Ok(()) }),
        next_fetch(
            FetchView::Announce { item, record },
            FetchEvent::Announced(Err(error)),
            unique_id,
        ) == Some(FetchView::Done { result: Err(error@) }),
{
}

/// Each piece of work that fails gives the item up for a reason of its own, which tells the error
/// where there is one.
pub proof fn law_fetch_failures(
    item: FileQueueItem,
    url: Seq<char>,
    channel_id: i64,
    content_disposition: Option<Vec<u8>>,
    file_name: Seq<char>,
    file: Fetched,
    document: SentDocument,
    record: Record,
    error: String,
    unique_id: Seq<char>,
)
    requires
        document.file_id is None,
        fetched_name(url, content_disposition) is None,
    ensures
        next_fetch(
            FetchView::ReadChannel { item, url },
            FetchEvent::Channel(Err(error)),
            unique_id,
        ) == Some(FetchView::Done { result: Err("Storage channel not configured: "@ + error@) }),
        next_fetch(
            FetchView::Get { item, url, channel_id },
            FetchEvent::Responded(Err(error)),
            unique_id,
        ) == Some(FetchView::Done { result: Err("Failed to download file: "@ + error@) }),
        next_fetch(
            FetchView::Get { item, url, channel_id },
            FetchEvent::Responded(Ok(content_disposition)),
            unique_id,
        ) == Some(FetchView::Done { result: Err("Could not determine file name"@) }),
        next_fetch(
            FetchView::ReadBody { item, channel_id, file_name },
            FetchEvent::Body(Err(error)),
            unique_id,
        ) == Some(FetchView::Done { result: Err("Failed to read file bytes: "@ + error@) }),
        next_fetch(
            FetchView::Send { item, file },
            FetchEvent::Sent(Err(error)),
            unique_id,
        ) == Some(
            FetchView::Done { result: Err("Failed to upload to storage channel: "@ + error@) },
        ),
        next_fetch(
            FetchView::Send { item, file },
            FetchEvent::Sent(Ok(document)),
            unique_id,
        ) == Some(FetchView::Done { result: Err("No document in uploaded message"@) }),
        next_fetch(
            FetchView::Save { item, record },
            FetchEvent::Saved(Err(error)),
            unique_id,
        ) == Some(FetchView::Done { result: Err("Failed to save file metadata: "@ + error@) }),
{
}

/// The storing of a file takes a step if and only if the event answers what its state asks for, and
/// nothing but reading the body depends on the identifier that is drawn.
pub proof fn law_fetch_takes_only_answers(
    state: FetchView,
    event: FetchEvent,
    unique_id: Seq<char>,
    other: Seq<char>,
)
    ensures
        next_fetch(state, event, unique_id) is Some <==> {
            ||| state is ReadChannel && event is Channel
            ||| state is Get && event is Responded
            ||| state is ReadBody && event is Body
            ||| state is Send && event is Sent
            ||| state is Stamp && event is Clock
            ||| state is Save && event is Saved
            ||| state is Announce && event is Announced
        },
        !(state is ReadBody) ==> next_fetch(state, event, unique_id) == next_fetch(
            state,
            event,
            other,
        ),
{
}

/// The contents of a fetched file are its fields.
pub proof fn law_fetched_file_contents(file: FetchedFile)
    ensures
        file@.channel_id == file.channel_id,
        file@.file_name == file.file_name@,
        file@.length == file.length,
        file@.unique_id == file.unique_id@,
{
}

/// The contents of a state are those of its parts.
pub proof fn law_fetch_contents(state: Fetch)
    ensures
        state matches Fetch::ReadChannel { item, url } ==> state@ == (FetchView::ReadChannel {
            item,
            url: url@,
        }),
        state matches Fetch::Get { item, url, channel_id } ==> state@ == (FetchView::Get {
            item,
            url: url@,
            channel_id,
        }),
        state matches Fetch::ReadBody { item, channel_id, file_name } ==> state@ == (FetchView::ReadBody {
            item,
            channel_id,
            file_name: file_name@,
        }),
        state matches Fetch::Send { item, file } ==> state@ == (FetchView::Send {
            item,
            file: file@,
        }),
        state matches Fetch::Stamp { item, file, file_id, message_id } ==> state@ == (FetchView::Stamp {
            item,
            file: file@,
            file_id: file_id@,
            message_id,
        }),
        state matches Fetch::Save { item, record } ==> state@ == (FetchView::Save {
            item,
            record: record@,
        }),
        state matches Fetch::Announce { item, record } ==> state@ == (FetchView::Announce {
            item,
            record: record@,
        }),
        state matches Fetch::Done { result: Ok(_) } ==> state@ == (FetchView::Done { result: Ok(()) }),
        state matches Fetch::Done { result: Err(error) } ==> state@ == (FetchView::Done {
            result: Err(error@),
        }),
        fetch_view(Some(state)) == Some(state@),
        fetch_view(None) is None,
{
}

} // verus!
