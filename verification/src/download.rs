//! The download of a file by its link.

use vstd::prelude::*;

use crate::fetch::{fetch_record, Fetched};
use crate::forward::{forward_record, Plan};
use crate::mime::guessed_mime;
use crate::names::{law_sanitizing_is_idempotent, sanitized};
use crate::record::{FileMetadata, Record};
use crate::reply::{
    content_disposition, content_disposition_of, html_reply, mime_or_bytes, mime_or_bytes_of,
    octet_stream, success, text_reply, Answer, Reply, Source, BAD_GATEWAY, INTERNAL_SERVER_ERROR,
    NOT_FOUND, SERVICE_UNAVAILABLE,
};
use crate::text::{
    contains_text, law_header_text, law_occurs_somewhere, law_signed_decimal_reads_back,
    law_trimmed_end, occurs, optional, optional_header_text, optional_header_text_of, row,
    signed_decimal, signed_decimal_text, signed_numeral, signed_value, trim_end_of, trimmed_end,
};
use crate::upload::{upload_record, Job};

verus! {

// ---------------------------------------------------------------------------------------------
// Through the bot
// ---------------------------------------------------------------------------------------------

/// A download. Each state names what is to be done next.
#[derive(Debug)]
pub enum Download {
    /// Look the record of the file up.
    Lookup { unique_id: String, force_download: bool },
    /// Ask the bot where Telegram holds the file.
    Locate { record: FileMetadata, force_download: bool },
    /// Download the file from `path` through the bot.
    Fetch { record: FileMetadata, force_download: bool, path: String },
    /// The file is too large for the bot: get the answer through the large file service.
    HandOver { record: FileMetadata, force_download: bool },
    /// Answer.
    Done { reply: Reply },
}

/// The contents of a `Download`.
pub enum DownloadView {
    Lookup { unique_id: Seq<char>, force_download: bool },
    Locate { record: FileMetadata, force_download: bool },
    Fetch { record: FileMetadata, force_download: bool, path: Seq<char> },
    HandOver { record: FileMetadata, force_download: bool },
    Done { reply: Answer },
}

impl View for Download {
    type V = DownloadView;

    open spec fn view(&self) -> DownloadView {
        match *self {
            Download::Lookup { unique_id, force_download } => DownloadView::Lookup {
                unique_id: unique_id@,
                force_download,
            },
            Download::Locate { record, force_download } => DownloadView::Locate {
                record,
                force_download,
            },
            Download::Fetch { record, force_download, path } => DownloadView::Fetch {
                record,
                force_download,
                path: path@,
            },
            Download::HandOver { record, force_download } => DownloadView::HandOver {
                record,
                force_download,
            },
            Download::Done { reply } => DownloadView::Done { reply: reply@ },
        }
    }
}

/// What came of the work that a state asks for.
#[derive(Debug)]
pub enum DownloadEvent {
    /// The record of the file, where there is one.
    Found(Option<FileMetadata>),
    /// The path of the file, or the text of the error.
    Located(Result<String, String>),
    /// Whether the bytes were downloaded.
    Fetched(bool),
    /// The answer through the large file service.
    HandedOver(Reply),
}

/// The error tells that the file is too large for the bot.
pub open spec fn too_large(error: Seq<char>) -> bool {
    occurs(error, "file is too big"@) || occurs(error, "Bad Request"@)
}

/// The page for a link to a file that is not there.
pub open spec fn no_such_file() -> Answer {
    Answer::Html {
        status: NOT_FOUND,
        body: "<h1>404 Not Found</h1><p>The requested file does not exist.</p><a href=\"/\">Go back to the homepage</a>"@,
    }
}

/// The file that the bot downloaded, as an answer.
pub open spec fn downloaded_file(record: FileMetadata, force_download: bool) -> Answer {
    Answer::File {
        content_type: if force_download {
            octet_stream()
        } else {
            mime_or_bytes(optional(record.mime_type))
        },
        disposition: content_disposition(record.file_name@, force_download),
        source: Source::Downloaded,
    }
}

/// The download ends with a short text.
pub open spec fn failed(status: u16, body: Seq<char>) -> DownloadView {
    DownloadView::Done { reply: Answer::Text { status, body } }
}

/// The state that follows `state` on `event`, where the event answers what the state asks for.
pub open spec fn next_download(state: DownloadView, event: DownloadEvent) -> Option<DownloadView> {
    match (state, event) {
        (DownloadView::Lookup { force_download, .. }, DownloadEvent::Found(found)) => Some(
            match found {
                Some(record) => DownloadView::Locate { record, force_download },
                None => DownloadView::Done { reply: no_such_file() },
            },
        ),
        (DownloadView::Locate { record, force_download }, DownloadEvent::Located(located)) => Some(
            match located {
                Ok(path) => DownloadView::Fetch { record, force_download, path: path@ },
                Err(error) => if too_large(error@) {
                    DownloadView::HandOver { record, force_download }
                } else {
                    failed(INTERNAL_SERVER_ERROR, "Failed to retrieve file from storage"@)
                },
            },
        ),
        (DownloadView::Fetch { record, force_download, .. }, DownloadEvent::Fetched(fetched)) => Some(
            if fetched {
                DownloadView::Done { reply: downloaded_file(record, force_download) }
            } else {
                failed(INTERNAL_SERVER_ERROR, "Failed to download file from storage"@)
            },
        ),
        (DownloadView::HandOver { .. }, DownloadEvent::HandedOver(reply)) => Some(
            DownloadView::Done { reply: reply@ },
        ),
        _ => None,
    }
}

/// A state that may be missing.
pub open spec fn download_view(state: Option<Download>) -> Option<DownloadView> {
    match state {
        Some(state) => Some(state@),
        None => None,
    }
}

impl Download {
    /// Takes up a request for the file `unique_id`. The parameter `dl` of the link, whatever its
    /// value, asks to save the file rather than show it.
    pub fn new(unique_id: String, dl: Option<String>) -> (res: Download)
        ensures
            res@ == (DownloadView::Lookup { unique_id: unique_id@, force_download: dl is Some }),
    {
        Download::Lookup { unique_id, force_download: dl.is_some() }
    }
}

fn fail(status: u16, body: &str) -> (res: Download)
    ensures
        res@ == failed(status, body@),
{
    Download::Done { reply: text_reply(status, body) }
}

/// Takes a download one step on. An event that does not answer what the state asks for leads
/// nowhere.
pub fn files_id(state: Download, event: DownloadEvent) -> (res: Option<Download>)
    ensures
        download_view(res) == next_download(state@, event),
        state is Lookup && event is Found && event->Found_0 is Some ==> {
            &&& res is Some && res->0 is Locate
            &&& res->0->Locate_record == event->Found_0->0
            &&& res->0->Locate_force_download == state->Lookup_force_download
        },
        state is Locate && event is Located && event->Located_0 is Ok ==> {
            &&& res is Some && res->0 is Fetch
            &&& res->0->Fetch_record == state->Locate_record
            &&& res->0->Fetch_force_download == state->Locate_force_download
            &&& res->0->path == event->Located_0->Ok_0
        },
        state is HandOver && event is HandedOver ==> {
            &&& res is Some && res->0 is Done
            &&& res->0->reply == event->HandedOver_0
        },
        state is Locate && event is Located && event->Located_0 is Err ==> ({
            let e = event->Located_0->Err_0@;
            let too_big = exists|i: int, j: int|
                0 <= i <= j <= e.len() && #[trigger] e.subrange(i, j) == "file is too big"@;
            let bad_request = exists|i: int, j: int|
                0 <= i <= j <= e.len() && #[trigger] e.subrange(i, j) == "Bad Request"@;
            let handed_over = Some(
                DownloadView::HandOver {
                    record: state->Locate_record,
                    force_download: state->Locate_force_download,
                },
            );
            &&& too_big ==> download_view(res) == handed_over
            &&& bad_request ==> download_view(res) == handed_over
            &&& !too_big && !bad_request ==> download_view(res) == Some(
                DownloadView::Done {
                    reply: Answer::Text {
                        status: 500,
                        body: "Failed to retrieve file from storage"@,
                    },
                },
            )
        }),
{
    proof {
        if state is Locate && event is Located && event->Located_0 is Err {
            law_refusal_for_size_hands_over(
                state->Locate_record,
                state->Locate_force_download,
                event->Located_0->Err_0,
            );
        }
    }
    match (state, event) {
        (Download::Lookup { force_download, .. }, DownloadEvent::Found(found)) => match found {
            Some(record) => Some(Download::Locate { record, force_download }),
            None => Some(
                Download::Done {
                    reply: html_reply(
                        NOT_FOUND,
                        "<h1>404 Not Found</h1><p>The requested file does not exist.</p><a href=\"/\">Go back to the homepage</a>",
                    ),
                },
            ),
        },
        (Download::Locate { record, force_download }, DownloadEvent::Located(located)) => {
            match located {
                Ok(path) => Some(Download::Fetch { record, force_download, path }),
                Err(error) => {
                    if contains_text(error.as_str(), "file is too big") || contains_text(
                        error.as_str(),
                        "Bad Request",
                    ) {
                        Some(Download::HandOver { record, force_download })
                    } else {
                        Some(fail(INTERNAL_SERVER_ERROR, "Failed to retrieve file from storage"))
                    }
                },
            }
        },
        (Download::Fetch { record, force_download, .. }, DownloadEvent::Fetched(fetched)) => {
            if fetched {
                let disposition = content_disposition_of(record.file_name.as_str(), force_download);
                let content_type = if force_download {
                    "application/octet-stream".to_owned()
                } else {
                    mime_or_bytes_of(record.mime_type)
                };
                Some(
                    Download::Done {
                        reply: Reply::File {
                            content_type,
                            disposition,
                            source: Source::Downloaded,
                        },
                    },
                )
            } else {
                Some(fail(INTERNAL_SERVER_ERROR, "Failed to download file from storage"))
            }
        },
        (Download::HandOver { .. }, DownloadEvent::HandedOver(reply)) => Some(
            Download::Done { reply },
        ),
        _ => None,
    }
}

// ---------------------------------------------------------------------------------------------
// Through the large file service
// ---------------------------------------------------------------------------------------------

/// The download of a large file. Each state names what is to be done next.
#[derive(Debug)]
pub enum Proxy {
    /// Look the service and the storage channel up in the configuration.
    ReadConfig { record: FileMetadata, force_download: bool },
    /// Ask the service for the file at `url`.
    Fetch { record: FileMetadata, force_download: bool, url: String },
    /// Answer.
    Done { reply: Reply },
}

/// The contents of a `Proxy`.
pub enum ProxyView {
    ReadConfig { record: FileMetadata, force_download: bool },
    Fetch { record: FileMetadata, force_download: bool, url: Seq<char> },
    Done { reply: Answer },
}

impl View for Proxy {
    type V = ProxyView;

    open spec fn view(&self) -> ProxyView {
        match *self {
            Proxy::ReadConfig { record, force_download } => ProxyView::ReadConfig {
                record,
                force_download,
            },
            Proxy::Fetch { record, force_download, url } => ProxyView::Fetch {
                record,
                force_download,
                url: url@,
            },
            Proxy::Done { reply } => ProxyView::Done { reply: reply@ },
        }
    }
}

/// The head of the answer of the large file service.
#[derive(Debug)]
pub struct Upstream {
    pub status: u16,
    /// The value of its `content-type` header, where it has one.
    pub content_type: Option<Vec<u8>>,
}

/// What came of the work that a state asks for.
#[derive(Debug)]
pub enum ProxyEvent {
    /// The address of the service, and the storage channel where one is configured.
    Config { service_url: String, channel_id: Option<i64> },
    /// The head of the answer, or nothing where the service could not be reached.
    Answered(Option<Upstream>),
}

/// Where the service has the file that a message of a channel carries.
pub open spec fn service_path(service_url: Seq<char>, channel_id: i64, message_id: i32) -> Seq<char> {
    trimmed_end(service_url, '/') + "/download/"@ + signed_decimal(channel_id as int) + "/"@
        + signed_decimal(message_id as int)
}

/// The file that the service sends, as an answer. Its type is what the service says it is; where
/// it does not, what the record says.
pub open spec fn proxied_file(
    record: FileMetadata,
    force_download: bool,
    content_type: Option<Vec<u8>>,
) -> Answer {
    Answer::File {
        content_type: match optional_header_text(content_type) {
            Some(text) => text,
            None => mime_or_bytes(optional(record.mime_type)),
        },
        disposition: content_disposition(record.file_name@, force_download),
        source: Source::Upstream,
    }
}

/// The download ends with a short text.
pub open spec fn proxy_failed(status: u16, body: Seq<char>) -> ProxyView {
    ProxyView::Done { reply: Answer::Text { status, body } }
}

/// The state that follows `state` on `event`, where the event answers what the state asks for.
pub open spec fn next_proxy(state: ProxyView, event: ProxyEvent) -> Option<ProxyView> {
    match (state, event) {
        (
            ProxyView::ReadConfig { record, force_download },
            ProxyEvent::Config { service_url, channel_id },
        ) => Some(
            match (channel_id, record.message_id) {
                (None, _) => proxy_failed(
                    SERVICE_UNAVAILABLE,
                    "Large file download service not configured"@,
                ),
                (Some(_), None) => proxy_failed(
                    NOT_FOUND,
                    "File cannot be downloaded through the large-file service. Please re-upload it."@,
                ),
                (Some(channel_id), Some(message_id)) => ProxyView::Fetch {
                    record,
                    force_download,
                    url: service_path(service_url@, channel_id, message_id),
                },
            },
        ),
        (ProxyView::Fetch { record, force_download, .. }, ProxyEvent::Answered(answered)) => Some(
            match answered {
                None => proxy_failed(
                    SERVICE_UNAVAILABLE,
                    "Download service temporarily unavailable"@,
                ),
                Some(upstream) => if success(upstream.status) {
                    ProxyView::Done {
                        reply: proxied_file(record, force_download, upstream.content_type),
                    }
                } else {
                    proxy_failed(BAD_GATEWAY, "Failed to retrieve file from download service"@)
                },
            },
        ),
        _ => None,
    }
}

/// A state that may be missing.
pub open spec fn proxy_view(state: Option<Proxy>) -> Option<ProxyView> {
    match state {
        Some(state) => Some(state@),
        None => None,
    }
}

impl Proxy {
    /// Takes over the download of a file that is too large for the bot.
    pub fn new(record: FileMetadata, force_download: bool) -> (res: Proxy)
        ensures
            res@ == (ProxyView::ReadConfig { record, force_download }),
    {
        Proxy::ReadConfig { record, force_download }
    }
}

fn proxy_fail(status: u16, body: &str) -> (res: Proxy)
    ensures
        res@ == proxy_failed(status, body@),
{
    Proxy::Done { reply: text_reply(status, body) }
}

/// Where the service has the file that a message of a channel carries.
pub fn service_path_of(service_url: &str, channel_id: i64, message_id: i32) -> (res: String)
    ensures
        res@ == service_path(service_url@, channel_id, message_id),
        exists|head: Seq<char>, channel: Seq<char>, message: Seq<char>|
            {
                &&& res@ == #[trigger] (head + "/download/"@ + channel + "/"@ + message)
                &&& signed_numeral(channel) && signed_value(channel) == channel_id
                &&& signed_numeral(message) && signed_value(message) == message_id
            },
{
    proof {
        law_signed_decimal_reads_back(channel_id as int);
        law_signed_decimal_reads_back(message_id as int);
    }
    assert(service_path(service_url@, channel_id, message_id) == trimmed_end(service_url@, '/')
        + "/download/"@ + signed_decimal(channel_id as int) + "/"@ + signed_decimal(
        message_id as int,
    ));
    trim_end_of(service_url, '/').concat("/download/").concat(
        signed_decimal_text(channel_id).as_str(),
    ).concat("/").concat(signed_decimal_text(message_id as i64).as_str())
}

/// Takes the download of a large file one step on. An event that does not answer what the state
/// asks for leads nowhere.
pub fn proxy_to_fasttelethon(state: Proxy, event: ProxyEvent) -> (res: Option<Proxy>)
    ensures
        proxy_view(res) == next_proxy(state@, event),
{
    match (state, event) {
        (
            Proxy::ReadConfig { record, force_download },
            ProxyEvent::Config { service_url, channel_id },
        ) => match (channel_id, record.message_id) {
            (None, _) => Some(
                proxy_fail(SERVICE_UNAVAILABLE, "Large file download service not configured"),
            ),
            (Some(_), None) => Some(
                proxy_fail(
                    NOT_FOUND,
                    "File cannot be downloaded through the large-file service. Please re-upload it.",
                ),
            ),
            (Some(channel_id), Some(message_id)) => {
                let url = service_path_of(service_url.as_str(), channel_id, message_id);
                Some(Proxy::Fetch { record, force_download, url })
            },
        },
        (Proxy::Fetch { record, force_download, .. }, ProxyEvent::Answered(answered)) => {
            match answered {
                None => Some(
                    proxy_fail(SERVICE_UNAVAILABLE, "Download service temporarily unavailable"),
                ),
                Some(upstream) => {
                    if !(200 <= upstream.status && upstream.status < 300) {
                        return Some(
                            proxy_fail(BAD_GATEWAY, "Failed to retrieve file from download service"),
                        );
                    }
                    let disposition = content_disposition_of(
                        record.file_name.as_str(),
                        force_download,
                    );
                    let content_type = match optional_header_text_of(&upstream.content_type) {
                        Some(text) => text,
                        None => mime_or_bytes_of(record.mime_type),
                    };
                    Some(
                        Proxy::Done {
                            reply: Reply::File {
                                content_type,
                                disposition,
                                source: Source::Upstream,
                            },
                        },
                    )
                },
            }
        },
        _ => None,
    }
}

// ---------------------------------------------------------------------------------------------
// Whole downloads
// ---------------------------------------------------------------------------------------------

/// Where a download gets to on `events`: to its answer, or as far as they lead.
pub open spec fn download_end(state: DownloadView, events: Seq<DownloadEvent>) -> DownloadView
    decreases events.len(),
{
    if state is Done || events.len() == 0 {
        state
    } else {
        match next_download(state, events[0]) {
            Some(next) => download_end(next, events.drop_first()),
            None => state,
        }
    }
}

/// Every download is answered or handed over, and the first piece of work that fails decides how:
/// a file that nobody stored is not found, and one that the bot refuses for its size goes through
/// the large file service.
pub proof fn law_first_failure_answers_download(
    unique_id: Seq<char>,
    force_download: bool,
    found: Option<FileMetadata>,
    located: Result<String, String>,
    fetched: bool,
)
    ensures
        download_end(
            DownloadView::Lookup { unique_id, force_download },
            seq![
                DownloadEvent::Found(found),
                DownloadEvent::Located(located),
                DownloadEvent::Fetched(fetched),
            ],
        ) == if found is None {
            DownloadView::Done { reply: no_such_file() }
        } else if located matches Err(error) && too_large(error@) {
            DownloadView::HandOver { record: found->0, force_download }
        } else if located is Err {
            failed(INTERNAL_SERVER_ERROR, "Failed to retrieve file from storage"@)
        } else if !fetched {
            failed(INTERNAL_SERVER_ERROR, "Failed to download file from storage"@)
        } else {
            DownloadView::Done { reply: downloaded_file(found->0, force_download) }
        },
{
    reveal_with_fuel(download_end, 4);
}

/// Where the download of a large file gets to on `events`.
pub open spec fn proxy_end(state: ProxyView, events: Seq<ProxyEvent>) -> ProxyView
    decreases events.len(),
{
    if state is Done || events.len() == 0 {
        state
    } else {
        match next_proxy(state, events[0]) {
            Some(next) => proxy_end(next, events.drop_first()),
            None => state,
        }
    }
}

/// The answer to the download of a large file, by what came of each piece of work: the first that
/// failed decides.
pub open spec fn proxy_answer(
    record: FileMetadata,
    force_download: bool,
    channel_id: Option<i64>,
    answered: Option<Upstream>,
) -> Answer {
    if channel_id is None {
        Answer::Text {
            status: SERVICE_UNAVAILABLE,
            body: "Large file download service not configured"@,
        }
    } else if record.message_id is None {
        Answer::Text {
            status: NOT_FOUND,
            body: "File cannot be downloaded through the large-file service. Please re-upload it."@,
        }
    } else if answered is None {
        Answer::Text {
            status: SERVICE_UNAVAILABLE,
            body: "Download service temporarily unavailable"@,
        }
    } else if !success(answered->0.status) {
        Answer::Text {
            status: BAD_GATEWAY,
            body: "Failed to retrieve file from download service"@,
        }
    } else {
        proxied_file(record, force_download, answered->0.content_type)
    }
}

/// Every download of a large file is answered, and the first piece of work that fails decides
/// how.
pub proof fn law_first_failure_answers_proxy(
    record: FileMetadata,
    force_download: bool,
    service_url: String,
    channel_id: Option<i64>,
    answered: Option<Upstream>,
)
    ensures
        proxy_end(
            ProxyView::ReadConfig { record, force_download },
            seq![
                ProxyEvent::Config { service_url, channel_id },
                ProxyEvent::Answered(answered),
            ],
        ) == (ProxyView::Done {
            reply: proxy_answer(record, force_download, channel_id, answered),
        }),
{
    reveal_with_fuel(proxy_end, 3);
}

/// A file that the bot refuses for its size is answered as the large file service answers for the
/// same record and the same request. Here `reply` is what the download through the service came
/// to.
pub proof fn law_large_file_is_answered_by_the_service(
    unique_id: Seq<char>,
    force_download: bool,
    record: FileMetadata,
    error: String,
    service_url: String,
    channel_id: Option<i64>,
    answered: Option<Upstream>,
    reply: Reply,
)
    requires
        too_large(error@),
        proxy_end(
            ProxyView::ReadConfig { record, force_download },
            seq![
                ProxyEvent::Config { service_url, channel_id },
                ProxyEvent::Answered(answered),
            ],
        ) == (ProxyView::Done { reply: reply@ }),
    ensures
        ({
            let start = DownloadView::Lookup { unique_id, force_download };
            let refused = seq![
                DownloadEvent::Found(Some(record)),
                DownloadEvent::Located(Err(error)),
            ];
            &&& download_end(start, refused) == (DownloadView::HandOver { record, force_download })
            &&& download_end(start, refused.push(DownloadEvent::HandedOver(reply))) == (
            DownloadView::Done {
                reply: proxy_answer(record, force_download, channel_id, answered),
            })
        }),
{
    law_first_failure_answers_proxy(record, force_download, service_url, channel_id, answered);
    reveal_with_fuel(download_end, 4);
    assert(seq![DownloadEvent::Found(Some(record)), DownloadEvent::Located(Err(error))].push(
        DownloadEvent::HandedOver(reply),
    ) =~= seq![
        DownloadEvent::Found(Some(record)),
        DownloadEvent::Located(Err(error)),
        DownloadEvent::HandedOver(reply),
    ]);
}

/// A file is sent with a disposition that follows the request, by whichever way it comes, and a
/// browser is told not to guess its type.
pub proof fn law_file_headers(
    record: FileMetadata,
    force_download: bool,
    content_type: Option<Vec<u8>>,
)
    ensures
        ({
            let disposition = (
                "Content-Disposition"@,
                content_disposition(record.file_name@, force_download),
            );
            let no_guess = ("X-Content-Type-Options"@, "nosniff"@);
            &&& downloaded_file(record, force_download).headers()[1] == disposition
            &&& downloaded_file(record, force_download).headers()[2] == no_guess
            &&& proxied_file(record, force_download, content_type).headers()[1] == disposition
            &&& proxied_file(record, force_download, content_type).headers()[2] == no_guess
        }),
{
}

/// An uploaded file comes back under the name that it was given, as far as that name is fit for a
/// header, and shown it is of the type that goes with that name.
pub proof fn law_upload_comes_back(
    name: Seq<char>,
    job: Job,
    file_id: Seq<char>,
    message_id: i32,
    now: u64,
    record: FileMetadata,
    force_download: bool,
)
    requires
        job.filename == sanitized(name),
        record@ == upload_record(job, file_id, message_id, guessed_mime(job.filename), now),
    ensures
        downloaded_file(record, force_download) == (Answer::File {
            content_type: if force_download {
                octet_stream()
            } else {
                mime_or_bytes(guessed_mime(sanitized(name)))
            },
            disposition: content_disposition(name, force_download),
            source: Source::Downloaded,
        }),
{
    law_sanitizing_is_idempotent(name);
}

/// The record of a file that the message `message_id` of the storage channel carries, in
/// whichever way it was stored.
pub open spec fn stored_in(record: Record, message_id: i32) -> bool {
    ||| exists|job: Job, file_id: Seq<char>, mime_type: Option<Seq<char>>, now: u64|
        record == #[trigger] upload_record(job, file_id, message_id, mime_type, now)
    ||| exists|plan: Plan, file_id: Seq<char>, guess: Option<Seq<char>>, now: u64|
        record == #[trigger] forward_record(plan, file_id, message_id, guess, now)
    ||| exists|file: Fetched, file_id: Seq<char>, mime_type: Option<Seq<char>>, now: u64|
        record == #[trigger] fetch_record(file, file_id, message_id, mime_type, now)
}

/// Every file that was stored can be asked of the large file service, where a storage channel is
/// configured: by the channel and the message that carries the file.
pub proof fn law_stored_file_can_be_handed_over(
    record: FileMetadata,
    message_id: i32,
    force_download: bool,
    service_url: String,
    channel_id: i64,
)
    requires
        stored_in(record@, message_id),
    ensures
        next_proxy(
            ProxyView::ReadConfig { record, force_download },
            ProxyEvent::Config { service_url, channel_id: Some(channel_id) },
        ) == Some(
            ProxyView::Fetch {
                record,
                force_download,
                url: service_path(service_url@, channel_id, message_id),
            },
        ),
{
    assert(record.message_id == record@.message_id);
}

/// An error of the bot that holds "file is too big" anywhere hands the download over, with the same
/// record and the same request, whatever else it says; so does one that holds "Bad Request". Any
/// other error ends the download.
pub proof fn law_refusal_for_size_hands_over(
    record: FileMetadata,
    force_download: bool,
    error: String,
)
    ensures
        ({
            let next = next_download(
                DownloadView::Locate { record, force_download },
                DownloadEvent::Located(Err(error)),
            );
            let e = error@;
            let too_big = exists|i: int, j: int|
                0 <= i <= j <= e.len() && #[trigger] e.subrange(i, j) == "file is too big"@;
            let bad_request = exists|i: int, j: int|
                0 <= i <= j <= e.len() && #[trigger] e.subrange(i, j) == "Bad Request"@;
            &&& too_big ==> next == Some(DownloadView::HandOver { record, force_download })
            &&& bad_request ==> next == Some(DownloadView::HandOver { record, force_download })
            &&& !too_big && !bad_request ==> next == Some(
                DownloadView::Done {
                    reply: Answer::Text {
                        status: 500,
                        body: "Failed to retrieve file from storage"@,
                    },
                },
            )
        }),
{
    law_occurs_somewhere(error@, "file is too big"@);
    law_occurs_somewhere(error@, "Bad Request"@);
}

/// What surrounds the telling words in an error makes no difference.
pub proof fn law_refusal_stands_in_any_company(
    record: FileMetadata,
    force_download: bool,
    before: Seq<char>,
    after: Seq<char>,
    error: String,
)
    requires
        error@ == before + "file is too big"@ + after || error@ == before + "Bad Request"@ + after,
    ensures
        next_download(
            DownloadView::Locate { record, force_download },
            DownloadEvent::Located(Err(error)),
        ) == Some(DownloadView::HandOver { record, force_download }),
{
    law_refusal_for_size_hands_over(record, force_download, error);
    let e = error@;
    let start = before.len() as int;
    if e == before + "file is too big"@ + after {
        assert(e.subrange(start, start + "file is too big"@.len()) =~= "file is too big"@);
    } else {
        assert(e.subrange(start, start + "Bad Request"@.len()) =~= "Bad Request"@);
    }
}

/// A download keeps the record and the request that it began with, up to its answer. A file that
/// is not there is answered with 404, and one that cannot be downloaded with 500.
pub proof fn law_download_keeps_record_and_request(
    unique_id: Seq<char>,
    force_download: bool,
    record: FileMetadata,
    path: String,
    reply: Reply,
)
    ensures
        next_download(
            DownloadView::Lookup { unique_id, force_download },
            DownloadEvent::Found(Some(record)),
        ) == Some(DownloadView::Locate { record, force_download }),
        next_download(
            DownloadView::Lookup { unique_id, force_download },
            DownloadEvent::Found(None),
        ) == Some(
            DownloadView::Done {
                reply: Answer::Html {
                    status: 404,
                    body: "<h1>404 Not Found</h1><p>The requested file does not exist.</p><a href=\"/\">Go back to the homepage</a>"@,
                },
            },
        ),
        next_download(
            DownloadView::Locate { record, force_download },
            DownloadEvent::Located(Ok(path)),
        ) == Some(DownloadView::Fetch { record, force_download, path: path@ }),
        next_download(
            DownloadView::Fetch { record, force_download, path: path@ },
            DownloadEvent::Fetched(false),
        ) == Some(
            DownloadView::Done {
                reply: Answer::Text {
                    status: 500,
                    body: "Failed to download file from storage"@,
                },
            },
        ),
        next_download(
            DownloadView::HandOver { record, force_download },
            DownloadEvent::HandedOver(reply),
        ) == Some(DownloadView::Done { reply: reply@ }),
{
}

/// A file that is saved is sent as plain bytes, and one that is shown is sent as the type that its
/// record says, or as plain bytes where it says none. Either way it goes by its own name.
pub proof fn law_downloaded_file(record: FileMetadata, path: Seq<char>)
    ensures
        next_download(
            DownloadView::Fetch { record, force_download: true, path },
            DownloadEvent::Fetched(true),
        ) == Some(
            DownloadView::Done {
                reply: Answer::File {
                    content_type: "application/octet-stream"@,
                    disposition: "attachment; filename=\""@ + sanitized(record.file_name@)
                        + "\""@,
                    source: Source::Downloaded,
                },
            },
        ),
        next_download(
            DownloadView::Fetch { record, force_download: false, path },
            DownloadEvent::Fetched(true),
        ) == Some(
            DownloadView::Done {
                reply: Answer::File {
                    content_type: match record.mime_type {
                        Some(mime) => mime@,
                        None => "application/octet-stream"@,
                    },
                    disposition: "inline; filename=\""@ + sanitized(record.file_name@) + "\""@,
                    source: Source::Downloaded,
                },
            },
        ),
{
}

/// A download takes a step if and only if the event answers what its state asks for.
pub proof fn law_download_takes_only_answers(state: DownloadView, event: DownloadEvent)
    ensures
        next_download(state, event) is Some <==> {
            ||| state is Lookup && event is Found
            ||| state is Locate && event is Located
            ||| state is Fetch && event is Fetched
            ||| state is HandOver && event is HandedOver
        },
{
}

/// The address of a large file is that of the service without the slashes at its end, and names
/// the channel and the message by numerals that read back as them.
pub proof fn law_service_path_reads_back(
    service: Seq<char>,
    slashes: nat,
    channel_id: i64,
    message_id: i32,
)
    requires
        service.len() == 0 || service.last() != '/',
    ensures
        exists|channel: Seq<char>, message: Seq<char>|
            {
                &&& service_path(service + row('/', slashes), channel_id, message_id)
                    == #[trigger] (service + "/download/"@ + channel + "/"@ + message)
                &&& signed_numeral(channel) && signed_value(channel) == channel_id
                &&& signed_numeral(message) && signed_value(message) == message_id
                &&& !channel.contains('/') && !message.contains('/')
            },
{
    law_trimmed_end(service, '/', slashes);
    lemma_numeral_has_no_slash(channel_id as int);
    lemma_numeral_has_no_slash(message_id as int);
    let channel = signed_decimal(channel_id as int);
    let message = signed_decimal(message_id as int);
    assert(service_path(service + row('/', slashes), channel_id, message_id) == service
        + "/download/"@ + channel + "/"@ + message);
}

proof fn lemma_numeral_has_no_slash(n: int)
    ensures
        signed_numeral(signed_decimal(n)),
        signed_value(signed_decimal(n)) == n,
        !signed_decimal(n).contains('/'),
{
    law_signed_decimal_reads_back(n);
    let s = signed_decimal(n);
    if s.contains('/') {
        let i = choose|i: int| 0 <= i < s.len() && s[i] == '/';
        if s[0] == '-' {
            assert(i > 0);
            assert('0' <= s.drop_first()[i - 1] <= '9');
        } else {
            assert('0' <= s[i] <= '9');
        }
    }
}

proof fn lemma_last_part(a: Seq<char>, x: Seq<char>, b: Seq<char>, y: Seq<char>)
    requires
        a + "/"@ + x == b + "/"@ + y,
        !x.contains('/'),
        !y.contains('/'),
    ensures
        a == b,
        x == y,
{
    reveal_strlit("/");
    let s = a + "/"@ + x;
    let t = b + "/"@ + y;
    assert(s == t);
    assert(s[a.len() as int] == '/' && t[b.len() as int] == '/');
    assert(s.len() == a.len() + 1 + x.len() && t.len() == b.len() + 1 + y.len());
    if a.len() < b.len() {
        let k = b.len() - a.len() - 1;
        assert(0 <= k < x.len());
        assert(s[b.len() as int] == x[k]);
        assert(x.contains('/'));
    } else if b.len() < a.len() {
        let k = a.len() - b.len() - 1;
        assert(0 <= k < y.len());
        assert(t[a.len() as int] == y[k]);
        assert(y.contains('/'));
    }
    assert(a =~= s.take(a.len() as int));
    assert(b =~= t.take(a.len() as int));
    assert(x =~= s.skip(a.len() as int + 1));
    assert(y =~= t.skip(a.len() as int + 1));
}

/// Two files have the same address at a service only if they are the same message of the same
/// channel.
pub proof fn law_service_path_tells_files_apart(
    service_url: Seq<char>,
    channel_id: i64,
    message_id: i32,
    other_channel_id: i64,
    other_message_id: i32,
)
    requires
        service_path(service_url, channel_id, message_id) == service_path(
            service_url,
            other_channel_id,
            other_message_id,
        ),
    ensures
        channel_id == other_channel_id,
        message_id == other_message_id,
{
    lemma_numeral_has_no_slash(channel_id as int);
    lemma_numeral_has_no_slash(message_id as int);
    lemma_numeral_has_no_slash(other_channel_id as int);
    lemma_numeral_has_no_slash(other_message_id as int);
    reveal_strlit("/download/");
    reveal_strlit("/download");
    reveal_strlit("/");
    let base = trimmed_end(service_url, '/');
    let (c, m) = (signed_decimal(channel_id as int), signed_decimal(message_id as int));
    let (d, n) = (signed_decimal(other_channel_id as int), signed_decimal(other_message_id as int));
    lemma_last_part(base + "/download/"@ + c, m, base + "/download/"@ + d, n);
    assert(base + "/download/"@ + c =~= base + "/download"@ + "/"@ + c);
    assert(base + "/download/"@ + d =~= base + "/download"@ + "/"@ + d);
    lemma_last_part(base + "/download"@, c, base + "/download"@, d);
}

/// A large file is asked of the service by its channel and its message; without a channel the
/// service is not configured, and without a message the file cannot be had. The record and the
/// request stay the same.
pub proof fn law_service_is_asked(
    record: FileMetadata,
    force_download: bool,
    service_url: String,
    channel_id: i64,
)
    ensures
        next_proxy(
            ProxyView::ReadConfig { record, force_download },
            ProxyEvent::Config { service_url, channel_id: None },
        ) == Some(
            ProxyView::Done {
                reply: Answer::Text {
                    status: 503,
                    body: "Large file download service not configured"@,
                },
            },
        ),
        record.message_id is None ==> next_proxy(
            ProxyView::ReadConfig { record, force_download },
            ProxyEvent::Config { service_url, channel_id: Some(channel_id) },
        ) == Some(
            ProxyView::Done {
                reply: Answer::Text {
                    status: 404,
                    body: "File cannot be downloaded through the large-file service. Please re-upload it."@,
                },
            },
        ),
        record.message_id matches Some(message_id) ==> next_proxy(
            ProxyView::ReadConfig { record, force_download },
            ProxyEvent::Config { service_url, channel_id: Some(channel_id) },
        ) == Some(
            ProxyView::Fetch {
                record,
                force_download,
                url: service_path(service_url@, channel_id, message_id),
            },
        ),
{
}

/// An answer of the service with a status from 200 to 299 is passed on, under the name that the
/// record keeps; its type is what the service says, letter for letter, and only where the service
/// says none, or none that is text, what the record says. Any other answer is an error, and so is
/// none.
pub proof fn law_service_answer_is_passed_on(
    record: FileMetadata,
    force_download: bool,
    url: Seq<char>,
    upstream: Upstream,
)
    ensures
        next_proxy(
            ProxyView::Fetch { record, force_download, url },
            ProxyEvent::Answered(None),
        ) == Some(
            ProxyView::Done {
                reply: Answer::Text {
                    status: 503,
                    body: "Download service temporarily unavailable"@,
                },
            },
        ),
        upstream.status < 200 || upstream.status > 299 ==> next_proxy(
            ProxyView::Fetch { record, force_download, url },
            ProxyEvent::Answered(Some(upstream)),
        ) == Some(
            ProxyView::Done {
                reply: Answer::Text {
                    status: 502,
                    body: "Failed to retrieve file from download service"@,
                },
            },
        ),
        200 <= upstream.status <= 299 ==> (next_proxy(
            ProxyView::Fetch { record, force_download, url },
            ProxyEvent::Answered(Some(upstream)),
        ) matches Some(
            ProxyView::Done { reply: Answer::File { content_type, disposition, source } },
        ) && {
            let said = upstream.content_type;
            let is_text = said is Some && forall|i: int|
                0 <= i < said->0@.len() ==> (32 <= #[trigger] said->0@[i] <= 126 || said->0@[i]
                    == 9);
            &&& source == Source::Upstream
            &&& disposition == if force_download {
                "attachment; filename=\""@ + sanitized(record.file_name@) + "\""@
            } else {
                "inline; filename=\""@ + sanitized(record.file_name@) + "\""@
            }
            &&& is_text ==> content_type.len() == said->0@.len() && forall|i: int|
                0 <= i < content_type.len() ==> #[trigger] content_type[i] as u32
                    == said->0@[i] as u32
            &&& !is_text ==> content_type == match record.mime_type {
                Some(mime) => mime@,
                None => "application/octet-stream"@,
            }
        }),
{
    if upstream.content_type is Some {
        law_header_text(upstream.content_type->0@);
    }
}

/// The download of a large file takes a step if and only if the event answers what its state asks
/// for.
pub proof fn law_proxy_takes_only_answers(state: ProxyView, event: ProxyEvent)
    ensures
        next_proxy(state, event) is Some <==> {
            ||| state is ReadConfig && event is Config
            ||| state is Fetch && event is Answered
        },
{
}

/// The contents of a state are those of its parts.
pub proof fn law_download_contents(state: Download)
    ensures
        state matches Download::Lookup { unique_id, force_download } ==> state@ == (DownloadView::Lookup {
            unique_id: unique_id@,
            force_download,
        }),
        state matches Download::Locate { record, force_download } ==> state@ == (DownloadView::Locate {
            record,
            force_download,
        }),
        state matches Download::Fetch { record, force_download, path } ==> state@ == (DownloadView::Fetch {
            record,
            force_download,
            path: path@,
        }),
        state matches Download::HandOver { record, force_download } ==> state@ == (DownloadView::HandOver {
            record,
            force_download,
        }),
        state matches Download::Done { reply } ==> state@ == (DownloadView::Done {
            reply: reply@,
        }),
        download_view(Some(state)) == Some(state@),
        download_view(None) is None,
{
}

/// The contents of a state are those of its parts.
pub proof fn law_proxy_contents(state: Proxy)
    ensures
        state matches Proxy::ReadConfig { record, force_download } ==> state@ == (ProxyView::ReadConfig {
            record,
            force_download,
        }),
        state matches Proxy::Fetch { record, force_download, url } ==> state@ == (ProxyView::Fetch {
            record,
            force_download,
            url: url@,
        }),
        state matches Proxy::Done { reply } ==> state@ == (ProxyView::Done {
            reply: reply@,
        }),
        proxy_view(Some(state)) == Some(state@),
        proxy_view(None) is None,
{
}

} // verus!
