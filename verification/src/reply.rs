//! Answers of the web server.

use vstd::prelude::*;
use vstd::utf8::{char_is_scalar, encode_scalar, encode_utf8};

use crate::names::{law_sanitized_name_is_clean, sanitize_filename, sanitized};
use crate::text::{control, optional};

verus! {

pub const OK: u16 = 200;

pub const BAD_REQUEST: u16 = 400;

pub const NOT_FOUND: u16 = 404;

pub const INTERNAL_SERVER_ERROR: u16 = 500;

pub const BAD_GATEWAY: u16 = 502;

pub const SERVICE_UNAVAILABLE: u16 = 503;

/// A status of the class 2xx.
pub open spec fn success(status: u16) -> bool {
    200 <= status < 300
}

/// Where the bytes of a file come from.
#[derive(Debug, Clone, Copy, PartialEq, Eq, Structural)]
pub enum Source {
    /// The bytes that the bot downloaded.
    Downloaded,
    /// The body of the large file service's answer, passed on as it comes.
    Upstream,
}

/// An answer to a request.
#[derive(Debug)]
pub enum Reply {
    /// A short text without headers.
    Text { status: u16, body: String },
    /// A page.
    Html { status: u16, body: String },
    /// The receipt of an upload, serialised as JSON.
    Receipt,
    /// A file.
    File { content_type: String, disposition: String, source: Source },
}

/// The contents of a `Reply`.
pub enum Answer {
    Text { status: u16, body: Seq<char> },
    Html { status: u16, body: Seq<char> },
    Receipt,
    File { content_type: Seq<char>, disposition: Seq<char>, source: Source },
}

impl View for Reply {
    type V = Answer;

    open spec fn view(&self) -> Answer {
        match *self {
            Reply::Text { status, body } => Answer::Text { status, body: body@ },
            Reply::Html { status, body } => Answer::Html { status, body: body@ },
            Reply::Receipt => Answer::Receipt,
            Reply::File { content_type, disposition, source } => Answer::File {
                content_type: content_type@,
                disposition: disposition@,
                source,
            },
        }
    }
}

impl Answer {
    /// The status code of the answer.
    pub open spec fn status(self) -> u16 {
        match self {
            Answer::Text { status, .. } => status,
            Answer::Html { status, .. } => status,
            Answer::Receipt => OK,
            Answer::File { .. } => OK,
        }
    }

    /// The headers of the answer, by name and value.
    pub open spec fn headers(self) -> Seq<(Seq<char>, Seq<char>)> {
        match self {
            Answer::Text { .. } => Seq::empty(),
            Answer::Html { .. } => seq![("Content-Type"@, "text/html; charset=utf-8"@)],
            Answer::Receipt => seq![
                ("Content-Type"@, "application/json"@),
                ("Cache-Control"@, "no-store"@),
            ],
            Answer::File { content_type, disposition, .. } => seq![
                ("Content-Type"@, content_type),
                ("Content-Disposition"@, disposition),
                ("X-Content-Type-Options"@, "nosniff"@),
            ],
        }
    }
}

/// A list of headers.
pub open spec fn header_list(headers: Seq<(&'static str, String)>) -> Seq<(Seq<char>, Seq<char>)> {
    headers.map_values(|h: (&'static str, String)| (h.0@, h.1@))
}

impl Reply {
    /// The status code of the answer.
    pub fn status(&self) -> (res: u16)
        ensures
            res == self@.status(),
    {
        match self {
            Reply::Text { status, .. } => *status,
            Reply::Html { status, .. } => *status,
            Reply::Receipt => OK,
            Reply::File { .. } => OK,
        }
    }

    /// The headers of the answer, by name and value.
    pub fn headers(&self) -> (res: Vec<(&'static str, String)>)
        ensures
            header_list(res@) == self@.headers(),
            res@.len() == self@.headers().len(),
            forall|i: int|
                0 <= i < res@.len() ==> (#[trigger] res@[i]).0@ == self@.headers()[i].0 && res@[i].1@
                    == self@.headers()[i].1,
    {
        let mut res: Vec<(&'static str, String)> = Vec::new();
        match self {
            Reply::Text { .. } => {},
            Reply::Html { .. } => {
                res.push(("Content-Type", "text/html; charset=utf-8".to_owned()));
            },
            Reply::Receipt => {
                res.push(("Content-Type", "application/json".to_owned()));
                res.push(("Cache-Control", "no-store".to_owned()));
            },
            Reply::File { content_type, disposition, .. } => {
                res.push(("Content-Type", content_type.clone()));
                res.push(("Content-Disposition", disposition.clone()));
                res.push(("X-Content-Type-Options", "nosniff".to_owned()));
            },
        }
        assert(header_list(res@) =~= self@.headers());
        assert forall|i: int| 0 <= i < res@.len() implies (#[trigger] res@[i]).0@
            == self@.headers()[i].0 && res@[i].1@ == self@.headers()[i].1 by {
            assert(header_list(res@)[i] == (res@[i].0@, res@[i].1@));
        }
        res
    }
}

/// A short text as an answer.
pub(crate) fn text_reply(status: u16, body: &str) -> (res: Reply)
    ensures
        res@ == (Answer::Text { status, body: body@ }),
{
    Reply::Text { status, body: body.to_owned() }
}

/// A page as an answer.
pub(crate) fn html_reply(status: u16, body: &str) -> (res: Reply)
    ensures
        res@ == (Answer::Html { status, body: body@ }),
{
    Reply::Html { status, body: body.to_owned() }
}

// ---------------------------------------------------------------------------------------------
// Headers of a file
// ---------------------------------------------------------------------------------------------

/// The header that tells a browser whether to save a file or show it, and under which name.
pub open spec fn content_disposition(file_name: Seq<char>, force_download: bool) -> Seq<char> {
    if force_download {
        "attachment; filename=\""@ + sanitized(file_name) + "\""@
    } else {
        "inline; filename=\""@ + sanitized(file_name) + "\""@
    }
}

/// The header that tells a browser whether to save a file or show it, and under which name.
pub fn content_disposition_of(file_name: &str, force_download: bool) -> (res: String)
    ensures
        res@ == content_disposition(file_name@, force_download),
{
    let safe_name = sanitize_filename(file_name);
    if force_download {
        "attachment; filename=\"".to_owned().concat(safe_name.as_str()).concat("\"")
    } else {
        "inline; filename=\"".to_owned().concat(safe_name.as_str()).concat("\"")
    }
}

/// The type of bytes about which nothing is known.
pub open spec fn octet_stream() -> Seq<char> {
    "application/octet-stream"@
}

/// A MIME type, or that of plain bytes where it is missing.
pub open spec fn mime_or_bytes(mime_type: Option<Seq<char>>) -> Seq<char> {
    match mime_type {
        Some(mime) => mime,
        None => octet_stream(),
    }
}

/// A MIME type, or that of plain bytes where it is missing.
pub fn mime_or_bytes_of(mime_type: Option<String>) -> (res: String)
    ensures
        res@ == mime_or_bytes(optional(mime_type)),
{
    match mime_type {
        Some(mime) => mime,
        None => "application/octet-stream".to_owned(),
    }
}

/// The name in the header ends where it should: between the two quotes there is no quote and no
/// backslash.
pub proof fn law_disposition_quotes_the_name(file_name: Seq<char>, force_download: bool)
    ensures
        ({
            let header = content_disposition(file_name, force_download);
            let start = header.len() - 1 - sanitized(file_name).len();
            &&& 0 < start < header.len() - 1
            &&& header[start - 1] == '"'
            &&& header.last() == '"'
            &&& header.subrange(start, header.len() - 1) == sanitized(file_name)
            &&& forall|i: int|
                start <= i < header.len() - 1 ==> #[trigger] header[i] != '"' && header[i] != '\\'
        }),
{
    law_sanitized_name_is_clean(file_name);
    reveal_strlit("attachment; filename=\"");
    reveal_strlit("inline; filename=\"");
    reveal_strlit("\"");
    let header = content_disposition(file_name, force_download);
    let start = header.len() - 1 - sanitized(file_name).len();
    assert(header.subrange(start, header.len() - 1) =~= sanitized(file_name));
    assert forall|i: int| start <= i < header.len() - 1 implies #[trigger] header[i] != '"'
        && header[i] != '\\' by {
        assert(header[i] == sanitized(file_name)[i - start]);
    }
}

/// A byte that may stand in the value of a header.
pub open spec fn header_byte(b: u8) -> bool {
    32 <= b && b != 127 || b == 9
}

/// A text that may be the value of a header.
pub open spec fn header_value(text: Seq<char>) -> bool {
    forall|i: int| 0 <= i < encode_utf8(text).len() ==> header_byte(#[trigger] encode_utf8(text)[i])
}

proof fn lemma_header_value(text: Seq<char>)
    requires
        forall|i: int| 0 <= i < text.len() ==> !control(#[trigger] text[i]),
    ensures
        header_value(text),
    decreases text.len(),
{
    if text.len() > 0 {
        let rest = text.drop_first();
        assert forall|i: int| 0 <= i < rest.len() implies !control(#[trigger] rest[i]) by {
            assert(rest[i] == text[i + 1]);
        }
        lemma_header_value(rest);
        let first = encode_scalar(text[0] as u32);
        assert(!control(text[0]));
        lemma_char_bytes(text[0]);
        assert(encode_utf8(text) == first + encode_utf8(rest));
        assert forall|i: int| 0 <= i < encode_utf8(text).len() implies header_byte(
            #[trigger] encode_utf8(text)[i],
        ) by {
            if i < first.len() {
                assert(encode_utf8(text)[i] == first[i]);
            } else {
                assert(encode_utf8(text)[i] == encode_utf8(rest)[i - first.len()]);
            }
        }
    }
}

proof fn lemma_char_bytes(c: char)
    requires
        !control(c),
    ensures
        forall|i: int|
            0 <= i < encode_scalar(c as u32).len() ==> header_byte(
                #[trigger] encode_scalar(c as u32)[i],
            ),
{
    let v = c as u32;
    char_is_scalar(c);
    assert(v <= 0x7f ==> (v & 0x7f) as u8 == v) by (bit_vector);
    assert(0xc0u8 | ((v >> 6) & 0x1f) as u8 >= 0x80) by (bit_vector);
    assert(0xe0u8 | ((v >> 12) & 0x0f) as u8 >= 0x80) by (bit_vector);
    assert(0xf0u8 | ((v >> 18) & 0x7) as u8 >= 0x80) by (bit_vector);
    assert(0x80u8 | (v & 0x3f) as u8 >= 0x80) by (bit_vector);
    assert(0x80u8 | ((v >> 6) & 0x3f) as u8 >= 0x80) by (bit_vector);
    assert(0x80u8 | ((v >> 12) & 0x3f) as u8 >= 0x80) by (bit_vector);
}

/// Whatever a file is called, its disposition can be sent as a header.
pub proof fn law_disposition_is_a_header_value(file_name: Seq<char>, force_download: bool)
    ensures
        header_value(content_disposition(file_name, force_download)),
{
    law_sanitized_name_is_clean(file_name);
    reveal_strlit("attachment; filename=\"");
    reveal_strlit("inline; filename=\"");
    reveal_strlit("\"");
    let header = content_disposition(file_name, force_download);
    let name = sanitized(file_name);
    let start = header.len() - 1 - name.len();
    assert forall|i: int| 0 <= i < header.len() implies !control(#[trigger] header[i]) by {
        if start <= i < header.len() - 1 {
            assert(header[i] == name[i - start]);
        }
    }
    lemma_header_value(header);
}

/// The disposition is an attachment where the file is to be saved and inline where it is to be
/// shown, and names the file in quotes.
pub proof fn law_disposition_follows_the_request(file_name: Seq<char>, force_download: bool)
    ensures
        force_download ==> content_disposition(file_name, force_download)
            == "attachment; filename=\""@ + sanitized(file_name) + "\""@,
        !force_download ==> content_disposition(file_name, force_download)
            == "inline; filename=\""@ + sanitized(file_name) + "\""@,
{
}

/// A known type is kept as it is; an unknown one is that of plain bytes.
pub proof fn law_missing_type_is_plain_bytes(mime: Seq<char>)
    ensures
        mime_or_bytes(Some(mime)) == mime,
        mime_or_bytes(None) == "application/octet-stream"@,
        octet_stream() == "application/octet-stream"@,
{
}

/// The head of each answer: texts and pages have the status they were made with, and all else is
/// 200; a text has no headers, a page is HTML, a receipt is JSON that is not to be kept, and a file
/// has its own type and disposition and is not to be guessed at.
pub proof fn law_answer_heads(
    status: u16,
    body: Seq<char>,
    content_type: Seq<char>,
    disposition: Seq<char>,
    source: Source,
)
    ensures
        (Answer::Text { status, body }).status() == status,
        (Answer::Html { status, body }).status() == status,
        Answer::Receipt.status() == 200,
        (Answer::File { content_type, disposition, source }).status() == 200,
        (Answer::Text { status, body }).headers().len() == 0,
        (Answer::Html { status, body }).headers() == seq![
            ("Content-Type"@, "text/html; charset=utf-8"@),
        ],
        Answer::Receipt.headers() == seq![
            ("Content-Type"@, "application/json"@),
            ("Cache-Control"@, "no-store"@),
        ],
        (Answer::File { content_type, disposition, source }).headers() == seq![
            ("Content-Type"@, content_type),
            ("Content-Disposition"@, disposition),
            ("X-Content-Type-Options"@, "nosniff"@),
        ],
{
}

/// The contents of a reply are its fields.
pub proof fn law_reply_contents(reply: Reply)
    ensures
        reply matches Reply::Text { status, body } ==> reply@ == (Answer::Text {
            status,
            body: body@,
        }),
        reply matches Reply::Html { status, body } ==> reply@ == (Answer::Html {
            status,
            body: body@,
        }),
        reply is Receipt ==> reply@ is Receipt,
        reply matches Reply::File { content_type, disposition, source } ==> reply@
            == (Answer::File {
            content_type: content_type@,
            disposition: disposition@,
            source,
        }),
{
}

} // verus!
