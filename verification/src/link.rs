//! The message that gives a user the link to a stored file.

use vstd::prelude::*;

use crate::queue::FileQueueItem;
use crate::record::{FileMetadata, Record};
use crate::size::{human_size, readable_size};

verus! {

/// The announcement of a link. Each state names what is to be done next.
#[derive(Debug)]
pub enum Link {
    /// Look up the domain of the links, and build the path of this file from its identifier and
    /// its name.
    Resolve { chat_id: i64, message_id: i32, unique_id: String, file_name: String, file_size: u32 },
    /// Write `text`, which is HTML, into the message.
    Edit { chat_id: i64, message_id: i32, text: String },
    /// The link was announced, or why it was not.
    Done { result: Result<(), String> },
}

/// The contents of a `Link`.
pub enum LinkView {
    Resolve {
        chat_id: i64,
        message_id: i32,
        unique_id: Seq<char>,
        file_name: Seq<char>,
        file_size: u32,
    },
    Edit { chat_id: i64, message_id: i32, text: Seq<char> },
    Done { result: Result<(), Seq<char>> },
}

/// Success, or the text of an error.
pub open spec fn outcome(result: Result<(), String>) -> Result<(), Seq<char>> {
    match result {
        Ok(_) => Ok(()),
        Err(error) => Err(error@),
    }
}

impl View for Link {
    type V = LinkView;

    open spec fn view(&self) -> LinkView {
        match *self {
            Link::Resolve { chat_id, message_id, unique_id, file_name, file_size } => {
                LinkView::Resolve {
                    chat_id,
                    message_id,
                    unique_id: unique_id@,
                    file_name: file_name@,
                    file_size,
                }
            },
            Link::Edit { chat_id, message_id, text } => LinkView::Edit {
                chat_id,
                message_id,
                text: text@,
            },
            Link::Done { result } => LinkView::Done { result: outcome(result) },
        }
    }
}

/// What came of the work that a state asks for.
#[derive(Debug)]
pub enum LinkEvent {
    /// The domain of the links and the path of the file.
    Resolved { file_domain: String, full_path: String },
    /// Whether the message was edited.
    Edited(bool),
}

/// The address at which a file is shown.
pub open spec fn view_url(file_domain: Seq<char>, full_path: Seq<char>) -> Seq<char> {
    file_domain + full_path
}

/// The address at which a file is saved; the tab closes once that has begun.
pub open spec fn download_url(file_domain: Seq<char>, full_path: Seq<char>) -> Seq<char> {
    file_domain + full_path + "?dl=1&close=1"@
}

/// The announcement of a link.
pub open spec fn announcement(
    file_name: Seq<char>,
    file_size: u32,
    file_domain: Seq<char>,
    full_path: Seq<char>,
) -> Seq<char> {
    "✅ <b>File uploaded successfully!</b>\n\n📁 <b>File:</b> "@ + file_name + "\n📊 <b>Size:</b> "@
        + readable_size(file_size as nat) + "\n\n👀 <b>View:</b>\n<a href=\""@ + view_url(
        file_domain,
        full_path,
    ) + "\">Open File</a>\n\n⬇️ <b>Download:</b>\n<a href=\""@ + download_url(
        file_domain,
        full_path,
    ) + "\">Download File</a>"@
}

/// The announcement for the item whose file was stored as `record`.
pub open spec fn first_link(item: FileQueueItem, record: Record) -> LinkView {
    LinkView::Resolve {
        chat_id: item.message.chat_id,
        message_id: item.queue_message.id,
        unique_id: record.unique_id,
        file_name: record.file_name,
        file_size: record.file_size,
    }
}

/// The state that follows `state` on `event`, where the event answers what the state asks for.
pub open spec fn next_link(state: LinkView, event: LinkEvent) -> Option<LinkView> {
    match (state, event) {
        (
            LinkView::Resolve { chat_id, message_id, file_name, file_size, .. },
            LinkEvent::Resolved { file_domain, full_path },
        ) => Some(
            LinkView::Edit {
                chat_id,
                message_id,
                text: announcement(file_name, file_size, file_domain@, full_path@),
            },
        ),
        (LinkView::Edit { .. }, LinkEvent::Edited(edited)) => Some(
            LinkView::Done {
                result: if edited {
                    Ok(())
                } else {
                    Err("Failed to edit message"@)
                },
            },
        ),
        _ => None,
    }
}

/// A state that may be missing.
pub open spec fn link_view(state: Option<Link>) -> Option<LinkView> {
    match state {
        Some(state) => Some(state@),
        None => None,
    }
}

impl Link {
    /// The announcement for the item whose file was stored as `record`.
    pub fn new(item: &FileQueueItem, record: &FileMetadata) -> (res: Link)
        ensures
            res@ == first_link(*item, record@),
    {
        let (chat_id, message_id) = item.progress_message();
        Link::Resolve {
            chat_id,
            message_id,
            unique_id: record.unique_id.clone(),
            file_name: record.file_name.clone(),
            file_size: record.file_size,
        }
    }
}

/// The announcement of a link.
pub fn announcement_of(file_name: &str, file_size: u32, file_domain: &str, full_path: &str) -> (res:
    String)
    ensures
        res@ == announcement(file_name@, file_size, file_domain@, full_path@),
{
    let view_url = file_domain.to_owned().concat(full_path);
    let download_url = file_domain.to_owned().concat(full_path).concat("?dl=1&close=1");
    let size = human_size(file_size as u64);
    let mut text = "✅ <b>File uploaded successfully!</b>\n\n📁 <b>File:</b> ".to_owned();
    text.append(file_name);
    text.append("\n📊 <b>Size:</b> ");
    text.append(size.as_str());
    text.append("\n\n👀 <b>View:</b>\n<a href=\"");
    text.append(view_url.as_str());
    text.append("\">Open File</a>\n\n⬇️ <b>Download:</b>\n<a href=\"");
    text.append(download_url.as_str());
    text.append("\">Download File</a>");
    text
}

/// Takes the announcement one step on. An event that does not answer what the state asks for
/// leads nowhere.
pub fn edit_message_with_file_link(state: Link, event: LinkEvent) -> (res: Option<Link>)
    ensures
        link_view(res) == next_link(state@, event),
{
    match (state, event) {
        (
            Link::Resolve { chat_id, message_id, file_name, file_size, .. },
            LinkEvent::Resolved { file_domain, full_path },
        ) => Some(
            Link::Edit {
                chat_id,
                message_id,
                text: announcement_of(
                    file_name.as_str(),
                    file_size,
                    file_domain.as_str(),
                    full_path.as_str(),
                ),
            },
        ),
        (Link::Edit { .. }, LinkEvent::Edited(edited)) => {
            if edited {
                Some(Link::Done { result: Ok(()) })
            } else {
                Some(Link::Done { result: Err("Failed to edit message".to_owned()) })
            }
        },
        _ => None,
    }
}

/// Where an announcement gets to on `events`.
pub open spec fn link_end(state: LinkView, events: Seq<LinkEvent>) -> LinkView
    decreases events.len(),
{
    if events.len() == 0 {
        state
    } else {
        match next_link(state, events[0]) {
            Some(next) => link_end(next, events.drop_first()),
            None => state,
        }
    }
}

/// The announcement shows the name and the size that the record keeps, in the queue message of
/// the chat that asked for the file, and it succeeds if and only if that message is edited.
pub proof fn law_announcement_shows_the_record(
    item: FileQueueItem,
    record: Record,
    file_domain: String,
    full_path: String,
    edited: bool,
)
    ensures
        ({
            let resolved = LinkEvent::Resolved { file_domain, full_path };
            &&& link_end(first_link(item, record), seq![resolved]) == (LinkView::Edit {
                chat_id: item.message.chat_id,
                message_id: item.queue_message.id,
                text: announcement(
                    record.file_name,
                    record.file_size,
                    file_domain@,
                    full_path@,
                ),
            })
            &&& link_end(first_link(item, record), seq![resolved, LinkEvent::Edited(edited)]) == (
            LinkView::Done {
                result: if edited {
                    Ok(())
                } else {
                    Err("Failed to edit message"@)
                },
            })
        }),
{
    reveal_with_fuel(link_end, 3);
}

/// The announcement goes to the queue message of the chat that asked for the file, and is made
/// from the identifier, the name and the size that the record keeps.
pub proof fn law_announcement_begins_with_the_record(item: FileQueueItem, record: Record)
    ensures
        first_link(item, record) == (LinkView::Resolve {
            chat_id: item.message.chat_id,
            message_id: item.queue_message.id,
            unique_id: record.unique_id,
            file_name: record.file_name,
            file_size: record.file_size,
        }),
{
}

/// The announcement shows the name and the size of the file, and links to it twice: to view it, by
/// the domain and the path alone, and to save it, with a query that asks for that and closes the
/// tab. It succeeds if and only if the message is edited.
pub proof fn law_announcement_links_to_the_file(
    chat_id: i64,
    message_id: i32,
    unique_id: Seq<char>,
    file_name: Seq<char>,
    file_size: u32,
    text: Seq<char>,
    file_domain: String,
    full_path: String,
)
    ensures
        next_link(
            LinkView::Resolve { chat_id, message_id, unique_id, file_name, file_size },
            LinkEvent::Resolved { file_domain, full_path },
        ) == Some(
            LinkView::Edit {
                chat_id,
                message_id,
                text: "✅ <b>File uploaded successfully!</b>\n\n📁 <b>File:</b> "@ + file_name
                    + "\n📊 <b>Size:</b> "@ + readable_size(file_size as nat)
                    + "\n\n👀 <b>View:</b>\n<a href=\""@ + (file_domain@ + full_path@)
                    + "\">Open File</a>\n\n⬇️ <b>Download:</b>\n<a href=\""@ + (file_domain@
                    + full_path@ + "?dl=1&close=1"@) + "\">Download File</a>"@,
            },
        ),
        next_link(
            LinkView::Edit { chat_id, message_id, text },
            LinkEvent::Edited(true),
        ) == Some(LinkView::Done { result: Ok(()) }),
        next_link(
            LinkView::Edit { chat_id, message_id, text },
            LinkEvent::Edited(false),
        ) == Some(LinkView::Done { result: Err("Failed to edit message"@) }),
{
}

/// The announcement takes a step if and only if the event answers what its state asks for.
pub proof fn law_link_takes_only_answers(state: LinkView, event: LinkEvent)
    ensures
        next_link(state, event) is Some <==> {
            ||| state is Resolve && event is Resolved
            ||| state is Edit && event is Edited
        },
{
}

/// The contents of a state are those of its parts.
pub proof fn law_link_contents(state: Link)
    ensures
        state matches Link::Resolve { chat_id, message_id, unique_id, file_name, file_size } ==> state@ == (LinkView::Resolve {
            chat_id,
            message_id,
            unique_id: unique_id@,
            file_name: file_name@,
            file_size,
        }),
        state matches Link::Edit { chat_id, message_id, text } ==> state@ == (LinkView::Edit {
            chat_id,
            message_id,
            text: text@,
        }),
        state matches Link::Done { result: Ok(_) } ==> state@ == (LinkView::Done { result: Ok(()) }),
        state matches Link::Done { result: Err(error) } ==> state@ == (LinkView::Done {
            result: Err(error@),
        }),
        link_view(Some(state)) == Some(state@),
        link_view(None) is None,
{
}

} // verus!
