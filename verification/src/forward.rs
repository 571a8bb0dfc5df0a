//! Storing a file that a message carries.

use vstd::prelude::*;

use crate::ident::{nano_id, new_nano_id};
use crate::link::{first_link, link_end, outcome, LinkEvent, LinkView};
use crate::message::{Media, Message, MimeType, PhotoSize};
use crate::mime::{guess_mime, guessed_mime};
use crate::queue::{after_removal, work_on, worker_end, FileQueueItem, WorkerEvent, WorkerView};
use crate::record::{FileMetadata, Record};
use crate::text::{after_last, after_last_of, law_after_last, optional, replace_char};

verus! {

// ---------------------------------------------------------------------------------------------
// States and events
// ---------------------------------------------------------------------------------------------

/// The number of characters in the identifier of a stored file.
pub const UNIQUE_ID_SIZE: usize = 8;

/// How a file is sent.
#[derive(Debug, Clone, Copy, PartialEq, Eq, Structural)]
pub enum SendKind {
    Document,
    Photo,
    Video,
    Animation,
}

/// A file to send to the storage channel, and what its record will say.
#[derive(Debug)]
pub struct ForwardPlan {
    pub kind: SendKind,
    pub channel_id: i64,
    /// The file to send.
    pub file_id: String,
    /// The caption of the message, and the identifier in the link.
    pub unique_id: String,
    pub file_name: Option<String>,
    pub file_size: u32,
    pub mime_type: Option<String>,
}

/// The contents of a `ForwardPlan`.
pub struct Plan {
    pub kind: SendKind,
    pub channel_id: i64,
    pub file_id: Seq<char>,
    pub unique_id: Seq<char>,
    pub file_name: Option<Seq<char>>,
    pub file_size: u32,
    pub mime_type: Option<Seq<char>>,
}

impl View for ForwardPlan {
    type V = Plan;

    open spec fn view(&self) -> Plan {
        Plan {
            kind: self.kind,
            channel_id: self.channel_id,
            file_id: self.file_id@,
            unique_id: self.unique_id@,
            file_name: optional(self.file_name),
            file_size: self.file_size,
            mime_type: optional(self.mime_type),
        }
    }
}

/// The storing of a file. Each state names what is to be done next.
#[derive(Debug)]
pub enum Forward {
    /// Look the storage channel up in the configuration.
    ReadChannel { item: FileQueueItem },
    /// Send the file to the channel.
    Send { item: FileQueueItem, plan: ForwardPlan },
    /// Read the clock.
    Stamp { item: FileQueueItem, plan: ForwardPlan, file_id: String, message_id: i32 },
    /// Save the record of the file.
    Save { item: FileQueueItem, record: FileMetadata },
    /// The file is stored: announce its link.
    Announce { item: FileQueueItem, record: FileMetadata },
    /// The file is stored and its link announced, or why not.
    Done { result: Result<(), String> },
}

/// The contents of a `Forward`.
pub enum ForwardView {
    ReadChannel { item: FileQueueItem },
    Send { item: FileQueueItem, plan: Plan },
    Stamp { item: FileQueueItem, plan: Plan, file_id: Seq<char>, message_id: i32 },
    Save { item: FileQueueItem, record: Record },
    Announce { item: FileQueueItem, record: Record },
    Done { result: Result<(), Seq<char>> },
}

impl View for Forward {
    type V = ForwardView;

    open spec fn view(&self) -> ForwardView {
        match *self {
            Forward::ReadChannel { item } => ForwardView::ReadChannel { item },
            Forward::Send { item, plan } => ForwardView::Send { item, plan: plan@ },
            Forward::Stamp { item, plan, file_id, message_id } => ForwardView::Stamp {
                item,
                plan: plan@,
                file_id: file_id@,
                message_id,
            },
            Forward::Save { item, record } => ForwardView::Save { item, record: record@ },
            Forward::Announce { item, record } => ForwardView::Announce { item, record: record@ },
            Forward::Done { result } => ForwardView::Done { result: outcome(result) },
        }
    }
}

/// What came of the work that a state asks for.
#[derive(Debug)]
pub enum ForwardEvent {
    /// The storage channel, or why there is none.
    Channel(Result<i64, String>),
    /// The message in the channel that carries the file, or why it was not sent.
    Sent(Result<Message, String>),
    /// The time in seconds since the Unix epoch.
    Clock(u64),
    /// The record was saved, or why it was not.
    Saved(Result<(), String>),
    /// The link was announced, or why it was not.
    Announced(Result<(), String>),
}

// ---------------------------------------------------------------------------------------------
// What is sent, and what is kept of it
// ---------------------------------------------------------------------------------------------

/// The text of a MIME type that may be missing.
pub open spec fn mime_text(mime_type: Option<MimeType>) -> Option<Seq<char>> {
    match mime_type {
        Some(mime) => Some(mime.text@),
        None => None,
    }
}

/// The first of two texts that is there.
pub open spec fn either(first: Option<Seq<char>>, second: Option<Seq<char>>) -> Option<Seq<char>> {
    match first {
        Some(text) => Some(text),
        None => second,
    }
}

/// The extension that fits an animation.
pub open spec fn animation_extension(mime_type: Option<MimeType>) -> Seq<char> {
    if mime_type is Some && mime_type->0.essence@ == "image/gif"@ {
        "gif"@
    } else {
        "mp4"@
    }
}

/// What is sent of an item, or why nothing is. The name that the item gives goes before any
/// other; a document has a name of its own, and the other kinds are named after the identifier.
pub open spec fn plan_for(
    item: FileQueueItem,
    channel_id: i64,
    unique_id: Seq<char>,
) -> Result<Plan, Seq<char>> {
    let given = optional(item.file_name);
    match item.message.media {
        Media::Document { file_id, file_size, file_name, mime_type } => Ok(
            Plan {
                kind: SendKind::Document,
                channel_id,
                file_id: file_id@,
                unique_id,
                file_name: either(given, optional(file_name)),
                file_size,
                mime_type: mime_text(mime_type),
            },
        ),
        Media::Photo { sizes } => if sizes@.len() == 0 {
            Err("No photo found"@)
        } else {
            Ok(
                Plan {
                    kind: SendKind::Photo,
                    channel_id,
                    file_id: sizes@.last().file_id@,
                    unique_id,
                    file_name: either(given, Some("photo_"@ + unique_id + ".jpg"@)),
                    file_size: sizes@.last().file_size,
                    mime_type: Some("image/jpeg"@),
                },
            )
        },
        Media::Video { file_id, file_size, mime_type } => Ok(
            Plan {
                kind: SendKind::Video,
                channel_id,
                file_id: file_id@,
                unique_id,
                file_name: either(given, Some("video_"@ + unique_id + ".mp4"@)),
                file_size,
                mime_type: either(mime_text(mime_type), Some("video/mp4"@)),
            },
        ),
        Media::Animation { file_id, file_size, mime_type } => Ok(
            Plan {
                kind: SendKind::Animation,
                channel_id,
                file_id: file_id@,
                unique_id,
                file_name: either(
                    given,
                    Some("animation_"@ + unique_id + "."@ + animation_extension(mime_type)),
                ),
                file_size,
                mime_type: either(mime_text(mime_type), Some("video/mp4"@)),
            },
        ),
        Media::Other => Err("Unsupported file type"@),
    }
}

/// Why a file of this kind was not sent.
pub open spec fn send_error(kind: SendKind, error: Seq<char>) -> Seq<char> {
    match kind {
        SendKind::Document => "Failed to forward document: "@ + error,
        SendKind::Photo => "Failed to forward photo: "@ + error,
        SendKind::Video => "Failed to forward video: "@ + error,
        SendKind::Animation => "Failed to forward animation: "@ + error,
    }
}

/// The identifier of the file that a message in the channel carries, or why there is none.
pub open spec fn stored_id(media: Media) -> Result<Seq<char>, Seq<char>> {
    match media {
        Media::Document { file_id, .. } => Ok(file_id@),
        Media::Photo { sizes } => if sizes@.len() == 0 {
            Err("No photo in forwarded message"@)
        } else {
            Ok(sizes@.last().file_id@)
        },
        Media::Video { file_id, .. } => Ok(file_id@),
        Media::Animation { file_id, .. } => Ok(file_id@),
        Media::Other => Err("Could not get file_id from forwarded message"@),
    }
}

/// The name under which a file is kept: its own, or one after the identifier.
pub open spec fn kept_name(plan: Plan) -> Seq<char> {
    match plan.file_name {
        Some(name) => name,
        None => "file_"@ + plan.unique_id,
    }
}

/// The record of a file that was sent; `guess` is the MIME type that goes with its name.
pub open spec fn forward_record(
    plan: Plan,
    file_id: Seq<char>,
    message_id: i32,
    guess: Option<Seq<char>>,
    now: u64,
) -> Record {
    Record {
        unique_id: plan.unique_id,
        telegram_file_id: file_id,
        file_name: kept_name(plan),
        mime_type: either(plan.mime_type, guess),
        file_size: plan.file_size,
        uploaded_at: now,
        message_id: Some(message_id),
    }
}

/// The item is given up.
pub open spec fn gives_up(error: Seq<char>) -> ForwardView {
    ForwardView::Done { result: Err(error) }
}

/// With this step the identifier of the file is drawn.
pub open spec fn draws_id(state: ForwardView, event: ForwardEvent) -> bool {
    state is ReadChannel && event matches ForwardEvent::Channel(Ok(_))
}

/// The state that follows `state` on `event`, where the event answers what the state asks for.
/// The file is known by `unique_id` where it gets its identifier with this step.
pub open spec fn next_forward(
    state: ForwardView,
    event: ForwardEvent,
    unique_id: Seq<char>,
) -> Option<ForwardView> {
    match (state, event) {
        (ForwardView::ReadChannel { item }, ForwardEvent::Channel(channel)) => Some(
            match channel {
                Ok(channel_id) => match plan_for(item, channel_id, unique_id) {
                    Ok(plan) => ForwardView::Send { item, plan },
                    Err(error) => gives_up(error),
                },
                Err(error) => gives_up("Storage channel not configured: "@ + error@),
            },
        ),
        (ForwardView::Send { item, plan }, ForwardEvent::Sent(sent)) => Some(
            match sent {
                Ok(message) => match stored_id(message.media) {
                    Ok(file_id) => ForwardView::Stamp {
                        item,
                        plan,
                        file_id,
                        message_id: message.id,
                    },
                    Err(error) => gives_up(error),
                },
                Err(error) => gives_up(send_error(plan.kind, error@)),
            },
        ),
        (ForwardView::Stamp { item, plan, file_id, message_id }, ForwardEvent::Clock(now)) => Some(
            ForwardView::Save {
                item,
                record: forward_record(
                    plan,
                    file_id,
                    message_id,
                    guessed_mime(kept_name(plan)),
                    now,
                ),
            },
        ),
        (ForwardView::Save { item, record }, ForwardEvent::Saved(saved)) => Some(
            match saved {
                Ok(_) => ForwardView::Announce { item, record },
                Err(error) => gives_up("Failed to save file metadata: "@ + error@),
            },
        ),
        (ForwardView::Announce { .. }, ForwardEvent::Announced(announced)) => Some(
            ForwardView::Done { result: outcome(announced) },
        ),
        _ => None,
    }
}

/// A state that may be missing.
pub open spec fn forward_view(state: Option<Forward>) -> Option<ForwardView> {
    match state {
        Some(state) => Some(state@),
        None => None,
    }
}

/// A plan, or the text of an error.
pub open spec fn plan_view(plan: Result<ForwardPlan, String>) -> Result<Plan, Seq<char>> {
    match plan {
        Ok(plan) => Ok(plan@),
        Err(error) => Err(error@),
    }
}

/// A text, or the text of an error.
pub open spec fn text_or_error(text: Result<String, String>) -> Result<Seq<char>, Seq<char>> {
    match text {
        Ok(text) => Ok(text@),
        Err(error) => Err(error@),
    }
}

// ---------------------------------------------------------------------------------------------
// Storing a file
// ---------------------------------------------------------------------------------------------

impl Forward {
    /// Takes up an item whose message carries the file.
    pub fn new(item: FileQueueItem) -> (res: Forward)
        ensures
            res@ == (ForwardView::ReadChannel { item }),
    {
        Forward::ReadChannel { item }
    }
}

fn mime_text_of(mime_type: &Option<MimeType>) -> (res: Option<String>)
    ensures
        optional(res) == mime_text(*mime_type),
{
    match mime_type {
        Some(mime) => Some(mime.text.clone()),
        None => None,
    }
}

/// The name that the item gives, or `other`.
fn given_or(given: &Option<String>, other: String) -> (res: Option<String>)
    ensures
        optional(res) == either(optional(*given), Some(other@)),
{
    match given {
        Some(name) => Some(name.clone()),
        None => Some(other),
    }
}

fn mime_or_mp4(mime_type: &Option<MimeType>) -> (res: Option<String>)
    ensures
        optional(res) == either(mime_text(*mime_type), Some("video/mp4"@)),
{
    match mime_type {
        Some(mime) => Some(mime.text.clone()),
        None => Some("video/mp4".to_owned()),
    }
}

fn extension_of_animation(mime_type: &Option<MimeType>) -> (res: &'static str)
    ensures
        res@ == animation_extension(*mime_type),
{
    match mime_type {
        Some(mime) => {
            if mime.essence == "image/gif".to_owned() {
                "gif"
            } else {
                "mp4"
            }
        },
        None => "mp4",
    }
}

/// What is sent of an item under the identifier `unique_id`, or why nothing is.
pub fn plan_forward(item: &FileQueueItem, channel_id: i64, unique_id: String) -> (res: Result<
    ForwardPlan,
    String,
>)
    ensures
        plan_view(res) == plan_for(*item, channel_id, unique_id@),
        item.message.media is Photo && item.message.media->sizes@.len() > 0 ==> ({
            let sizes = item.message.media->sizes@;
            &&& res is Ok
            &&& res->Ok_0.file_id@ == sizes[sizes.len() - 1].file_id@
            &&& res->Ok_0.file_size == sizes[sizes.len() - 1].file_size
        }),
        res is Ok ==> res->Ok_0.channel_id == channel_id && res->Ok_0.unique_id == unique_id,
        res is Ok && item.file_name is Some ==> res->Ok_0.file_name is Some
            && res->Ok_0.file_name->0@ == item.file_name->0@,
{
    match &item.message.media {
        Media::Document { file_id, file_size, file_name, mime_type } => Ok(
            ForwardPlan {
                kind: SendKind::Document,
                channel_id,
                file_id: file_id.clone(),
                unique_id,
                file_name: match &item.file_name {
                    Some(name) => Some(name.clone()),
                    None => file_name.clone(),
                },
                file_size: *file_size,
                mime_type: mime_text_of(mime_type),
            },
        ),
        Media::Photo { sizes } => {
            if sizes.len() == 0 {
                return Err("No photo found".to_owned());
            }
            let largest = &sizes[sizes.len() - 1];
            let name = "photo_".to_owned().concat(unique_id.as_str()).concat(".jpg");
            Ok(
                ForwardPlan {
                    kind: SendKind::Photo,
                    channel_id,
                    file_id: largest.file_id.clone(),
                    unique_id,
                    file_name: given_or(&item.file_name, name),
                    file_size: largest.file_size,
                    mime_type: Some("image/jpeg".to_owned()),
                },
            )
        },
        Media::Video { file_id, file_size, mime_type } => {
            let name = "video_".to_owned().concat(unique_id.as_str()).concat(".mp4");
            Ok(
                ForwardPlan {
                    kind: SendKind::Video,
                    channel_id,
                    file_id: file_id.clone(),
                    unique_id,
                    file_name: given_or(&item.file_name, name),
                    file_size: *file_size,
                    mime_type: mime_or_mp4(mime_type),
                },
            )
        },
        Media::Animation { file_id, file_size, mime_type } => {
            let name = "animation_".to_owned().concat(unique_id.as_str()).concat(".").concat(
                extension_of_animation(mime_type),
            );
            Ok(
                ForwardPlan {
                    kind: SendKind::Animation,
                    channel_id,
                    file_id: file_id.clone(),
                    unique_id,
                    file_name: given_or(&item.file_name, name),
                    file_size: *file_size,
                    mime_type: mime_or_mp4(mime_type),
                },
            )
        },
        Media::Other => Err("Unsupported file type".to_owned()),
    }
}

/// Why a file of this kind was not sent.
fn send_error_of(kind: SendKind, error: &str) -> (res: String)
    ensures
        res@ == send_error(kind, error@),
{
    match kind {
        SendKind::Document => "Failed to forward document: ".to_owned().concat(error),
        SendKind::Photo => "Failed to forward photo: ".to_owned().concat(error),
        SendKind::Video => "Failed to forward video: ".to_owned().concat(error),
        SendKind::Animation => "Failed to forward animation: ".to_owned().concat(error),
    }
}

/// The identifier of the file that a message in the channel carries, or why there is none.
pub fn stored_id_of(media: &Media) -> (res: Result<String, String>)
    ensures
        text_or_error(res) == stored_id(*media),
        media is Photo && media->sizes@.len() > 0 ==> res is Ok && res->Ok_0@
            == media->sizes@[media->sizes@.len() - 1].file_id@,
{
    match media {
        Media::Document { file_id, .. } => Ok(file_id.clone()),
        Media::Photo { sizes } => {
            if sizes.len() == 0 {
                Err("No photo in forwarded message".to_owned())
            } else {
                Ok(sizes[sizes.len() - 1].file_id.clone())
            }
        },
        Media::Video { file_id, .. } => Ok(file_id.clone()),
        Media::Animation { file_id, .. } => Ok(file_id.clone()),
        Media::Other => Err("Could not get file_id from forwarded message".to_owned()),
    }
}

/// The name under which a file is kept.
fn kept_name_of(plan: &ForwardPlan) -> (res: String)
    ensures
        res@ == kept_name(plan@),
{
    match &plan.file_name {
        Some(name) => name.clone(),
        None => "file_".to_owned().concat(plan.unique_id.as_str()),
    }
}

/// The record of a file that was sent; `guess` is the MIME type that goes with its name.
pub fn record_of_forward(
    plan: ForwardPlan,
    file_id: String,
    message_id: i32,
    guess: Option<String>,
    now: u64,
) -> (res: FileMetadata)
    ensures
        res@ == forward_record(plan@, file_id@, message_id, optional(guess), now),
        res.unique_id == plan.unique_id,
        res.telegram_file_id == file_id,
        plan.file_name is Some ==> res.file_name@ == plan.file_name->0@,
        plan.file_name is None ==> res.file_name@ == "file_"@ + plan.unique_id@,
        plan.mime_type is Some ==> res.mime_type == plan.mime_type,
        plan.mime_type is None ==> res.mime_type == guess,
        res.file_size == plan.file_size,
        res.uploaded_at == now,
        res.message_id == Some(message_id),
{
    let file_name = kept_name_of(&plan);
    FileMetadata {
        unique_id: plan.unique_id,
        telegram_file_id: file_id,
        file_name,
        mime_type: match plan.mime_type {
            Some(mime) => Some(mime),
            None => guess,
        },
        file_size: plan.file_size,
        uploaded_at: now,
        message_id: Some(message_id),
    }
}

fn give_up(error: String) -> (res: Option<Forward>)
    ensures
        forward_view(res) == Some(gives_up(error@)),
{
    Some(Forward::Done { result: Err(error) })
}

/// Takes the storing of a file one step on. An event that does not answer what the state asks
/// for leads nowhere.
pub fn forward_file_to_storage_channel(state: Forward, event: ForwardEvent) -> (res: Option<
    Forward,
>)
    ensures
        exists|unique_id: Seq<char>|
            {
                &&& draws_id(state@, event) ==> nano_id(unique_id, UNIQUE_ID_SIZE as nat)
                &&& forward_view(res) == #[trigger] next_forward(state@, event, unique_id)
            },
        state is ReadChannel && event is Channel && event->Channel_0 is Ok && res is Some
            && res->0 is Send ==> nano_id(res->0->Send_plan.unique_id@, 8),
{
    let ghost mut drawn: Seq<char> = Seq::empty();
    let res = match (state, event) {
        (Forward::ReadChannel { item }, ForwardEvent::Channel(channel)) => match channel {
            Ok(channel_id) => {
                let unique_id = new_nano_id(UNIQUE_ID_SIZE);
                proof {
                    drawn = unique_id@;
                }
                match plan_forward(&item, channel_id, unique_id) {
                    Ok(plan) => Some(Forward::Send { item, plan }),
                    Err(error) => give_up(error),
                }
            },
            Err(error) => give_up(
                "Storage channel not configured: ".to_owned().concat(error.as_str()),
            ),
        },
        (Forward::Send { item, plan }, ForwardEvent::Sent(sent)) => match sent {
            Ok(message) => match stored_id_of(&message.media) {
                Ok(file_id) => Some(Forward::Stamp { item, plan, file_id, message_id: message.id }),
                Err(error) => give_up(error),
            },
            Err(error) => give_up(send_error_of(plan.kind, error.as_str())),
        },
        (Forward::Stamp { item, plan, file_id, message_id }, ForwardEvent::Clock(now)) => {
            let guess = guess_mime(kept_name_of(&plan).as_str());
            let record = record_of_forward(plan, file_id, message_id, guess, now);
            Some(Forward::Save { item, record })
        },
        (Forward::Save { item, record }, ForwardEvent::Saved(saved)) => match saved {
            Ok(_) => Some(Forward::Announce { item, record }),
            Err(error) => give_up(
                "Failed to save file metadata: ".to_owned().concat(error.as_str()),
            ),
        },
        (Forward::Announce { .. }, ForwardEvent::Announced(announced)) => Some(
            Forward::Done { result: announced },
        ),
        _ => None,
    };
    assert(forward_view(res) == next_forward(state@, event, drawn));
    res
}

// ---------------------------------------------------------------------------------------------
// Names with an identifier in front
// ---------------------------------------------------------------------------------------------

/// The number of characters in the identifier that goes before a file name.
pub const NAME_ID_SIZE: usize = 5;

/// The name of a file with an identifier in front: the name that the item gives, with `_` for
/// each space, or else the last part of the path.
pub open spec fn prefixed_name(
    id: Seq<char>,
    given: Option<Seq<char>>,
    file_path_or_name: Seq<char>,
) -> Seq<char> {
    id + "_"@ + match given {
        Some(name) => name.map_values(|c: char| if c == ' ' { '_' } else { c }),
        None => after_last(file_path_or_name, '/'),
    }
}

/// The name of a file with the identifier `id` in front.
pub fn final_file_name(id: String, queue_item: &FileQueueItem, file_path_or_name: &str) -> (res:
    String)
    ensures
        res@ == prefixed_name(id@, optional(queue_item.file_name), file_path_or_name@),
{
    let name = match &queue_item.file_name {
        Some(name) => replace_char(name.as_str(), ' ', '_'),
        None => after_last_of(file_path_or_name, '/'),
    };
    id.concat("_").concat(name.as_str())
}

/// The name of a file with an identifier in front that is drawn at random.
pub fn generate_final_file_name(queue_item: &FileQueueItem, file_path_or_name: &str) -> (res:
    String)
    ensures
        exists|id: Seq<char>|
            {
                &&& nano_id(id, NAME_ID_SIZE as nat)
                &&& res@ == #[trigger] prefixed_name(
                    id,
                    optional(queue_item.file_name),
                    file_path_or_name@,
                )
            },
{
    let id = new_nano_id(NAME_ID_SIZE);
    final_file_name(id, queue_item, file_path_or_name)
}

// ---------------------------------------------------------------------------------------------
// Whole files
// ---------------------------------------------------------------------------------------------

/// Where the storing of a file gets to on `events`: to its end, or as far as they lead.
pub open spec fn forward_end(
    state: ForwardView,
    events: Seq<ForwardEvent>,
    unique_id: Seq<char>,
) -> ForwardView
    decreases events.len(),
{
    if events.len() == 0 {
        state
    } else {
        match next_forward(state, events[0], unique_id) {
            Some(next) => forward_end(next, events.drop_first(), unique_id),
            None => state,
        }
    }
}

/// What the storing of a file comes to, before its link is announced: its record, or why it is not
/// stored, which the first piece of work that fails decides.
pub open spec fn forward_outcome(
    item: FileQueueItem,
    channel: Result<i64, String>,
    sent: Result<Message, String>,
    now: u64,
    saved: Result<(), String>,
    unique_id: Seq<char>,
) -> Result<Record, Seq<char>> {
    if channel is Err {
        Err("Storage channel not configured: "@ + channel->Err_0@)
    } else if plan_for(item, channel->Ok_0, unique_id) is Err {
        Err(plan_for(item, channel->Ok_0, unique_id)->Err_0)
    } else {
        let plan = plan_for(item, channel->Ok_0, unique_id)->Ok_0;
        if sent is Err {
            Err(send_error(plan.kind, sent->Err_0@))
        } else if stored_id(sent->Ok_0.media) is Err {
            Err(stored_id(sent->Ok_0.media)->Err_0)
        } else if saved is Err {
            Err("Failed to save file metadata: "@ + saved->Err_0@)
        } else {
            Ok(
                forward_record(
                    plan,
                    stored_id(sent->Ok_0.media)->Ok_0,
                    sent->Ok_0.id,
                    guessed_mime(kept_name(plan)),
                    now,
                ),
            )
        }
    }
}

/// What becomes of an item: it succeeds only once its file is stored and its link announced.
pub open spec fn item_result(
    stored: Result<Record, Seq<char>>,
    announced: Result<(), String>,
) -> Result<(), Seq<char>> {
    match stored {
        Ok(_) => outcome(announced),
        Err(error) => Err(error),
    }
}

/// The events of an item whose message carries the file.
pub open spec fn forward_events(
    channel: Result<i64, String>,
    sent: Result<Message, String>,
    now: u64,
    saved: Result<(), String>,
    announced: Result<(), String>,
) -> Seq<ForwardEvent> {
    seq![
        ForwardEvent::Channel(channel),
        ForwardEvent::Sent(sent),
        ForwardEvent::Clock(now),
        ForwardEvent::Saved(saved),
        ForwardEvent::Announced(announced),
    ]
}

/// An item succeeds or is given up, and the first piece of work that fails decides why. What is
/// announced is the record that was saved, for the item itself.
pub proof fn law_first_failure_ends_forward(
    item: FileQueueItem,
    channel: Result<i64, String>,
    sent: Result<Message, String>,
    now: u64,
    saved: Result<(), String>,
    announced: Result<(), String>,
    unique_id: Seq<char>,
)
    ensures
        ({
            let start = ForwardView::ReadChannel { item };
            let events = forward_events(channel, sent, now, saved, announced);
            let stored = forward_outcome(item, channel, sent, now, saved, unique_id);
            &&& forward_end(start, events, unique_id) == (ForwardView::Done {
                result: item_result(stored, announced),
            })
            &&& stored matches Ok(record) ==> forward_end(start, events.drop_last(), unique_id) == (
            ForwardView::Announce { item, record })
        }),
{
    reveal_with_fuel(forward_end, 6);
    assert(forward_events(channel, sent, now, saved, announced).drop_last() =~= seq![
        ForwardEvent::Channel(channel),
        ForwardEvent::Sent(sent),
        ForwardEvent::Clock(now),
        ForwardEvent::Saved(saved),
    ]);
}

/// What the queue and the worker come to once the work on the front item has ended: the item
/// leaves only if its file was stored and the message with its link was edited. A stored file
/// whose link could not be announced is a failure, and its item stays.
pub open spec fn after_work(
    queue: Seq<FileQueueItem>,
    stored: Result<Record, Seq<char>>,
    edited: bool,
) -> (WorkerView, Seq<FileQueueItem>) {
    match stored {
        Err(error) => (WorkerView::Wait { failure: Some(error) }, queue),
        Ok(_) => if edited {
            (after_removal(queue.drop_first()), queue.drop_first())
        } else {
            (WorkerView::Wait { failure: Some("Failed to edit message"@) }, queue)
        },
    }
}

/// An item whose message carries the file leaves the queue if and only if its file is stored and
/// its link announced. Here `announced` is what the announcement of the stored file came to, and
/// `finished` what the storing came to.
pub proof fn law_forwarded_item_leaves_once_announced(
    queue: Seq<FileQueueItem>,
    channel: Result<i64, String>,
    sent: Result<Message, String>,
    now: u64,
    saved: Result<(), String>,
    file_domain: String,
    full_path: String,
    edited: bool,
    announced: Result<(), String>,
    finished: Result<(), String>,
    unique_id: Seq<char>,
)
    requires
        queue.len() > 0,
        queue[0].url is None,
        queue[0].file_id is Some,
        forward_outcome(queue[0], channel, sent, now, saved, unique_id) matches Ok(record)
            ==> link_end(
            first_link(queue[0], record),
            seq![LinkEvent::Resolved { file_domain, full_path }, LinkEvent::Edited(edited)],
        ) == (LinkView::Done { result: outcome(announced) }),
        forward_end(
            ForwardView::ReadChannel { item: queue[0] },
            forward_events(channel, sent, now, saved, announced),
            unique_id,
        ) == (ForwardView::Done { result: outcome(finished) }),
    ensures
        worker_end(work_on(queue[0]), seq![WorkerEvent::Finished(finished)], queue) == after_work(
            queue,
            forward_outcome(queue[0], channel, sent, now, saved, unique_id),
            edited,
        ),
{
    law_first_failure_ends_forward(queue[0], channel, sent, now, saved, announced, unique_id);
    reveal_with_fuel(link_end, 3);
    reveal_with_fuel(worker_end, 2);
}

/// A stored file is found again by what its record says: the identifier that was drawn for it,
/// the message in the channel that carries it, and the file in that message. A name that the
/// item gives is kept.
pub proof fn law_record_leads_to_file(
    item: FileQueueItem,
    channel: Result<i64, String>,
    sent: Result<Message, String>,
    now: u64,
    saved: Result<(), String>,
    unique_id: Seq<char>,
)
    requires
        forward_outcome(item, channel, sent, now, saved, unique_id) is Ok,
    ensures
        ({
            let record = forward_outcome(item, channel, sent, now, saved, unique_id)->Ok_0;
            &&& record.unique_id == unique_id
            &&& record.message_id == Some(sent->Ok_0.id)
            &&& stored_id(sent->Ok_0.media) == Ok::<Seq<char>, Seq<char>>(record.telegram_file_id)
            &&& item.file_name matches Some(name) ==> record.file_name == name@
        }),
{
}

/// What is sent is the file that the message carries, with its size: the document, the video or the
/// animation itself, and of a photo the last of its sizes, however many there are. It is sent as
/// what it is, to the channel, under the identifier.
pub proof fn law_plan_sends_the_file(item: FileQueueItem, channel_id: i64, unique_id: Seq<char>)
    ensures
        ({
            let planned = plan_for(item, channel_id, unique_id);
            &&& planned matches Ok(plan) ==> plan.channel_id == channel_id && plan.unique_id
                == unique_id
            &&& item.message.media matches Media::Document { file_id, file_size, .. } ==> {
                &&& planned is Ok
                &&& planned->Ok_0.kind == SendKind::Document
                &&& planned->Ok_0.file_id == file_id@
                &&& planned->Ok_0.file_size == file_size
            }
            &&& item.message.media matches Media::Video { file_id, file_size, .. } ==> {
                &&& planned is Ok
                &&& planned->Ok_0.kind == SendKind::Video
                &&& planned->Ok_0.file_id == file_id@
                &&& planned->Ok_0.file_size == file_size
            }
            &&& item.message.media matches Media::Animation { file_id, file_size, .. } ==> {
                &&& planned is Ok
                &&& planned->Ok_0.kind == SendKind::Animation
                &&& planned->Ok_0.file_id == file_id@
                &&& planned->Ok_0.file_size == file_size
            }
            &&& item.message.media matches Media::Photo { sizes } ==> {
                let n = sizes@.len() as int;
                &&& n == 0 ==> planned == Err::<Plan, Seq<char>>("No photo found"@)
                &&& n > 0 ==> {
                    &&& planned is Ok
                    &&& planned->Ok_0.kind == SendKind::Photo
                    &&& planned->Ok_0.file_id == sizes@[n - 1].file_id@
                    &&& planned->Ok_0.file_size == sizes@[n - 1].file_size
                }
            }
            &&& item.message.media is Other ==> planned == Err::<Plan, Seq<char>>(
                "Unsupported file type"@,
            )
        }),
{
}

/// Of a photo whose sizes ascend, as Telegram gives them, the largest is sent.
pub proof fn law_plan_sends_the_largest_photo(
    item: FileQueueItem,
    channel_id: i64,
    unique_id: Seq<char>,
    sizes: Seq<PhotoSize>,
    k: int,
)
    requires
        item.message.media is Photo,
        item.message.media->sizes@ == sizes,
        forall|i: int, j: int|
            0 <= i <= j < sizes.len() ==> (#[trigger] sizes[i]).file_size <= (
            #[trigger] sizes[j]).file_size,
        0 <= k < sizes.len(),
    ensures
        plan_for(item, channel_id, unique_id) matches Ok(plan) && sizes[k].file_size
            <= plan.file_size,
{
    assert(sizes[k].file_size <= sizes[sizes.len() - 1].file_size);
}

/// A name that the item gives is kept, whatever it carries. Otherwise a document keeps its own
/// name, or has none, and a photo, a video or an animation is named after the identifier; an
/// animation is a `gif` if it is an `image/gif`, and an `mp4` if it is anything else.
pub proof fn law_plan_names_the_file(item: FileQueueItem, channel_id: i64, unique_id: Seq<char>)
    requires
        plan_for(item, channel_id, unique_id) is Ok,
    ensures
        ({
            let name = plan_for(item, channel_id, unique_id)->Ok_0.file_name;
            &&& item.file_name matches Some(given) ==> name == Some(given@)
            &&& item.file_name is None ==> {
                &&& item.message.media matches Media::Document { file_name, .. } ==> name
                    == match file_name {
                    Some(own) => Some(own@),
                    None => None,
                }
                &&& item.message.media is Photo ==> name == Some("photo_"@ + unique_id + ".jpg"@)
                &&& item.message.media is Video ==> name == Some("video_"@ + unique_id + ".mp4"@)
                &&& item.message.media matches Media::Animation { mime_type, .. } ==> {
                    let gif = mime_type is Some && mime_type->0.essence@ == "image/gif"@;
                    &&& gif ==> name == Some("animation_"@ + unique_id + "."@ + "gif"@)
                    &&& !gif ==> name == Some("animation_"@ + unique_id + "."@ + "mp4"@)
                }
            }
        }),
{
}

/// A file is of the type that Telegram gives it, with its parameters. Where Telegram gives none, a
/// video or an animation is a `video/mp4`, and a document has none; a photo is always a JPEG.
pub proof fn law_plan_types_the_file(item: FileQueueItem, channel_id: i64, unique_id: Seq<char>)
    requires
        plan_for(item, channel_id, unique_id) is Ok,
    ensures
        ({
            let planned = plan_for(item, channel_id, unique_id)->Ok_0.mime_type;
            &&& item.message.media is Photo ==> planned == Some("image/jpeg"@)
            &&& item.message.media matches Media::Document { mime_type, .. } ==> planned
                == match mime_type {
                Some(mime) => Some(mime.text@),
                None => None,
            }
            &&& item.message.media matches Media::Video { mime_type, .. } ==> planned
                == match mime_type {
                Some(mime) => Some(mime.text@),
                None => Some("video/mp4"@),
            }
            &&& item.message.media matches Media::Animation { mime_type, .. } ==> planned
                == match mime_type {
                Some(mime) => Some(mime.text@),
                None => Some("video/mp4"@),
            }
        }),
{
}

/// The stored file is the one that the message in the channel carries; of a photo, the last of its
/// sizes.
pub proof fn law_stored_file_is_in_the_message(media: Media)
    ensures
        media matches Media::Document { file_id, .. } ==> stored_id(media) == Ok::<
            Seq<char>,
            Seq<char>,
        >(file_id@),
        media matches Media::Video { file_id, .. } ==> stored_id(media) == Ok::<
            Seq<char>,
            Seq<char>,
        >(file_id@),
        media matches Media::Animation { file_id, .. } ==> stored_id(media) == Ok::<
            Seq<char>,
            Seq<char>,
        >(file_id@),
        media matches Media::Photo { sizes } ==> {
            let n = sizes@.len() as int;
            &&& n > 0 ==> stored_id(media) == Ok::<Seq<char>, Seq<char>>(sizes@[n - 1].file_id@)
            &&& n == 0 ==> stored_id(media) == Err::<Seq<char>, Seq<char>>(
                "No photo in forwarded message"@,
            )
        },
        media is Other ==> stored_id(media) == Err::<Seq<char>, Seq<char>>(
            "Could not get file_id from forwarded message"@,
        ),
{
}

/// An item whose file can be sent is sent as planned, and one that cannot is given up for the
/// reason that the plan gives; without a channel nothing is sent.
pub proof fn law_forward_sends_what_is_planned(
    item: FileQueueItem,
    channel_id: i64,
    error: String,
    unique_id: Seq<char>,
)
    ensures
        next_forward(
            ForwardView::ReadChannel { item },
            ForwardEvent::Channel(Ok(channel_id)),
            unique_id,
        ) == Some(
            match plan_for(item, channel_id, unique_id) {
                Ok(plan) => ForwardView::Send { item, plan },
                Err(reason) => ForwardView::Done { result: Err(reason) },
            },
        ),
        next_forward(
            ForwardView::ReadChannel { item },
            ForwardEvent::Channel(Err(error)),
            unique_id,
        ) == Some(
            ForwardView::Done { result: Err("Storage channel not configured: "@ + error@) },
        ),
        draws_id(ForwardView::ReadChannel { item }, ForwardEvent::Channel(Ok(channel_id))),
{
}

/// A message in the channel that carries a file leads to a record of that file and that message,
/// and one that carries none is a failure; so is sending that fails, under the kind of the file.
pub proof fn law_forward_follows_the_message(
    item: FileQueueItem,
    plan: Plan,
    message: Message,
    error: String,
    unique_id: Seq<char>,
)
    ensures
        next_forward(
            ForwardView::Send { item, plan },
            ForwardEvent::Sent(Ok(message)),
            unique_id,
        ) == Some(
            match stored_id(message.media) {
                Ok(file_id) => ForwardView::Stamp { item, plan, file_id, message_id: message.id },
                Err(reason) => ForwardView::Done { result: Err(reason) },
            },
        ),
        next_forward(
            ForwardView::Send { item, plan },
            ForwardEvent::Sent(Err(error)),
            unique_id,
        ) matches Some(ForwardView::Done { result: Err(reason) }) && {
            &&& plan.kind == SendKind::Document ==> reason == "Failed to forward document: "@
                + error@
            &&& plan.kind == SendKind::Photo ==> reason == "Failed to forward photo: "@ + error@
            &&& plan.kind == SendKind::Video ==> reason == "Failed to forward video: "@ + error@
            &&& plan.kind == SendKind::Animation ==> reason == "Failed to forward animation: "@
                + error@
        },
{
}

/// The record says what was planned and where it went. A file without a name is named after its
/// identifier, and one without a type is of the type that goes with its name.
pub proof fn law_record_describes_the_forward(
    item: FileQueueItem,
    plan: Plan,
    file_id: Seq<char>,
    message_id: i32,
    now: u64,
    unique_id: Seq<char>,
)
    ensures
        next_forward(
            ForwardView::Stamp { item, plan, file_id, message_id },
            ForwardEvent::Clock(now),
            unique_id,
        ) matches Some(ForwardView::Save { item: same, record }) && {
            &&& same == item
            &&& record.unique_id == plan.unique_id
            &&& record.telegram_file_id == file_id
            &&& plan.file_name matches Some(name) ==> record.file_name == name
            &&& plan.file_name is None ==> record.file_name == "file_"@ + plan.unique_id
            &&& plan.mime_type matches Some(mime) ==> record.mime_type == Some(mime)
            &&& plan.mime_type is None ==> record.mime_type == guessed_mime(record.file_name)
            &&& record.file_size == plan.file_size
            &&& record.uploaded_at == now
            &&& record.message_id == Some(message_id)
        },
{
}

/// A record that is saved is announced, for the item that it belongs to, and what comes of the
/// announcement is what comes of the item. A record that cannot be saved is a failure.
pub proof fn law_forward_ends_with_the_announcement(
    item: FileQueueItem,
    record: Record,
    error: String,
    unique_id: Seq<char>,
)
    ensures
        next_forward(
            ForwardView::Save { item, record },
            ForwardEvent::Saved(Ok(())),
            unique_id,
        ) == Some(ForwardView::Announce { item, record }),
        next_forward(
            ForwardView::Save { item, record },
            ForwardEvent::Saved(Err(error)),
            unique_id,
        ) == Some(ForwardView::Done { result: Err("Failed to save file metadata: "@ + error@) }),
        next_forward(
            ForwardView::Announce { item, record },
            ForwardEvent::Announced(Ok(())),
            unique_id,
        ) == Some(ForwardView::Done { result: Ok(()) }),
        next_forward(
            ForwardView::Announce { item, record },
            ForwardEvent::Announced(Err(error)),
            unique_id,
        ) == Some(ForwardView::Done { result: Err(error@) }),
{
}

/// The storing of a file takes a step if and only if the event answers what its state asks for, and
/// nothing but its first step depends on the identifier that is drawn.
pub proof fn law_forward_takes_only_answers(
    state: ForwardView,
    event: ForwardEvent,
    unique_id: Seq<char>,
    other: Seq<char>,
)
    ensures
        next_forward(state, event, unique_id) is Some <==> {
            ||| state is ReadChannel && event is Channel
            ||| state is Send && event is Sent
            ||| state is Stamp && event is Clock
            ||| state is Save && event is Saved
            ||| state is Announce && event is Announced
        },
        !(state is ReadChannel) ==> next_forward(state, event, unique_id) == next_forward(
            state,
            event,
            other,
        ),
{
}

/// A name with an identifier in front ends in the name that was given, with `_` at the place of
/// each space and nothing else changed; without one it ends in the last part of the path.
pub proof fn law_prefixed_name(
    id: Seq<char>,
    given: Seq<char>,
    path: Seq<char>,
    folder: Seq<char>,
    file: Seq<char>,
)
    requires
        forall|i: int| 0 <= i < file.len() ==> #[trigger] file[i] != '/',
    ensures
        ({
            let name = prefixed_name(id, Some(given), path);
            let start = id.len() + 1;
            &&& name.len() == start + given.len()
            &&& name.take(start as int) == id.push('_')
            &&& forall|i: int|
                0 <= i < given.len() ==> name[#[trigger] (start + i)] == if given[i] == ' ' {
                    '_'
                } else {
                    given[i]
                }
        }),
        prefixed_name(id, None, folder.push('/') + file) == id.push('_') + file,
        prefixed_name(id, None, file) == id.push('_') + file,
{
    reveal_strlit("_");
    law_after_last(folder, '/', file);
    let name = prefixed_name(id, Some(given), path);
    assert(name.take((id.len() + 1) as int) =~= id.push('_'));
    assert(prefixed_name(id, None, file) =~= id.push('_') + file);
    assert(prefixed_name(id, None, folder.push('/') + file) =~= id.push('_') + file);
}

/// The contents of a plan are its fields.
pub proof fn law_plan_contents(plan: ForwardPlan, error: String)
    ensures
        plan@.kind == plan.kind,
        plan@.channel_id == plan.channel_id,
        plan@.file_id == plan.file_id@,
        plan@.unique_id == plan.unique_id@,
        plan@.file_name == match plan.file_name {
            Some(name) => Some(name@),
            None => None,
        },
        plan@.file_size == plan.file_size,
        plan@.mime_type == match plan.mime_type {
            Some(mime) => Some(mime@),
            None => None,
        },
        plan_view(Ok(plan)) == Ok::<Plan, Seq<char>>(plan@),
        plan_view(Err(error)) == Err::<Plan, Seq<char>>(error@),
        text_or_error(Ok(error)) == Ok::<Seq<char>, Seq<char>>(error@),
        text_or_error(Err(error)) == Err::<Seq<char>, Seq<char>>(error@),
{
}

/// The contents of a state are those of its parts.
pub proof fn law_forward_contents(state: Forward)
    ensures
        state matches Forward::ReadChannel { item } ==> state@ == (ForwardView::ReadChannel {
            item,
        }),
        state matches Forward::Send { item, plan } ==> state@ == (ForwardView::Send {
            item,
            plan: plan@,
        }),
        state matches Forward::Stamp { item, plan, file_id, message_id } ==> state@ == (ForwardView::Stamp {
            item,
            plan: plan@,
            file_id: file_id@,
            message_id,
        }),
        state matches Forward::Save { item, record } ==> state@ == (ForwardView::Save {
            item,
            record: record@,
        }),
        state matches Forward::Announce { item, record } ==> state@ == (ForwardView::Announce {
            item,
            record: record@,
        }),
        state matches Forward::Done { result: Ok(_) } ==> state@ == (ForwardView::Done { result: Ok(()) }),
        state matches Forward::Done { result: Err(error) } ==> state@ == (ForwardView::Done {
            result: Err(error@),
        }),
        forward_view(Some(state)) == Some(state@),
        forward_view(None) is None,
{
}

} // verus!
