//! Telegram messages, as far as the service reads them.

use vstd::prelude::*;

verus! {

/// A MIME type as Telegram gives it.
#[derive(Debug)]
pub struct MimeType {
    /// The whole type, with its parameters.
    pub text: String,
    /// The type without its parameters.
    pub essence: String,
}

/// A photo in one of its sizes.
#[derive(Debug)]
pub struct PhotoSize {
    pub file_id: String,
    pub file_size: u32,
}

/// What a message carries.
#[derive(Debug)]
pub enum Media {
    Document {
        file_id: String,
        file_size: u32,
        file_name: Option<String>,
        mime_type: Option<MimeType>,
    },
    /// A photo in all its sizes, the largest last.
    Photo { sizes: Vec<PhotoSize> },
    Video { file_id: String, file_size: u32, mime_type: Option<MimeType> },
    Animation { file_id: String, file_size: u32, mime_type: Option<MimeType> },
    Other,
}

/// A message in a chat.
#[derive(Debug)]
pub struct Message {
    pub chat_id: i64,
    pub id: i32,
    pub media: Media,
}

} // verus!
