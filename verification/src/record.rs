//! What is kept of each stored file.

use vstd::prelude::*;

use crate::text::optional;

verus! {

/// What is kept of a stored file.
#[derive(Debug)]
pub struct FileMetadata {
    /// The identifier in the file's link.
    pub unique_id: String,
    /// The identifier under which Telegram holds the file.
    pub telegram_file_id: String,
    pub file_name: String,
    pub mime_type: Option<String>,
    pub file_size: u32,
    /// Seconds since the Unix epoch.
    pub uploaded_at: u64,
    /// The message in the storage channel that carries the file.
    pub message_id: Option<i32>,
}

/// The contents of a `FileMetadata`.
pub struct Record {
    pub unique_id: Seq<char>,
    pub telegram_file_id: Seq<char>,
    pub file_name: Seq<char>,
    pub mime_type: Option<Seq<char>>,
    pub file_size: u32,
    pub uploaded_at: u64,
    pub message_id: Option<i32>,
}

impl View for FileMetadata {
    type V = Record;

    open spec fn view(&self) -> Record {
        Record {
            unique_id: self.unique_id@,
            telegram_file_id: self.telegram_file_id@,
            file_name: self.file_name@,
            mime_type: optional(self.mime_type),
            file_size: self.file_size,
            uploaded_at: self.uploaded_at,
            message_id: self.message_id,
        }
    }
}

/// The number of bytes of a file as its record keeps it: the low 32 bits.
pub open spec fn kept_size(length: nat) -> u32 {
    (length % 0x1_0000_0000) as u32
}

/// The number of bytes of a file as its record keeps it.
pub fn record_size(length: usize) -> (res: u32)
    ensures
        res == kept_size(length as nat),
        res == length as int % 0x1_0000_0000,
{
    let length: u64 = length as u64;
    (length % 0x1_0000_0000) as u32
}

/// A record keeps the low 32 bits of a length: the exact length wherever it fits.
pub proof fn law_kept_size(length: nat)
    ensures
        kept_size(length) == length % 0x1_0000_0000,
        length <= u32::MAX ==> kept_size(length) == length,
{
}

/// The contents of a record are its fields.
pub proof fn law_record_contents(record: FileMetadata)
    ensures
        record@.unique_id == record.unique_id@,
        record@.telegram_file_id == record.telegram_file_id@,
        record@.file_name == record.file_name@,
        record.mime_type matches Some(mime) ==> record@.mime_type == Some(mime@),
        record.mime_type is None ==> record@.mime_type is None,
        record@.file_size == record.file_size,
        record@.uploaded_at == record.uploaded_at,
        record@.message_id == record.message_id,
{
}

} // verus!
