//! Identifiers drawn at random.

use vstd::prelude::*;

verus! {

/// A character that stands in a URL as itself.
pub open spec fn url_safe(c: char) -> bool {
    c == '_' || c == '-' || '0' <= c <= '9' || 'a' <= c <= 'z' || 'A' <= c <= 'Z'
}

/// An identifier of `size` URL safe characters.
pub open spec fn nano_id(id: Seq<char>, size: nat) -> bool {
    &&& id.len() == size
    &&& forall|i: int| 0 <= i < size ==> url_safe(#[trigger] id[i])
}

/// A hexadecimal digit in lower case.
pub open spec fn lower_hex(c: char) -> bool {
    '0' <= c <= '9' || 'a' <= c <= 'f'
}

/// A random (version 4) UUID in its hyphenated form.
pub open spec fn uuid_v4(id: Seq<char>) -> bool {
    &&& id.len() == 36
    &&& forall|i: int|
        0 <= i < 36 ==> if i == 8 || i == 13 || i == 18 || i == 23 {
            #[trigger] id[i] == '-'
        } else {
            lower_hex(id[i])
        }
    &&& id[14] == '4'
    &&& (id[19] == '8' || id[19] == '9' || id[19] == 'a' || id[19] == 'b')
}

/// `nanoid::format`, with the generator and the alphabet that the macro `nanoid!` hands it, draws
/// an identifier of `size` characters of `nanoid::alphabet::SAFE`. For a size of 0 it never
/// returns.
#[verifier::external_body]
pub(crate) fn new_nano_id(size: usize) -> (id: String)
    requires
        0 < size <= 64,
    ensures
        nano_id(id@, size as nat),
{
    nanoid::format(nanoid::rngs::default, &nanoid::alphabet::SAFE, size)
}

/// `uuid::Uuid::new_v4` draws a UUID of version 4, which its `Display` writes in lower case with
/// hyphens.
#[verifier::external_body]
pub(crate) fn new_uuid() -> (id: String)
    ensures
        uuid_v4(id@),
{
    uuid::Uuid::new_v4().to_string()
}

/// Each identifier that is drawn consists of characters that stand in a URL as themselves.
pub proof fn law_identifiers_are_url_safe(id: Seq<char>, size: nat)
    requires
        nano_id(id, size) || uuid_v4(id),
    ensures
        forall|i: int| 0 <= i < id.len() ==> url_safe(#[trigger] id[i]),
{
}

} // verus!
