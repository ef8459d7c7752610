//! Case identifiers: the 16 bytes of a BSON UUID.

use vstd::prelude::*;

use crate::text::uuid_text;

verus! {

/// The bytes of the UUID that bson's `Uuid::parse_str` reads from `text`,
/// or `None` where it refuses the text.
pub uninterp spec fn parsed_uuid(text: Seq<char>) -> Option<Seq<u8>>;

/// A fresh random case id, from bson's `Uuid::new` (the uuid crate's
/// `Uuid::new_v4`, drawn from the operating system's random source). Of its
/// bytes only the marks of a version 4, RFC 4122 UUID are stated: the high
/// nibble of byte 6 is 4 and the two high bits of byte 8 are `10`.
#[verifier::external_body]
pub fn new_case_id() -> (id: [u8; 16])
    ensures
        id@[6] / 16 == 4,
        id@[8] / 64 == 2,
{
    bson::Uuid::new().bytes()
}

/// Reads a case id written as text, through bson's `Uuid::parse_str` (which
/// hands the text to the uuid crate's `Uuid::parse_str`). What it reads is
/// named; of it the contract states one fact that the uuid crate documents:
/// the hyphenated lowercase form that `Display` writes is read back as the
/// same 16 bytes.
#[verifier::external_body]
pub fn parse_case_id(text: &str) -> (r: Option<[u8; 16]>)
    ensures
        match r {
            Some(id) => parsed_uuid(text@) == Some(id@),
            None => parsed_uuid(text@) is None,
        },
        forall|b: Seq<u8>|
            b.len() == 16 && #[trigger] uuid_text(b) == text@ ==> (r is Some && r.unwrap()@ == b),
{
    match bson::Uuid::parse_str(text) {
        Ok(id) => Some(id.bytes()),
        Err(_) => None,
    }
}

} // verus!
