//! The content of a Discord embed, as the bot fills it in.

use vstd::prelude::*;

verus! {

/// One field of an embed: a name, a value and whether it sits inline.
pub struct EmbedField {
    pub name: String,
    pub value: String,
    pub inline: bool,
}

/// An embed: a title, an optional description, its fields in order, an
/// optional colour (`0xRRGGBB`) and an optional timestamp (milliseconds since
/// the Unix epoch, UTC).
pub struct Embed {
    pub title: String,
    pub description: Option<String>,
    pub fields: Vec<EmbedField>,
    pub color: Option<u32>,
    pub timestamp: Option<i64>,
}

/// Whether `field` has exactly the given name, value and inline flag.
pub open spec fn field_is(field: EmbedField, name: Seq<char>, value: Seq<char>, inline: bool) -> bool {
    &&& field.name@ == name
    &&& field.value@ == value
    &&& field.inline == inline
}

} // verus!
