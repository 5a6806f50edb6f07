//! Rich messages ("embeds") as plain values, for the program to send.
use vstd::prelude::*;

verus! {

/// One titled field of an embed.
pub struct EmbedField {
    pub name: String,
    pub value: String,
    pub inline: bool,
}

/// A rich message: colour as red, green and blue, title, optional
/// description, thumbnail and image URLs, and fields in order.
pub struct Embed {
    pub colour: (u8, u8, u8),
    pub title: String,
    pub description: Option<String>,
    pub thumbnail: Option<String>,
    pub image: Option<String>,
    pub fields: Vec<EmbedField>,
}

/// The text of an optional `String`.
pub open spec fn opt_text(o: Option<String>) -> Option<Seq<char>> {
    match o {
        Some(s) => Some(s@),
        None => None,
    }
}

/// The field has this name and value and is not inline.
pub open spec fn field_is(f: EmbedField, name: Seq<char>, value: Seq<char>) -> bool {
    &&& f.name@ == name
    &&& f.value@ == value
    &&& !f.inline
}

/// A field that is not inline.
pub fn field(name: &str, value: String) -> (f: EmbedField)
    ensures
        field_is(f, name@, value@),
{
    EmbedField { name: String::from_str(name), value, inline: false }
}

} // verus!
