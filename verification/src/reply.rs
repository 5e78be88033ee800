//! The messages Gather sends, as plain values: optional text content, an
//! optional embed, and whether only the invoking member sees the reply.

use vstd::prelude::*;

verus! {

/// The colour of every Gather embed.
pub const GATHER_COLOR: u32 = 0xA8B31E;

/// One field of an embed.
#[derive(Debug)]
pub struct EmbedField {
    pub name: String,
    pub value: String,
    pub inline: bool,
}

/// An embed: colour, title, description, fields and footer text.
#[derive(Debug)]
pub struct Embed {
    pub color: u32,
    pub title: Option<String>,
    pub description: Option<String>,
    pub fields: Vec<EmbedField>,
    pub footer: Option<String>,
}

/// A message or interaction reply.
#[derive(Debug)]
pub struct Reply {
    pub content: Option<String>,
    pub embed: Option<Embed>,
    pub ephemeral: bool,
}

/// An embed field as plain text.
pub struct FieldView {
    pub name: Seq<char>,
    pub value: Seq<char>,
    pub inline: bool,
}

/// An embed as plain text.
pub struct EmbedView {
    pub color: u32,
    pub title: Option<Seq<char>>,
    pub description: Option<Seq<char>>,
    pub fields: Seq<FieldView>,
    pub footer: Option<Seq<char>>,
}

/// A reply as plain text.
pub struct ReplyView {
    pub content: Option<Seq<char>>,
    pub embed: Option<EmbedView>,
    pub ephemeral: bool,
}

/// Some field is named `name`, and every field of that name carries `value`.
pub open spec fn field_is(fields: Seq<FieldView>, name: Seq<char>, value: Seq<char>) -> bool {
    &&& exists|i: int| 0 <= i < fields.len() && (#[trigger] fields[i]).name == name
    &&& forall|i: int|
        0 <= i < fields.len() && (#[trigger] fields[i]).name == name ==> fields[i].value == value
}

/// The characters of an optional string.
pub open spec fn opt_text(s: Option<String>) -> Option<Seq<char>> {
    match s {
        Some(t) => Some(t@),
        None => None,
    }
}

impl View for EmbedField {
    type V = FieldView;

    open spec fn view(&self) -> FieldView {
        FieldView { name: self.name@, value: self.value@, inline: self.inline }
    }
}

impl View for Embed {
    type V = EmbedView;

    open spec fn view(&self) -> EmbedView {
        EmbedView {
            color: self.color,
            title: opt_text(self.title),
            description: opt_text(self.description),
            fields: self.fields@.map_values(|f: EmbedField| f@),
            footer: opt_text(self.footer),
        }
    }
}

impl View for Reply {
    type V = ReplyView;

    open spec fn view(&self) -> ReplyView {
        ReplyView {
            content: opt_text(self.content),
            embed: match self.embed {
                Some(e) => Some(e@),
                None => None,
            },
            ephemeral: self.ephemeral,
        }
    }
}

/// A reply of text alone, seen only by the member who invoked the command.
pub open spec fn ephemeral_text(text: Seq<char>) -> ReplyView {
    ReplyView { content: Some(text), embed: None, ephemeral: true }
}

/// A reply of `text` that only the invoking member sees.
pub fn ephemeral(text: &str) -> (r: Reply)
    ensures
        r@ == ephemeral_text(text@),
{
    Reply { content: Some(String::from_str(text)), embed: None, ephemeral: true }
}

/// The same, for a text that is already a `String`.
pub fn ephemeral_string(text: String) -> (r: Reply)
    ensures
        r@ == ephemeral_text(text@),
{
    Reply { content: Some(text), embed: None, ephemeral: true }
}

/// An embed field.
pub fn field(name: &str, value: String, inline: bool) -> (f: EmbedField)
    ensures
        f@ == (FieldView { name: name@, value: value@, inline }),
{
    EmbedField { name: String::from_str(name), value, inline }
}

/// The items joined by `sep`, as `[&str]::join` does.
pub open spec fn joined(items: Seq<Seq<char>>, sep: Seq<char>) -> Seq<char>
    decreases items.len(),
{
    if items.len() == 0 {
        Seq::empty()
    } else if items.len() == 1 {
        items[0]
    } else {
        joined(items.drop_last(), sep) + sep + items.last()
    }
}

/// The characters of each string slice.
pub open spec fn strs(v: Seq<&str>) -> Seq<Seq<char>> {
    v.map_values(|s: &str| s@)
}

/// Joins the items with `sep` between consecutive ones.
pub fn join(items: &Vec<&str>, sep: &str) -> (s: String)
    ensures
        s@ == joined(strs(items@), sep@),
{
    let mut s = String::new();
    let n = items.len();
    for i in 0..n
        invariant
            n == items@.len(),
            s@ == joined(strs(items@).take(i as int), sep@),
    {
        assert(strs(items@).take(i + 1).drop_last() =~= strs(items@).take(i as int));
        if i > 0 {
            s.append(sep);
        }
        s.append(items[i]);
        assert(strs(items@).take(i + 1).last() == items@[i as int]@);
        if i == 0 {
            assert(s@ =~= joined(strs(items@).take(1), sep@));
        }
    }
    assert(strs(items@).take(n as int) =~= strs(items@));
    s
}

} // verus!
