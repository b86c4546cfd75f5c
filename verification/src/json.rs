//! The JSON documents that announce devices and entities to Home Assistant.
//!
//! An object is kept as the list of its writes: a later write of a key replaces
//! an earlier one, as in a JSON object that is built by successive inserts.

use vstd::prelude::*;

verus! {

/// A value of a discovery document.
#[derive(Debug, Clone, PartialEq)]
pub enum JsonField {
    Null,
    Str(String),
    Int(u64),
    /// A list of availability topics, written as `[{"topic": ..}, ..]`.
    TopicList(Vec<String>),
}

/// The mathematical value of a discovery field.
pub enum FieldView {
    Null,
    Str(Seq<char>),
    Int(nat),
    TopicList(Seq<Seq<char>>),
}

/// The value a field stands for.
pub open spec fn field_view(f: JsonField) -> FieldView {
    match f {
        JsonField::Null => FieldView::Null,
        JsonField::Str(s) => FieldView::Str(s@),
        JsonField::Int(n) => FieldView::Int(n as nat),
        JsonField::TopicList(v) => FieldView::TopicList(v@.map_values(|t: String| t@)),
    }
}

/// The object that a list of writes leaves: each write sets its key.
pub open spec fn writes_map(s: Seq<(String, JsonField)>) -> Map<Seq<char>, FieldView>
    decreases s.len(),
{
    if s.len() == 0 {
        Map::empty()
    } else {
        writes_map(s.drop_last()).insert(s.last().0@, field_view(s.last().1))
    }
}

/// A JSON object of discovery fields.
#[derive(Debug, Clone, PartialEq)]
pub struct JsonObject {
    pub entries: Vec<(String, JsonField)>,
}

impl JsonObject {
    /// The object as a map from keys to values.
    pub open spec fn view(&self) -> Map<Seq<char>, FieldView> {
        writes_map(self.entries@)
    }

    /// An empty object.
    pub fn new() -> (r: JsonObject)
        ensures
            r.view() == Map::<Seq<char>, FieldView>::empty(),
    {
        JsonObject { entries: Vec::new() }
    }

    /// Sets `key` to `value`, replacing an earlier value of `key`.
    pub fn insert(&mut self, key: String, value: JsonField)
        ensures
            final(self).view() == old(self).view().insert(key@, field_view(value)),
            final(self).entries@ == old(self).entries@.push((key, value)),
    {
        let ghost old_entries = self.entries@;
        self.entries.push((key, value));
        proof {
            assert(self.entries@.drop_last() =~= old_entries);
        }
    }

    /// Sets every key of `other`, as it is there.
    pub fn extend(&mut self, other: JsonObject)
        ensures
            final(self).entries@ == old(self).entries@ + other.entries@,
            final(self).view() == writes_map(old(self).entries@ + other.entries@),
    {
        let ghost start = self.entries@;
        let mut other = other;
        let ghost rest = other.entries@;
        self.entries.append(&mut other.entries);
        proof {
            assert(self.entries@ =~= start + rest);
        }
    }
}

/// The text of an optional value: its text, or null.
pub open spec fn opt_field_view(o: Option<String>) -> FieldView {
    match o {
        Some(s) => FieldView::Str(s@),
        None => FieldView::Null,
    }
}

/// A field that holds an optional text: the text, or null.
pub fn opt_field(o: &Option<String>) -> (r: JsonField)
    ensures
        field_view(r) == opt_field_view(*o),
{
    match o {
        Some(s) => JsonField::Str(s.clone()),
        None => JsonField::Null,
    }
}

/// A field that holds a text.
pub fn str_field(s: &str) -> (r: JsonField)
    ensures
        field_view(r) == FieldView::Str(s@),
{
    JsonField::Str(s.to_owned())
}

} // verus!
