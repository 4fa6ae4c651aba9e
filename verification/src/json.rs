//! JSON objects written for request headers and bodies.
use vstd::prelude::*;

use crate::text::chars_list;

verus! {

/// A member value of a JSON object that the library writes.
pub enum JsonField {
    Text(String),
    Flag(bool),
    TextList(Vec<String>),
}

/// What a [`JsonField`] holds.
pub enum JsonFieldView {
    Text(Seq<char>),
    Flag(bool),
    TextList(Seq<Seq<char>>),
}

impl View for JsonField {
    type V = JsonFieldView;

    open spec fn view(&self) -> JsonFieldView {
        match self {
            JsonField::Text(s) => JsonFieldView::Text(s@),
            JsonField::Flag(b) => JsonFieldView::Flag(*b),
            JsonField::TextList(v) => JsonFieldView::TextList(chars_list(v@)),
        }
    }
}

/// The keys and values of a list of object members.
pub open spec fn members_view(members: Seq<(String, JsonField)>) -> Seq<(Seq<char>, JsonFieldView)> {
    members.map_values(|m: (String, JsonField)| (m.0@, m.1@))
}

/// The compact JSON text of an object with the given members, as
/// serde_json writes it.
pub uninterp spec fn json_object_text(members: Seq<(Seq<char>, JsonFieldView)>) -> Seq<char>;

/// Writes a JSON object with serde_json: each member becomes an entry of a
/// `serde_json::Map` (text as a JSON string, a flag as a JSON boolean, a
/// list as an array of strings), and the object is written with
/// `serde_json::Value`'s `Display`, which never fails. The contract claims
/// only that the text depends on the members alone; how serde_json orders
/// and escapes them is left unsaid.
#[verifier::external_body]
pub(crate) fn render_json_object(members: &Vec<(String, JsonField)>) -> (text: String)
    ensures
        text@ == json_object_text(members_view(members@)),
{
    let mut map = serde_json::Map::new();
    for (key, field) in members.iter() {
        let value = match field {
            JsonField::Text(s) => serde_json::Value::from(s.as_str()),
            JsonField::Flag(b) => serde_json::Value::from(*b),
            JsonField::TextList(items) => serde_json::Value::from(items.clone()),
        };
        map.insert(key.clone(), value);
    }
    serde_json::Value::Object(map).to_string()
}

/// One object member: a key and its value.
pub fn member(key: &str, value: JsonField) -> (m: (String, JsonField))
    ensures
        m.0@ == key@,
        m.1 == value,
{
    (String::from_str(key), value)
}

} // verus!
