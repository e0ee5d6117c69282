//! Notes as the front end sends them: a JSON object with the number fields
//! `id`, `key`, `length`, `offset` and `velocity`.

use crate::model::note::Note;
use std::collections::BTreeMap;
use vstd::prelude::*;
use vstd::string::StringExecFns;

verus! {

/// `serde_json::Error`, why a text was turned down. Nothing is known of what
/// a value holds.
#[verifier::external_type_specification]
#[verifier::external_body]
pub struct ExJsonError(serde_json::Error);

/// One member of a JSON object whose value is a number.
#[derive(Clone, Debug, PartialEq, Eq)]
pub struct NumberField {
    pub name: String,
    pub value: u64,
}

impl View for NumberField {
    type V = (Seq<char>, u64);

    open spec fn view(&self) -> (Seq<char>, u64) {
        (self.name@, self.value)
    }
}

/// A list of fields, each as its view.
pub open spec fn field_views(fields: Seq<NumberField>) -> Seq<(Seq<char>, u64)> {
    Seq::new(fields.len(), |i: int| fields[i]@)
}

/// What `serde_json::from_str` makes of a text when asked for a
/// `BTreeMap<String, u64>`: the members of the map it returns, each as a name
/// and a number, in the order in which the map hands them out; or nothing
/// where it returns an error.
pub uninterp spec fn json_number_fields(text: Seq<char>) -> Option<Seq<(Seq<char>, u64)>>;

/// `serde_json::from_str`, asked for a `BTreeMap<String, u64>`. The members of
/// the map come back as a list, in the order of the map. The contract names
/// the outcome `json_number_fields` of the text and claims nothing else of it.
#[verifier::external_body]
fn parse_number_fields(text: &str) -> (r: Result<Vec<NumberField>, serde_json::Error>)
    ensures
        match r {
            Ok(fields) => json_number_fields(text@) == Some(field_views(fields@)),
            Err(_) => json_number_fields(text@).is_none(),
        },
{
    let parsed: Result<BTreeMap<String, u64>, serde_json::Error> = serde_json::from_str(text);
    parsed.map(|map| map.into_iter().map(|(name, value)| NumberField { name, value }).collect())
}

/// The value of the first field of that name, if there is one.
pub open spec fn field_value(fields: Seq<(Seq<char>, u64)>, name: Seq<char>) -> Option<u64>
    decreases fields.len(),
{
    if fields.len() == 0 {
        None
    } else if fields[0].0 == name {
        Some(fields[0].1)
    } else {
        field_value(fields.subrange(1, fields.len() as int), name)
    }
}

/// The note that a list of fields describes: each of `id`, `key`, `length`,
/// `offset` and `velocity` must be there, and `key` and `velocity` must fit
/// in eight bits. Other fields are passed over.
pub open spec fn note_of_fields(fields: Seq<(Seq<char>, u64)>) -> Option<Note> {
    let id = field_value(fields, "id"@);
    let key = field_value(fields, "key"@);
    let length = field_value(fields, "length"@);
    let offset = field_value(fields, "offset"@);
    let velocity = field_value(fields, "velocity"@);
    if id.is_some() && key.is_some() && length.is_some() && offset.is_some()
        && velocity.is_some() && key.unwrap() <= 255 && velocity.unwrap() <= 255 {
        Some(
            Note {
                id: id.unwrap(),
                key: key.unwrap() as u8,
                length: length.unwrap(),
                offset: offset.unwrap(),
                velocity: velocity.unwrap() as u8,
            },
        )
    } else {
        None
    }
}

/// The note that a JSON text describes, if it describes one.
pub open spec fn note_of_json(text: Seq<char>) -> Option<Note> {
    match json_number_fields(text) {
        Some(fields) => note_of_fields(fields),
        None => None,
    }
}

/// The value of the first field of that name, if there is one.
pub fn find_field(fields: &Vec<NumberField>, name: &str) -> (r: Option<u64>)
    ensures
        r == field_value(field_views(fields@), name@),
{
    let wanted = String::from_str(name);
    let ghost views = field_views(fields@);
    let mut i: usize = 0;
    assert(views.subrange(0, views.len() as int) =~= views);
    while i < fields.len()
        invariant
            i <= fields.len(),
            wanted@ == name@,
            views == field_views(fields@),
            field_value(views, name@) == field_value(
                views.subrange(i as int, views.len() as int),
                name@,
            ),
        decreases fields.len() - i,
    {
        let ghost rest = views.subrange(i as int, views.len() as int);
        assert(rest[0] == fields@[i as int]@);
        assert(rest.subrange(1, rest.len() as int) =~= views.subrange(i + 1, views.len() as int));
        if fields[i].name == wanted {
            return Some(fields[i].value);
        }
        i = i + 1;
    }
    None
}

/// The note that a list of fields describes, if it describes one.
pub fn note_from_fields(fields: &Vec<NumberField>) -> (r: Option<Note>)
    ensures
        r == note_of_fields(field_views(fields@)),
{
    let id = find_field(fields, "id");
    let key = find_field(fields, "key");
    let length = find_field(fields, "length");
    let offset = find_field(fields, "offset");
    let velocity = find_field(fields, "velocity");
    match (id, key, length, offset, velocity) {
        (Some(id), Some(key), Some(length), Some(offset), Some(velocity)) => {
            if key <= 255 && velocity <= 255 {
                Some(Note { id, key: key as u8, length, offset, velocity: velocity as u8 })
            } else {
                None
            }
        },
        _ => None,
    }
}

/// The note that a JSON text describes, if it describes one.
pub fn parse_note(text: &str) -> (r: Option<Note>)
    ensures
        r == note_of_json(text@),
{
    match parse_number_fields(text) {
        Ok(fields) => note_from_fields(&fields),
        Err(_) => None,
    }
}

} // verus!
