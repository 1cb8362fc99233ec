//! JSON documents as trees of plain values.
//!
//! Requests are built as such trees and responses are read from them, so the
//! shape of every message this crate exchanges is stated over one model.

use vstd::prelude::*;
use vstd::string::*;

verus! {

/// A JSON value. A number keeps the text it was written with.
#[derive(Debug, PartialEq, Eq)]
pub enum JsonValue {
    Null,
    Bool(bool),
    Number(String),
    Text(String),
    Array(Vec<JsonValue>),
    Object(Vec<JsonMember>),
}

/// One `name: value` entry of a JSON object.
#[derive(Debug, PartialEq, Eq)]
pub struct JsonMember {
    pub name: String,
    pub value: JsonValue,
}

/// The mathematical content of a [`JsonValue`].
pub enum JsonModel {
    Null,
    Bool(bool),
    Number(Seq<char>),
    Text(Seq<char>),
    Array(Seq<JsonModel>),
    Object(Seq<(Seq<char>, JsonModel)>),
}

/// The value of the first entry called `name`.
pub open spec fn first_named(members: Seq<(Seq<char>, JsonModel)>, name: Seq<char>) -> Option<
    JsonModel,
>
    decreases members.len(),
{
    if members.len() == 0 {
        None
    } else if members[0].0 == name {
        Some(members[0].1)
    } else {
        first_named(members.drop_first(), name)
    }
}

impl JsonModel {
    /// The member `name` of an object; `None` for anything but an object
    /// that has such a member.
    pub open spec fn member(self, name: Seq<char>) -> Option<JsonModel> {
        match self {
            JsonModel::Object(members) => first_named(members, name),
            _ => None,
        }
    }

    /// The element at `index` of an array; `None` for anything but an array
    /// that is long enough.
    pub open spec fn element(self, index: int) -> Option<JsonModel> {
        match self {
            JsonModel::Array(items) => if 0 <= index < items.len() {
                Some(items[index])
            } else {
                None
            },
            _ => None,
        }
    }

    /// The characters of a string value.
    pub open spec fn text(self) -> Option<Seq<char>> {
        match self {
            JsonModel::Text(t) => Some(t),
            _ => None,
        }
    }

    /// The truth value of a boolean.
    pub open spec fn boolean(self) -> Option<bool> {
        match self {
            JsonModel::Bool(b) => Some(b),
            _ => None,
        }
    }

    /// The elements of an array.
    pub open spec fn elements(self) -> Option<Seq<JsonModel>> {
        match self {
            JsonModel::Array(items) => Some(items),
            _ => None,
        }
    }
}

/// The content of `value`, with every string and array taken by its view.
pub open spec fn json_model(value: JsonValue) -> JsonModel
    decreases value,
{
    match value {
        JsonValue::Null => JsonModel::Null,
        JsonValue::Bool(b) => JsonModel::Bool(b),
        JsonValue::Number(n) => JsonModel::Number(n@),
        JsonValue::Text(t) => JsonModel::Text(t@),
        JsonValue::Array(items) => JsonModel::Array(
            Seq::new(
                items.len() as nat,
                |i: int|
                    if 0 <= i < items.len() {
                        json_model(items[i])
                    } else {
                        JsonModel::Null
                    },
            ),
        ),
        JsonValue::Object(members) => JsonModel::Object(
            Seq::new(
                members.len() as nat,
                |i: int|
                    if 0 <= i < members.len() {
                        (members[i].name@, json_model(members[i].value))
                    } else {
                        (Seq::empty(), JsonModel::Null)
                    },
            ),
        ),
    }
}

impl View for JsonValue {
    type V = JsonModel;

    open spec fn view(&self) -> JsonModel {
        json_model(*self)
    }
}

impl View for JsonMember {
    type V = (Seq<char>, JsonModel);

    open spec fn view(&self) -> (Seq<char>, JsonModel) {
        (self.name@, self.value@)
    }
}

impl JsonValue {
    /// A string value holding the characters of `text`.
    pub fn text(text: &str) -> (v: JsonValue)
        ensures
            v@ == JsonModel::Text(text@),
    {
        JsonValue::Text(text.to_owned())
    }

    /// An object with the single member `name: value`.
    pub fn object_of(name: &str, value: JsonValue) -> (v: JsonValue)
        ensures
            v@ == JsonModel::Object(seq![(name@, value@)]),
    {
        let mut members: Vec<JsonMember> = Vec::new();
        members.push(JsonMember { name: name.to_owned(), value });
        let v = JsonValue::Object(members);
        assert(v@->Object_0 =~= seq![(name@, value@)]);
        v
    }

    /// An array with the single element `value`.
    pub fn array_of(value: JsonValue) -> (v: JsonValue)
        ensures
            v@ == JsonModel::Array(seq![value@]),
    {
        let mut items: Vec<JsonValue> = Vec::new();
        items.push(value);
        let v = JsonValue::Array(items);
        assert(v@->Array_0 =~= seq![value@]);
        v
    }

    /// Looks a member up by name. Of several members with one name the first
    /// is found.
    pub fn get(&self, name: &str) -> (r: Option<&JsonValue>)
        ensures
            match r {
                Some(v) => self@.member(name@) == Some(v@),
                None => self@.member(name@) is None,
            },
    {
        match self {
            JsonValue::Object(members) => {
                let wanted = name.to_owned();
                let ghost model = self@->Object_0;
                assert(model.skip(0) =~= model);
                let mut i: usize = 0;
                while i < members.len()
                    invariant
                        i <= members.len(),
                        wanted@ == name@,
                        self@ == JsonModel::Object(model),
                        model.len() == members.len(),
                        forall|j: int|
                            0 <= j < members.len() ==> #[trigger] model[j] == (
                                members[j].name@,
                                members[j].value@,
                            ),
                        first_named(model, name@) == first_named(model.skip(i as int), name@),
                    decreases members.len() - i,
                {
                    assert(model.skip(i as int).drop_first() =~= model.skip(i + 1));
                    if members[i].name == wanted {
                        return Some(&members[i].value);
                    }
                    i = i + 1;
                }
                None
            },
            _ => None,
        }
    }

    /// The element at `index`, if this is an array that has one.
    pub fn at(&self, index: usize) -> (r: Option<&JsonValue>)
        ensures
            match r {
                Some(v) => self@.element(index as int) == Some(v@),
                None => self@.element(index as int) is None,
            },
    {
        match self {
            JsonValue::Array(items) => {
                if index < items.len() {
                    Some(&items[index])
                } else {
                    None
                }
            },
            _ => None,
        }
    }

    /// The characters of a string value; `None` for any other value.
    pub fn as_text(&self) -> (r: Option<&String>)
        ensures
            match r {
                Some(t) => self@.text() == Some(t@),
                None => self@.text() is None,
            },
    {
        match self {
            JsonValue::Text(t) => Some(t),
            _ => None,
        }
    }

    /// The truth value of a boolean; `None` for any other value.
    pub fn as_bool(&self) -> (r: Option<bool>)
        ensures
            r == self@.boolean(),
    {
        match self {
            JsonValue::Bool(b) => Some(*b),
            _ => None,
        }
    }

    /// The elements of an array; `None` for any other value.
    pub fn as_array(&self) -> (r: Option<&Vec<JsonValue>>)
        ensures
            match r {
                Some(items) => match self@.elements() {
                    Some(models) => models.len() == items.len() && forall|i: int|
                        0 <= i < items.len() ==> #[trigger] models[i] == items[i]@,
                    None => false,
                },
                None => self@.elements() is None,
            },
    {
        match self {
            JsonValue::Array(items) => Some(items),
            _ => None,
        }
    }
}

} // verus!
