//! How records travel: the two traits that tie a type to its JSON form, and
//! readers for the members of an object.
//!
//! Every reader answers `None` where the member does not have the form asked
//! for. A reader of an optional member answers `Some(None)` where the member
//! is missing or `null`.

use crate::json::{Json, JsonNumber, JsonValue, NumberValue};
use crate::text::{parse_unsigned, unsigned_of_decimal};
use vstd::prelude::*;

verus! {

/// A type that can be read from a JSON document.
pub trait FromJson: DeepView + Sized {
    /// The value that a document stands for, if it stands for one.
    spec fn decoded(json: JsonValue) -> Option<Self::V>;

    /// Reads a value from a document.
    fn from_json(json: &Json) -> (value: Option<Self>)
        ensures
            value.deep_view() == Self::decoded(json.deep_view()),
    ;
}

/// A type that can be written as a JSON document.
pub trait ToJson: DeepView + Sized {
    /// The document that stands for a value.
    spec fn encoded(value: Self::V) -> JsonValue;

    /// Writes the value as a document.
    fn to_json(&self) -> (json: Json)
        ensures
            json.deep_view() == Self::encoded(self.deep_view()),
    ;
}

/// The values that a row of documents stands for: there is one where every
/// document of the row stands for a value.
pub open spec fn decoded_list<T: FromJson>(items: Seq<JsonValue>) -> Option<Seq<T::V>> {
    if forall|i: int| 0 <= i < items.len() ==> (#[trigger] T::decoded(items[i])) is Some {
        Some(Seq::new(items.len(), |i: int| T::decoded(items[i]).unwrap()))
    } else {
        None
    }
}

/// A row of documents is read item by item: where it stands for a row of
/// values, that row has a value for each document, in the documents' order.
/// Nothing is left out, merged, or moved.
pub proof fn lemma_decoded_list_keeps_every_item<T: FromJson>(
    items: Seq<JsonValue>,
    values: Seq<T::V>,
)
    requires
        decoded_list::<T>(items) == Some(values),
    ensures
        values.len() == items.len(),
        forall|i: int| 0 <= i < items.len() ==> T::decoded(items[i]) == Some(#[trigger] values[i]),
{
}

/// The documents that stand for a row of values.
pub open spec fn encoded_list<T: ToJson>(values: Seq<T::V>) -> Seq<JsonValue> {
    Seq::new(values.len(), |i: int| T::encoded(values[i]))
}

impl JsonValue {
    /// A string member.
    pub open spec fn text_field(self, key: Seq<char>) -> Option<Seq<char>> {
        match self.field(key) {
            Some(member) => member.text(),
            None => None,
        }
    }

    /// A string member that may be missing.
    pub open spec fn optional_text(self, key: Seq<char>) -> Option<Option<Seq<char>>> {
        match self.present(key) {
            None => Some(None),
            Some(member) => match member.text() {
                Some(text) => Some(Some(text)),
                None => None,
            },
        }
    }

    /// A member that is `true` or `false`.
    pub open spec fn bool_field(self, key: Seq<char>) -> Option<bool> {
        match self.field(key) {
            Some(member) => member.boolean(),
            None => None,
        }
    }

    /// A number member, whatever the number's form.
    pub open spec fn number_field(self, key: Seq<char>) -> Option<NumberValue> {
        match self.field(key) {
            Some(member) => member.number(),
            None => None,
        }
    }

    /// A member that is an unsigned integer.
    pub open spec fn unsigned_field(self, key: Seq<char>) -> Option<u64> {
        match self.field(key) {
            Some(member) => member.unsigned(),
            None => None,
        }
    }

    /// An unsigned member that may be missing.
    pub open spec fn optional_unsigned(self, key: Seq<char>) -> Option<Option<u64>> {
        match self.present(key) {
            None => Some(None),
            Some(member) => match member.unsigned() {
                Some(n) => Some(Some(n)),
                None => None,
            },
        }
    }

    /// An unsigned member that counts as zero where it is missing.
    pub open spec fn unsigned_or_zero(self, key: Seq<char>) -> Option<u64> {
        match self.optional_unsigned(key) {
            Some(Some(n)) => Some(n),
            Some(None) => Some(0),
            None => None,
        }
    }

    /// A string member that spells an unsigned decimal numeral.
    pub open spec fn decimal_field(self, key: Seq<char>) -> Option<u64> {
        match self.text_field(key) {
            Some(text) => unsigned_of_decimal(text),
            None => None,
        }
    }

    /// A string member that spells an unsigned decimal numeral, and that
    /// may be missing.
    pub open spec fn optional_decimal(self, key: Seq<char>) -> Option<Option<u64>> {
        match self.optional_text(key) {
            Some(Some(text)) => match unsigned_of_decimal(text) {
                Some(n) => Some(Some(n)),
                None => None,
            },
            Some(None) => Some(None),
            None => None,
        }
    }

    /// A member that stands for a `T`.
    pub open spec fn record_field<T: FromJson>(self, key: Seq<char>) -> Option<T::V> {
        match self.field(key) {
            Some(member) => T::decoded(member),
            None => None,
        }
    }

    /// A member that stands for a `T`, and that may be missing.
    pub open spec fn optional_record<T: FromJson>(self, key: Seq<char>) -> Option<Option<T::V>> {
        match self.present(key) {
            None => Some(None),
            Some(member) => match T::decoded(member) {
                Some(value) => Some(Some(value)),
                None => None,
            },
        }
    }

    /// An array member whose items each stand for a `T`.
    pub open spec fn list_field<T: FromJson>(self, key: Seq<char>) -> Option<Seq<T::V>> {
        match self.field(key) {
            Some(JsonValue::Array(items)) => decoded_list::<T>(items),
            _ => None,
        }
    }

    /// An array member whose items each stand for a `T`, and that may be
    /// missing.
    pub open spec fn optional_list<T: FromJson>(self, key: Seq<char>) -> Option<Option<Seq<T::V>>> {
        match self.present(key) {
            None => Some(None),
            Some(JsonValue::Array(items)) => match decoded_list::<T>(items) {
                Some(values) => Some(Some(values)),
                None => None,
            },
            Some(_) => None,
        }
    }

    /// An array member that counts as empty where it is missing.
    pub open spec fn list_or_empty<T: FromJson>(self, key: Seq<char>) -> Option<Seq<T::V>> {
        match self.field(key) {
            None => Some(Seq::empty()),
            Some(JsonValue::Array(items)) => decoded_list::<T>(items),
            Some(_) => None,
        }
    }
}

/// Reads each document of a row.
pub fn list_from_json<T: FromJson>(items: &Vec<Json>) -> (list: Option<Vec<T>>)
    ensures
        list.deep_view() == decoded_list::<T>(items.deep_view()),
{
    let ghost docs = items.deep_view();
    let mut list: Vec<T> = Vec::new();
    let mut i: usize = 0;
    while i < items.len()
        invariant
            i <= items.len(),
            docs == items.deep_view(),
            list@.len() == i,
            forall|k: int|
                0 <= k < i ==> (#[trigger] T::decoded(docs[k])) == Some(list@[k].deep_view()),
        decreases items.len() - i,
    {
        match T::from_json(&items[i]) {
            Some(value) => {
                list.push(value);
            },
            None => {
                assert(T::decoded(docs[i as int]) is None);
                return None;
            },
        }
        i += 1;
    }
    assert(decoded_list::<T>(docs) is Some);
    assert(list.deep_view() =~= decoded_list::<T>(docs).unwrap());
    Some(list)
}

/// The array that stands for a row of `T`, where there is a row.
pub open spec fn list_value<T: ToJson>(values: Option<Seq<T::V>>) -> Option<JsonValue> {
    match values {
        Some(values) => Some(JsonValue::Array(encoded_list::<T>(values))),
        None => None,
    }
}

/// Writes each value of a row, where there is a row.
pub fn row_to_json<T: ToJson>(values: Option<&[&T]>) -> (json: Option<Json>)
    ensures
        json.deep_view() == list_value::<T>(values.deep_view()),
{
    match values {
        None => None,
        Some(values) => {
            let mut items: Vec<Json> = Vec::new();
            let mut i: usize = 0;
            while i < values.len()
                invariant
                    i <= values.len(),
                    items@.len() == i,
                    forall|k: int|
                        0 <= k < i ==> (#[trigger] items@[k]).deep_view() == T::encoded(
                            values@[k].deep_view(),
                        ),
                decreases values.len() - i,
            {
                items.push(values[i].to_json());
                i += 1;
            }
            assert(items.deep_view() =~= encoded_list::<T>(values.deep_view()));
            Some(Json::array(items))
        },
    }
}

/// A reference to each value of a row.
pub fn borrow_all<T: DeepView>(values: &Vec<T>) -> (borrowed: Vec<&T>)
    ensures
        borrowed.deep_view() == values.deep_view(),
{
    let mut borrowed: Vec<&T> = Vec::new();
    let mut i: usize = 0;
    while i < values.len()
        invariant
            i <= values.len(),
            borrowed@.len() == i,
            forall|k: int| 0 <= k < i ==> *(#[trigger] borrowed@[k]) == values@[k],
        decreases values.len() - i,
    {
        borrowed.push(&values[i]);
        i += 1;
    }
    assert(borrowed.deep_view() =~= values.deep_view());
    borrowed
}

/// A type of which a second value, equal to a first, can be made.
pub trait Replicate: DeepView + Sized {
    /// A second value that is the same as this one.
    fn duplicate(&self) -> (same: Self)
        ensures
            same.deep_view() == self.deep_view(),
    ;
}

/// A second value for each value of a row.
pub fn duplicate_all<T: Replicate>(values: &[&T]) -> (same: Vec<T>)
    ensures
        same.deep_view() == values.deep_view(),
{
    let mut same: Vec<T> = Vec::new();
    let mut i: usize = 0;
    while i < values.len()
        invariant
            i <= values.len(),
            same@.len() == i,
            forall|k: int| 0 <= k < i ==> (#[trigger] same@[k]).deep_view() == values@[k].deep_view(),
        decreases values.len() - i,
    {
        same.push(values[i].duplicate());
        i += 1;
    }
    assert(same.deep_view() =~= values.deep_view());
    same
}

impl Json {
    /// A string member.
    pub fn text_field(&self, key: &str) -> (text: Option<&str>)
        ensures
            text.deep_view() == self.deep_view().text_field(key@),
    {
        match self.get(key) {
            Some(member) => member.as_text(),
            None => None,
        }
    }

    /// A string member that may be missing.
    pub fn optional_text(&self, key: &str) -> (text: Option<Option<String>>)
        ensures
            text.deep_view() == self.deep_view().optional_text(key@),
    {
        match self.get_present(key) {
            None => Some(None),
            Some(member) => match member.as_text() {
                Some(text) => Some(Some(text.to_owned())),
                None => None,
            },
        }
    }

    /// A member that is `true` or `false`.
    pub fn bool_field(&self, key: &str) -> (b: Option<bool>)
        ensures
            b == self.deep_view().bool_field(key@),
    {
        match self.get(key) {
            Some(member) => member.as_bool(),
            None => None,
        }
    }

    /// A number member, whatever the number's form.
    pub fn number_field(&self, key: &str) -> (n: Option<&JsonNumber>)
        ensures
            n.deep_view() == self.deep_view().number_field(key@),
    {
        match self.get(key) {
            Some(member) => member.as_number(),
            None => None,
        }
    }

    /// A member that is an unsigned integer.
    pub fn unsigned_field(&self, key: &str) -> (n: Option<u64>)
        ensures
            n == self.deep_view().unsigned_field(key@),
    {
        match self.get(key) {
            Some(member) => member.as_unsigned(),
            None => None,
        }
    }

    /// An unsigned member that may be missing.
    pub fn optional_unsigned(&self, key: &str) -> (n: Option<Option<u64>>)
        ensures
            n == self.deep_view().optional_unsigned(key@),
    {
        match self.get_present(key) {
            None => Some(None),
            Some(member) => match member.as_unsigned() {
                Some(n) => Some(Some(n)),
                None => None,
            },
        }
    }

    /// An unsigned member that counts as zero where it is missing.
    pub fn unsigned_or_zero(&self, key: &str) -> (n: Option<u64>)
        ensures
            n == self.deep_view().unsigned_or_zero(key@),
    {
        match self.optional_unsigned(key) {
            Some(Some(n)) => Some(n),
            Some(None) => Some(0),
            None => None,
        }
    }

    /// A string member that spells an unsigned decimal numeral.
    pub fn decimal_field(&self, key: &str) -> (n: Option<u64>)
        ensures
            n == self.deep_view().decimal_field(key@),
    {
        match self.text_field(key) {
            Some(text) => parse_unsigned(text),
            None => None,
        }
    }

    /// A string member that spells an unsigned decimal numeral, and that
    /// may be missing.
    pub fn optional_decimal(&self, key: &str) -> (n: Option<Option<u64>>)
        ensures
            n == self.deep_view().optional_decimal(key@),
    {
        match self.get_present(key) {
            None => Some(None),
            Some(member) => match member.as_text() {
                Some(text) => match parse_unsigned(text) {
                    Some(n) => Some(Some(n)),
                    None => None,
                },
                None => None,
            },
        }
    }

    /// A member that stands for a `T`.
    pub fn record_field<T: FromJson>(&self, key: &str) -> (value: Option<T>)
        ensures
            value.deep_view() == self.deep_view().record_field::<T>(key@),
    {
        match self.get(key) {
            Some(member) => T::from_json(member),
            None => None,
        }
    }

    /// A member that stands for a `T`, and that may be missing.
    pub fn optional_record<T: FromJson>(&self, key: &str) -> (value: Option<Option<T>>)
        ensures
            value.deep_view() == self.deep_view().optional_record::<T>(key@),
    {
        match self.get_present(key) {
            None => Some(None),
            Some(member) => match T::from_json(member) {
                Some(value) => Some(Some(value)),
                None => None,
            },
        }
    }

    /// An array member whose items each stand for a `T`.
    pub fn list_field<T: FromJson>(&self, key: &str) -> (list: Option<Vec<T>>)
        ensures
            list.deep_view() == self.deep_view().list_field::<T>(key@),
    {
        match self.get(key) {
            Some(member) => match member.as_items() {
                Some(items) => list_from_json(items),
                None => None,
            },
            None => None,
        }
    }

    /// An array member whose items each stand for a `T`, and that may be
    /// missing.
    pub fn optional_list<T: FromJson>(&self, key: &str) -> (list: Option<Option<Vec<T>>>)
        ensures
            list.deep_view() == self.deep_view().optional_list::<T>(key@),
    {
        match self.get_present(key) {
            None => Some(None),
            Some(member) => match member.as_items() {
                Some(items) => match list_from_json(items) {
                    Some(list) => Some(Some(list)),
                    None => None,
                },
                None => None,
            },
        }
    }

    /// An array member that counts as empty where it is missing.
    pub fn list_or_empty<T: FromJson>(&self, key: &str) -> (list: Option<Vec<T>>)
        ensures
            list.deep_view() == self.deep_view().list_or_empty::<T>(key@),
    {
        match self.get(key) {
            None => {
                let list: Vec<T> = Vec::new();
                assert(list.deep_view() =~= Seq::<T::V>::empty());
                Some(list)
            },
            Some(member) => match member.as_items() {
                Some(items) => list_from_json(items),
                None => None,
            },
        }
    }
}

} // verus!
