//! A plain model of JSON documents, and the two places where documents meet
//! their textual form.

use serde_json::Value;
use vstd::prelude::*;

verus! {

/// A JSON number.
///
/// This library reads integers and carries every other number along without
/// looking into it, so a number that is no integer is kept as its digits.
#[derive(Debug, Clone, PartialEq)]
pub enum JsonNumber {
    /// An integer from 0 up to the largest that 64 bits hold.
    Unsigned(u64),
    /// An integer below 0.
    Negative(i64),
    /// Any other number, in decimal notation. Digits that are no JSON number
    /// are written as `null`.
    Real(String),
}

/// The mathematical value of a [`JsonNumber`].
pub ghost enum NumberValue {
    Unsigned(u64),
    Negative(i64),
    Real(Seq<char>),
}

impl DeepView for JsonNumber {
    type V = NumberValue;

    open spec fn deep_view(&self) -> NumberValue {
        match self {
            JsonNumber::Unsigned(n) => NumberValue::Unsigned(*n),
            JsonNumber::Negative(n) => NumberValue::Negative(*n),
            JsonNumber::Real(text) => NumberValue::Real(text@),
        }
    }
}

impl JsonNumber {
    /// A second number that is the same as this one.
    pub fn duplicate(&self) -> (same: JsonNumber)
        ensures
            same.deep_view() == self.deep_view(),
    {
        match self {
            JsonNumber::Unsigned(n) => JsonNumber::Unsigned(*n),
            JsonNumber::Negative(n) => JsonNumber::Negative(*n),
            JsonNumber::Real(digits) => JsonNumber::Real(digits.clone()),
        }
    }
}

/// A JSON document.
///
/// An object holds its members as a row of names and values. Where a name
/// occurs more than once, the last occurrence is the one that counts: it is
/// the one that [`Json::get`] finds and the one that is written.
#[derive(Debug, PartialEq)]
pub enum Json {
    Null,
    Bool(bool),
    Number(JsonNumber),
    /// A string.
    Text(String),
    Array(Vec<Json>),
    /// An object: its members, each a name and a value.
    Object(Vec<(String, Json)>),
}

/// The mathematical value of a [`Json`].
pub ghost enum JsonValue {
    Null,
    Bool(bool),
    Number(NumberValue),
    Text(Seq<char>),
    Array(Seq<JsonValue>),
    Object(Seq<(Seq<char>, JsonValue)>),
}

/// The value of a document: that of each part, put together as the parts are.
pub open spec fn json_value(json: Json) -> JsonValue
    decreases json,
{
    match json {
        Json::Null => JsonValue::Null,
        Json::Bool(b) => JsonValue::Bool(b),
        Json::Number(n) => JsonValue::Number(n.deep_view()),
        Json::Text(s) => JsonValue::Text(s@),
        Json::Array(items) => JsonValue::Array(
            Seq::new(
                items@.len(),
                |i: int|
                    if 0 <= i < items@.len() {
                        json_value(items@[i])
                    } else {
                        JsonValue::Null
                    },
            ),
        ),
        Json::Object(members) => JsonValue::Object(
            Seq::new(
                members@.len(),
                |i: int|
                    if 0 <= i < members@.len() {
                        (members@[i].0@, json_value(members@[i].1))
                    } else {
                        (Seq::empty(), JsonValue::Null)
                    },
            ),
        ),
    }
}

impl DeepView for Json {
    type V = JsonValue;

    open spec fn deep_view(&self) -> JsonValue {
        json_value(*self)
    }
}

/// An array's value holds the values of its items, in order.
pub proof fn lemma_array_value(items: Vec<Json>)
    ensures
        Json::Array(items).deep_view() == JsonValue::Array(items.deep_view()),
{
    let shown = Json::Array(items).deep_view()->Array_0;
    assert(shown =~= items.deep_view());
}

/// An object's value holds its members' names and values, in order.
pub proof fn lemma_object_value(members: Vec<(String, Json)>)
    ensures
        Json::Object(members).deep_view() == JsonValue::Object(members.deep_view()),
{
    let shown = Json::Object(members).deep_view()->Object_0;
    assert(shown =~= members.deep_view());
}

/// The value that the last member named `key` carries, if any member has that name.
pub open spec fn last_member(members: Seq<(Seq<char>, JsonValue)>, key: Seq<char>) -> Option<
    JsonValue,
>
    decreases members.len(),
{
    if members.len() == 0 {
        None
    } else if members.last().0 == key {
        Some(members.last().1)
    } else {
        last_member(members.drop_last(), key)
    }
}

/// Of a row of members, the member put last is the one found under its
/// name, and under every other name what was found before is found still.
pub proof fn lemma_last_put_is_found(
    members: Seq<(Seq<char>, JsonValue)>,
    key: Seq<char>,
    value: JsonValue,
)
    ensures
        last_member(members.push((key, value)), key) == Some(value),
        forall|other: Seq<char>|
            other != key ==> #[trigger] last_member(members.push((key, value)), other)
                == last_member(members, other),
{
    let longer = members.push((key, value));
    assert(longer.last() == (key, value));
    assert(longer.drop_last() =~= members);
}

/// A member that is put where there is a value for it leaves what is found
/// under every other name as it was.
pub proof fn lemma_optional_member_keeps_others(
    members: Seq<(Seq<char>, JsonValue)>,
    key: Seq<char>,
    value: Option<JsonValue>,
    other: Seq<char>,
)
    requires
        other != key,
    ensures
        last_member(with_optional(members, key, value), other) == last_member(members, other),
{
    match value {
        Some(value) => lemma_last_put_is_found(members, key, value),
        None => {},
    }
}

impl JsonValue {
    /// The member `key` of an object.
    pub open spec fn field(self, key: Seq<char>) -> Option<JsonValue> {
        match self {
            JsonValue::Object(members) => last_member(members, key),
            _ => None,
        }
    }

    /// The member `key` of an object, where it is there and is not `null`.
    pub open spec fn present(self, key: Seq<char>) -> Option<JsonValue> {
        match self.field(key) {
            Some(JsonValue::Null) => None,
            other => other,
        }
    }

    /// Whether the document is an object.
    pub open spec fn is_object(self) -> bool {
        self is Object
    }

    /// The text of a string.
    pub open spec fn text(self) -> Option<Seq<char>> {
        match self {
            JsonValue::Text(s) => Some(s),
            _ => None,
        }
    }

    /// The integer that an unsigned number is.
    pub open spec fn unsigned(self) -> Option<u64> {
        match self {
            JsonValue::Number(NumberValue::Unsigned(n)) => Some(n),
            _ => None,
        }
    }

    /// The number that a number is, whatever its form.
    pub open spec fn number(self) -> Option<NumberValue> {
        match self {
            JsonValue::Number(n) => Some(n),
            _ => None,
        }
    }

    /// The truth value of `true` or `false`.
    pub open spec fn boolean(self) -> Option<bool> {
        match self {
            JsonValue::Bool(b) => Some(b),
            _ => None,
        }
    }

    /// The items of an array.
    pub open spec fn items(self) -> Option<Seq<JsonValue>> {
        match self {
            JsonValue::Array(items) => Some(items),
            _ => None,
        }
    }

}

/// The document that a byte string spells, if it spells one: what
/// `serde_json` reads from the bytes.
pub uninterp spec fn json_of_bytes(bytes: Seq<u8>) -> Option<JsonValue>;

/// The text that spells a document: what `serde_json` writes for it.
pub uninterp spec fn text_of_json(json: JsonValue) -> Seq<char>;

/// `serde_json::Value`, which the functions below hand to each other whole.
#[verifier::external_type_specification]
#[verifier::external_body]
pub struct ExValue(Value);

/// Carries a `serde_json::Value` over into a [`Json`], variant by variant, for
/// [`parse_bytes`]. A number becomes `Unsigned` where `as_u64` gives it, else
/// `Negative` where `as_i64` gives it, else `Real` with the digits that the
/// number displays as. Nothing is claimed of this function by itself.
#[verifier::external_body]
fn from_value(value: Value) -> Json {
    match value {
        Value::Null => Json::Null,
        Value::Bool(b) => Json::Bool(b),
        Value::Number(n) => Json::Number(
            n.as_u64().map(JsonNumber::Unsigned).or(n.as_i64().map(JsonNumber::Negative))
                .unwrap_or_else(|| JsonNumber::Real(n.to_string())),
        ),
        Value::String(s) => Json::Text(s),
        Value::Array(items) => Json::Array(items.into_iter().map(from_value).collect()),
        Value::Object(members) => Json::Object(
            members.into_iter().map(|(k, v)| (k, from_value(v))).collect(),
        ),
    }
}

/// Carries a [`Json`] over into a `serde_json::Value`, variant by variant, for
/// [`render`]. A `Real` becomes the number that its digits parse to, and
/// `null` where they parse to none. Nothing is claimed of this function by
/// itself.
#[verifier::external_body]
fn to_value(json: &Json) -> Value {
    match json {
        Json::Null => Value::Null,
        Json::Bool(b) => Value::Bool(*b),
        Json::Number(JsonNumber::Unsigned(n)) => Value::from(*n),
        Json::Number(JsonNumber::Negative(n)) => Value::from(*n),
        Json::Number(JsonNumber::Real(digits)) => digits.parse().map_or(Value::Null, Value::Number),
        Json::Text(s) => Value::String(s.clone()),
        Json::Array(items) => Value::Array(items.iter().map(to_value).collect()),
        Json::Object(members) => Value::Object(
            members.iter().map(|(k, v)| (k.clone(), to_value(v))).collect(),
        ),
    }
}

/// `serde_json::from_slice`, asked for a `Value`: the document that the bytes
/// spell, or nothing where they spell none. The claim is that the outcome is
/// a function of the bytes alone, which [`json_of_bytes`] names; what that
/// function is, is not said.
#[verifier::external_body]
fn parse_bytes(bytes: &[u8]) -> (parsed: Option<Json>)
    ensures
        parsed.deep_view() == json_of_bytes(bytes@),
{
    serde_json::from_slice::<Value>(bytes).ok().map(from_value)
}

/// `serde_json::to_string` of the document: its compact text. The claim is
/// that the text is a function of the document's value alone, which
/// [`text_of_json`] names; what that function is, is not said.
#[verifier::external_body]
fn render(json: &Json) -> (text: String)
    ensures
        text@ == text_of_json(json.deep_view()),
{
    serde_json::to_string(&to_value(json)).unwrap_or_default()
}

/// The members of an object under construction.
pub struct Members {
    pub list: Vec<(String, Json)>,
}

impl DeepView for Members {
    type V = Seq<(Seq<char>, JsonValue)>;

    open spec fn deep_view(&self) -> Seq<(Seq<char>, JsonValue)> {
        self.list.deep_view()
    }
}

/// `members` and then, where there is a value, the member `key` with that value.
pub open spec fn with_optional(
    members: Seq<(Seq<char>, JsonValue)>,
    key: Seq<char>,
    value: Option<JsonValue>,
) -> Seq<(Seq<char>, JsonValue)> {
    match value {
        Some(value) => members.push((key, value)),
        None => members,
    }
}

/// The string that stands for a text, where there is a text.
pub open spec fn text_value(text: Option<Seq<char>>) -> Option<JsonValue> {
    match text {
        Some(text) => Some(JsonValue::Text(text)),
        None => None,
    }
}

/// The number that stands for an unsigned integer, where there is one.
pub open spec fn unsigned_value(n: Option<u64>) -> Option<JsonValue> {
    match n {
        Some(n) => Some(JsonValue::Number(NumberValue::Unsigned(n))),
        None => None,
    }
}

impl Members {
    /// No members yet.
    pub fn new() -> (members: Members)
        ensures
            members.deep_view() == Seq::<(Seq<char>, JsonValue)>::empty(),
    {
        let members = Members { list: Vec::new() };
        assert(members.deep_view() =~= Seq::empty());
        members
    }

    /// Adds a member at the end.
    pub fn put(&mut self, key: &str, value: Json)
        ensures
            final(self).deep_view() == old(self).deep_view().push((key@, value.deep_view())),
    {
        self.list.push((key.to_owned(), value));
        assert(self.deep_view() =~= old(self).deep_view().push((key@, value.deep_view())));
    }

    /// Adds a member at the end where there is a value for it.
    pub fn put_optional(&mut self, key: &str, value: Option<Json>)
        ensures
            final(self).deep_view() == with_optional(
                old(self).deep_view(),
                key@,
                value.deep_view(),
            ),
    {
        match value {
            Some(value) => self.put(key, value),
            None => {},
        }
    }

    /// Adds a string member at the end.
    pub fn put_text(&mut self, key: &str, text: &str)
        ensures
            final(self).deep_view() == old(self).deep_view().push((key@, JsonValue::Text(text@))),
    {
        self.put(key, Json::text(text));
    }

    /// Adds a string member at the end where there is a text for it.
    pub fn put_optional_text(&mut self, key: &str, text: Option<&str>)
        ensures
            final(self).deep_view() == with_optional(
                old(self).deep_view(),
                key@,
                text_value(text.deep_view()),
            ),
    {
        match text {
            Some(text) => self.put(key, Json::text(text)),
            None => {},
        }
    }

    /// Adds an unsigned member at the end where there is a number for it.
    pub fn put_optional_unsigned(&mut self, key: &str, n: Option<u64>)
        ensures
            final(self).deep_view() == with_optional(
                old(self).deep_view(),
                key@,
                unsigned_value(n),
            ),
    {
        match n {
            Some(n) => self.put(key, Json::unsigned(n)),
            None => {},
        }
    }

    /// The object that has these members.
    pub fn into_object(self) -> (json: Json)
        ensures
            json.deep_view() == JsonValue::Object(self.deep_view()),
    {
        proof {
            lemma_object_value(self.list);
        }
        Json::Object(self.list)
    }
}

impl Json {
    /// The string with the given text.
    pub fn text(text: &str) -> (json: Json)
        ensures
            json.deep_view() == JsonValue::Text(text@),
    {
        Json::Text(text.to_owned())
    }

    /// The number `n`.
    pub fn unsigned(n: u64) -> (json: Json)
        ensures
            json.deep_view() == JsonValue::Number(NumberValue::Unsigned(n)),
    {
        Json::Number(JsonNumber::Unsigned(n))
    }

    /// The array of the given items.
    pub fn array(items: Vec<Json>) -> (json: Json)
        ensures
            json.deep_view() == JsonValue::Array(items.deep_view()),
    {
        proof {
            lemma_array_value(items);
        }
        Json::Array(items)
    }

    /// Reads a document from its bytes.
    pub fn parse(bytes: &[u8]) -> (parsed: Option<Json>)
        ensures
            parsed.deep_view() == json_of_bytes(bytes@),
    {
        parse_bytes(bytes)
    }

    /// Writes the document as compact text.
    pub fn to_text(&self) -> (text: String)
        ensures
            text@ == text_of_json(self.deep_view()),
    {
        render(self)
    }

    /// The member `key` of an object.
    pub fn get(&self, key: &str) -> (found: Option<&Json>)
        ensures
            found.deep_view() == self.deep_view().field(key@),
    {
        match self {
            Json::Object(members) => {
                let ghost model = members.deep_view();
                proof {
                    lemma_object_value(*members);
                    assert(model.take(model.len() as int) =~= model);
                }
                let mut i: usize = members.len();
                while i > 0
                    invariant
                        i <= members.len(),
                        model == members.deep_view(),
                        self.deep_view() == JsonValue::Object(model),
                        last_member(model, key@) == last_member(model.take(i as int), key@),
                    decreases i,
                {
                    i -= 1;
                    proof {
                        let upto = model.take(i + 1);
                        assert(upto.last() == model[i as int]);
                        assert(model[i as int] == members@[i as int].deep_view());
                        assert(upto.drop_last() =~= model.take(i as int));
                    }
                    if members[i].0.as_str().eq(key) {
                        return Some(&members[i].1);
                    }
                }
                None
            },
            _ => None,
        }
    }

    /// The member `key` of an object, where it is there and is not `null`.
    pub fn get_present(&self, key: &str) -> (found: Option<&Json>)
        ensures
            found.deep_view() == self.deep_view().present(key@),
    {
        match self.get(key) {
            Some(Json::Null) => None,
            other => other,
        }
    }

    /// Whether the document is an object.
    pub fn is_object(&self) -> (yes: bool)
        ensures
            yes == self.deep_view().is_object(),
    {
        match self {
            Json::Object(_) => true,
            _ => false,
        }
    }

    /// The text of a string.
    pub fn as_text(&self) -> (text: Option<&str>)
        ensures
            text.deep_view() == self.deep_view().text(),
    {
        match self {
            Json::Text(s) => Some(s.as_str()),
            _ => None,
        }
    }

    /// The integer that an unsigned number is.
    pub fn as_unsigned(&self) -> (n: Option<u64>)
        ensures
            n == self.deep_view().unsigned(),
    {
        match self {
            Json::Number(JsonNumber::Unsigned(n)) => Some(*n),
            _ => None,
        }
    }

    /// The number that a number is, whatever its form.
    pub fn as_number(&self) -> (n: Option<&JsonNumber>)
        ensures
            n.deep_view() == self.deep_view().number(),
    {
        match self {
            Json::Number(n) => Some(n),
            _ => None,
        }
    }

    /// The truth value of `true` or `false`.
    pub fn as_bool(&self) -> (b: Option<bool>)
        ensures
            b == self.deep_view().boolean(),
    {
        match self {
            Json::Bool(b) => Some(*b),
            _ => None,
        }
    }

    /// The items of an array.
    pub fn as_items(&self) -> (items: Option<&Vec<Json>>)
        ensures
            items.deep_view() == self.deep_view().items(),
    {
        match self {
            Json::Array(items) => {
                proof {
                    lemma_array_value(*items);
                }
                Some(items)
            },
            _ => None,
        }
    }
}

} // verus!
