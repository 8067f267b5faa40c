//! JSON values as the library reads them.
//!
//! Text is turned into a value by `serde_json`; everything that is then read
//! out of the value is verified here.
use vstd::prelude::*;
use crate::lookup::{first_match, first_true, first_true_from, hits};
use crate::text::same_text;

verus! {

/// A JSON number: a whole number from 0 to `u64::MAX`, a whole number
/// below 0 and not below `i64::MIN`, or any other number, kept as the
/// numeral that stands for it.
#[derive(Debug)]
pub enum JsonNumber {
    Unsigned(u64),
    Negative(i64),
    Fraction(String),
}

/// A JSON number as plain values.
pub enum NumberView {
    Unsigned(u64),
    Negative(i64),
    Fraction(Seq<char>),
}

impl View for JsonNumber {
    type V = NumberView;

    open spec fn view(&self) -> NumberView {
        match self {
            JsonNumber::Unsigned(u) => NumberView::Unsigned(*u),
            JsonNumber::Negative(i) => NumberView::Negative(*i),
            JsonNumber::Fraction(numeral) => NumberView::Fraction(numeral@),
        }
    }
}

impl NumberView {
    /// The number as `u64`, where it is one.
    pub open spec fn unsigned(self) -> Option<u64> {
        match self {
            NumberView::Unsigned(u) => Some(u),
            _ => None,
        }
    }

    /// The number as `i64`, where it is one.
    pub open spec fn signed(self) -> Option<i64> {
        match self {
            NumberView::Unsigned(u) => if u <= i64::MAX {
                Some(u as i64)
            } else {
                None
            },
            NumberView::Negative(i) => Some(i),
            NumberView::Fraction(_) => None,
        }
    }
}

impl JsonNumber {
    /// The number as `u64`, where it is one.
    pub fn as_u64(&self) -> (value: Option<u64>)
        ensures
            value == self@.unsigned(),
    {
        match self {
            JsonNumber::Unsigned(u) => Some(*u),
            _ => None,
        }
    }

    /// The number as `i64`, where it is one.
    pub fn as_i64(&self) -> (value: Option<i64>)
        ensures
            value == self@.signed(),
    {
        match self {
            JsonNumber::Unsigned(u) => if *u <= i64::MAX as u64 {
                Some(*u as i64)
            } else {
                None
            },
            JsonNumber::Negative(i) => Some(*i),
            JsonNumber::Fraction(_) => None,
        }
    }
}

/// A JSON value. The members of an object stand in a list; a name means
/// the first member with that name.
#[derive(Debug)]
pub enum Json {
    Null,
    Bool(bool),
    Number(JsonNumber),
    Text(String),
    Array(Vec<Json>),
    Object(Vec<(String, Json)>),
}

/// A JSON value as plain values.
pub enum JsonTree {
    Null,
    Bool(bool),
    Number(NumberView),
    Text(Seq<char>),
    Array(Seq<JsonTree>),
    Object(Seq<(Seq<char>, JsonTree)>),
}

/// The plain value that a JSON value stands for.
pub open spec fn tree(value: Json) -> JsonTree
    decreases value,
{
    match value {
        Json::Null => JsonTree::Null,
        Json::Bool(b) => JsonTree::Bool(b),
        Json::Number(n) => JsonTree::Number(n@),
        Json::Text(s) => JsonTree::Text(s@),
        Json::Array(items) => JsonTree::Array(
            Seq::new(
                items@.len(),
                |i: int|
                    if 0 <= i < items@.len() {
                        tree(items@[i])
                    } else {
                        JsonTree::Null
                    },
            ),
        ),
        Json::Object(members) => JsonTree::Object(
            Seq::new(
                members@.len(),
                |i: int|
                    if 0 <= i < members@.len() {
                        (members@[i].0@, tree(members@[i].1))
                    } else {
                        (Seq::empty(), JsonTree::Null)
                    },
            ),
        ),
    }
}

impl View for Json {
    type V = JsonTree;

    open spec fn view(&self) -> JsonTree {
        tree(*self)
    }
}

/// The names of a list of members.
pub open spec fn names(members: Seq<(Seq<char>, JsonTree)>) -> Seq<Seq<char>> {
    members.map_values(|m: (Seq<char>, JsonTree)| m.0)
}

impl JsonTree {
    /// The members, of an object.
    pub open spec fn members(self) -> Option<Seq<(Seq<char>, JsonTree)>> {
        match self {
            JsonTree::Object(members) => Some(members),
            _ => None,
        }
    }

    /// The member `name`, of an object that has one.
    pub open spec fn member(self, name: Seq<char>) -> Option<JsonTree> {
        match self {
            JsonTree::Object(members) => match first_match(names(members), name) {
                Some(i) => Some(members[i].1),
                None => None,
            },
            _ => None,
        }
    }

    /// The characters, of a string.
    pub open spec fn text(self) -> Option<Seq<char>> {
        match self {
            JsonTree::Text(s) => Some(s),
            _ => None,
        }
    }

    /// The value, of a boolean.
    pub open spec fn flag(self) -> Option<bool> {
        match self {
            JsonTree::Bool(b) => Some(b),
            _ => None,
        }
    }

    /// The value, of a whole number from 0 to `u64::MAX`.
    pub open spec fn unsigned(self) -> Option<u64> {
        match self {
            JsonTree::Number(n) => n.unsigned(),
            _ => None,
        }
    }

    /// The value, of a whole number from `i64::MIN` to `i64::MAX`.
    pub open spec fn signed(self) -> Option<i64> {
        match self {
            JsonTree::Number(n) => n.signed(),
            _ => None,
        }
    }

    /// The items, of an array.
    pub open spec fn items(self) -> Option<Seq<JsonTree>> {
        match self {
            JsonTree::Array(items) => Some(items),
            _ => None,
        }
    }

    /// The characters of the member `name`, where it is a string.
    pub open spec fn text_at(self, name: Seq<char>) -> Option<Seq<char>> {
        match self.member(name) {
            Some(value) => value.text(),
            None => None,
        }
    }

    /// The value of the member `name`, where it is a whole number from 0
    /// to `u64::MAX`.
    pub open spec fn unsigned_at(self, name: Seq<char>) -> Option<u64> {
        match self.member(name) {
            Some(value) => value.unsigned(),
            None => None,
        }
    }

    /// The value of the member `name`, where it is a boolean.
    pub open spec fn flag_at(self, name: Seq<char>) -> Option<bool> {
        match self.member(name) {
            Some(value) => value.flag(),
            None => None,
        }
    }

    /// Whether the member `name` is missing or `null`.
    pub open spec fn lacks(self, name: Seq<char>) -> bool {
        self.member(name) is None || self.member(name) == Some(JsonTree::Null)
    }

    /// A member that may be missing or `null` and is a string otherwise:
    /// the string, if any; nothing where the member is of another kind.
    pub open spec fn optional_text_at(self, name: Seq<char>) -> Option<Option<Seq<char>>> {
        if self.lacks(name) {
            Some(None)
        } else {
            match self.text_at(name) {
                Some(text) => Some(Some(text)),
                None => None,
            }
        }
    }
}

/// A value and its view are of the same kind.
pub proof fn lemma_same_kind(value: Json)
    ensures
        value@ is Null == value is Null,
        value@ is Bool == value is Bool,
        value@ is Number == value is Number,
        value@ is Text == value is Text,
        value@ is Array == value is Array,
        value@ is Object == value is Object,
{
}

/// The view of an object: the views of its members, in their order.
pub proof fn lemma_object_view(value: Json)
    requires
        value is Object,
    ensures
        value@ is Object,
        value@->Object_0.len() == value->Object_0@.len(),
        forall|i: int|
            0 <= i < value->Object_0@.len() ==> #[trigger] value@->Object_0[i] == (
                value->Object_0@[i].0@,
                value->Object_0@[i].1@,
            ),
{
}

/// The view of an array: the views of its items, in their order.
pub proof fn lemma_array_view(value: Json)
    requires
        value is Array,
    ensures
        value@ is Array,
        value@->Array_0.len() == value->Array_0@.len(),
        forall|i: int|
            0 <= i < value->Array_0@.len() ==> #[trigger] value@->Array_0[i] == value->Array_0@[i]@,
{
}

/// The view of an optional value.
pub open spec fn tree_of(value: Option<&Json>) -> Option<JsonTree> {
    match value {
        Some(v) => Some(v@),
        None => None,
    }
}

/// The view of an optional string slice.
pub open spec fn chars_of_str(s: Option<&str>) -> Option<Seq<char>> {
    match s {
        Some(s) => Some(s@),
        None => None,
    }
}

impl Json {
    /// The member `name`, of an object that has one.
    pub fn get(&self, name: &str) -> (value: Option<&Json>)
        ensures
            tree_of(value) == self@.member(name@),
    {
        match self {
            Json::Object(members) => {
                proof {
                    lemma_object_view(*self);
                }
                let ghost all = self@->Object_0;
                let ghost flags = hits(names(all), name@);
                let mut i: usize = 0;
                while i < members.len()
                    invariant
                        0 <= i <= members.len(),
                        self@ == JsonTree::Object(all),
                        all.len() == members@.len(),
                        forall|j: int|
                            0 <= j < members@.len() ==> all[j] == (members@[j].0@, members@[j].1@),
                        flags == hits(names(all), name@),
                        first_true(flags) == first_true_from(flags, i as int),
                    decreases members.len() - i,
                {
                    if same_text(members[i].0.as_str(), name) {
                        return Some(&members[i].1);
                    }
                    i += 1;
                }
                None
            },
            _ => None,
        }
    }

    /// The characters, of a string.
    pub fn as_str(&self) -> (text: Option<&str>)
        ensures
            chars_of_str(text) == self@.text(),
    {
        match self {
            Json::Text(s) => Some(s.as_str()),
            _ => None,
        }
    }

    /// The value, of a boolean.
    pub fn as_bool(&self) -> (flag: Option<bool>)
        ensures
            flag == self@.flag(),
    {
        match self {
            Json::Bool(b) => Some(*b),
            _ => None,
        }
    }

    /// The value, of a whole number from 0 to `u64::MAX`.
    pub fn as_u64(&self) -> (value: Option<u64>)
        ensures
            value == self@.unsigned(),
    {
        match self {
            Json::Number(n) => n.as_u64(),
            _ => None,
        }
    }

    /// The value, of a whole number from `i64::MIN` to `i64::MAX`.
    pub fn as_i64(&self) -> (value: Option<i64>)
        ensures
            value == self@.signed(),
    {
        match self {
            Json::Number(n) => n.as_i64(),
            _ => None,
        }
    }

    /// Whether the value is `null`.
    pub fn is_null(&self) -> (null: bool)
        ensures
            null == (self@ == JsonTree::Null),
    {
        match self {
            Json::Null => true,
            _ => false,
        }
    }

    /// The members, of an object.
    pub fn as_object(&self) -> (members: Option<&Vec<(String, Json)>>)
        ensures
            match members {
                Some(list) => self@.members() is Some && self@.members().unwrap().len() == list@.len()
                    && forall|i: int|
                    0 <= i < list@.len() ==> #[trigger] self@.members().unwrap()[i] == (
                        list@[i].0@,
                        list@[i].1@,
                    ),
                None => self@.members() is None,
            },
    {
        proof {
            if self is Object {
                lemma_object_view(*self);
            }
        }
        match self {
            Json::Object(members) => Some(members),
            _ => None,
        }
    }

    /// The items, of an array.
    pub fn as_array(&self) -> (items: Option<&Vec<Json>>)
        ensures
            match items {
                Some(list) => self@.items() is Some && self@.items().unwrap().len() == list@.len()
                    && forall|i: int|
                    0 <= i < list@.len() ==> #[trigger] self@.items().unwrap()[i] == list@[i]@,
                None => self@.items() is None,
            },
    {
        proof {
            if self is Array {
                lemma_array_view(*self);
            }
        }
        match self {
            Json::Array(items) => Some(items),
            _ => None,
        }
    }

    /// The characters of the member `name`, where it is a string.
    pub fn str_at(&self, name: &str) -> (text: Option<&str>)
        ensures
            chars_of_str(text) == self@.text_at(name@),
    {
        match self.get(name) {
            Some(value) => value.as_str(),
            None => None,
        }
    }

    /// The value of the member `name`, where it is a whole number from 0
    /// to `u64::MAX`.
    pub fn u64_at(&self, name: &str) -> (value: Option<u64>)
        ensures
            value == self@.unsigned_at(name@),
    {
        match self.get(name) {
            Some(value) => value.as_u64(),
            None => None,
        }
    }

    /// The value of the member `name`, where it is a boolean.
    pub fn bool_at(&self, name: &str) -> (value: Option<bool>)
        ensures
            value == self@.flag_at(name@),
    {
        match self.get(name) {
            Some(value) => value.as_bool(),
            None => None,
        }
    }

    /// Whether the member `name` is missing or `null`.
    pub fn has_none(&self, name: &str) -> (none: bool)
        ensures
            none == self@.lacks(name@),
    {
        match self.get(name) {
            Some(value) => value.is_null(),
            None => true,
        }
    }

    /// A member that may be missing or `null` and is a string otherwise.
    pub fn optional_str_at(&self, name: &str) -> (out: Option<Option<&str>>)
        ensures
            match out {
                Some(inner) => self@.optional_text_at(name@) == Some(chars_of_str(inner)),
                None => self@.optional_text_at(name@) is None,
            },
    {
        if self.has_none(name) {
            Some(None)
        } else {
            match self.str_at(name) {
                Some(text) => Some(Some(text)),
                None => None,
            }
        }
    }
}

/// Why a text is no JSON value.
#[derive(Clone, Copy, Debug, PartialEq, Eq, Structural)]
pub enum JsonError {
    /// The text ends before the value does.
    UnexpectedEnd,
    /// The text is not JSON, whatever might follow it.
    Malformed,
}

/// What `serde_json` makes of a text: the value that the text denotes, or
/// the reason why it denotes none.
pub uninterp spec fn json_reading(text: Seq<char>) -> Result<JsonTree, JsonError>;

/// A JSON value as `serde_json` holds it. Nothing is read from it here but
/// by `json_of`.
#[verifier::external_type_specification]
#[verifier::external_body]
pub struct ExValue(serde_json::Value);

/// A JSON number as `serde_json` holds it.
#[verifier::external_type_specification]
#[verifier::external_body]
pub struct ExNumber(serde_json::Number);

/// Turns a number of `serde_json` into a number of this library: what
/// `Number::as_u64` returns where it returns a number, else what
/// `Number::as_i64` returns, else the numeral that the number writes
/// itself as.
#[verifier::external_body]
pub(crate) fn number_of(n: &serde_json::Number) -> JsonNumber {
    match (n.as_u64(), n.as_i64()) {
        (Some(u), _) => JsonNumber::Unsigned(u),
        (_, Some(i)) => JsonNumber::Negative(i),
        _ => JsonNumber::Fraction(n.to_string()),
    }
}

/// Turns a value of `serde_json` into a value of this library, member by
/// member and item by item, in the order in which `serde_json` hands them
/// out.
#[verifier::external_body]
pub(crate) fn json_of(value: serde_json::Value) -> Json {
    match value {
        serde_json::Value::Null => Json::Null,
        serde_json::Value::Bool(b) => Json::Bool(b),
        serde_json::Value::Number(n) => Json::Number(number_of(&n)),
        serde_json::Value::String(s) => Json::Text(s),
        serde_json::Value::Array(a) => Json::Array(a.into_iter().map(json_of).collect()),
        serde_json::Value::Object(o) => Json::Object(
            o.into_iter().map(|(k, v)| (k, json_of(v))).collect(),
        ),
    }
}

/// Turns a number of this library into a value of `serde_json`. A number
/// that is kept as a numeral is read back from it by
/// `serde_json::from_str` as a `Number`; a numeral that `serde_json` takes
/// for no number becomes `null`.
#[verifier::external_body]
pub(crate) fn number_value(n: &JsonNumber) -> serde_json::Value {
    match n {
        JsonNumber::Unsigned(u) => serde_json::Value::from(*u),
        JsonNumber::Negative(i) => serde_json::Value::from(*i),
        JsonNumber::Fraction(t) => serde_json::from_str::<serde_json::Number>(t).map(
            serde_json::Value::Number,
        ).unwrap_or_default(),
    }
}

/// Turns a value of this library into a value of `serde_json`. Of members
/// with one name the last one stays.
#[verifier::external_body]
pub(crate) fn value_of(value: &Json) -> serde_json::Value {
    match value {
        Json::Null => serde_json::Value::Null,
        Json::Bool(b) => serde_json::Value::Bool(*b),
        Json::Number(n) => number_value(n),
        Json::Text(s) => serde_json::Value::String(s.clone()),
        Json::Array(a) => serde_json::Value::Array(a.iter().map(value_of).collect()),
        Json::Object(o) => serde_json::Value::Object(
            o.iter().map(|(k, v)| (k.clone(), value_of(v))).collect(),
        ),
    }
}

/// Parses a text with `serde_json::from_str`.
///
/// The contract gives the result a name: the same text always gives the
/// same value or the same failure. The failure is `UnexpectedEnd` where
/// `serde_json::Error::is_eof` holds of the error, `Malformed` otherwise.
#[verifier::external_body]
pub(crate) fn parse_json(text: &str) -> (parsed: Result<Json, JsonError>)
    ensures
        match parsed {
            Ok(value) => json_reading(text@) == Ok::<JsonTree, JsonError>(value@),
            Err(e) => json_reading(text@) == Err::<JsonTree, JsonError>(e),
        },
{
    match serde_json::from_str::<serde_json::Value>(text) {
        Ok(value) => Ok(json_of(value)),
        Err(e) => Err(if e.is_eof() { JsonError::UnexpectedEnd } else { JsonError::Malformed }),
    }
}

/// The text that `serde_json` writes for a value, on one line.
pub uninterp spec fn json_text(value: JsonTree) -> Seq<char>;

/// The text that `serde_json` writes for a value, on several lines, each
/// level indented by two spaces.
pub uninterp spec fn json_pretty_text(value: JsonTree) -> Seq<char>;

/// Writes a value with `serde_json::to_string`.
///
/// The contract gives the result a name: the same value always gives the
/// same text.
#[verifier::external_body]
pub(crate) fn write_json(value: &Json) -> (text: String)
    ensures
        text@ == json_text(value@),
{
    serde_json::to_string(&value_of(value)).unwrap_or_default()
}

/// Writes a value with `serde_json::to_string_pretty`.
///
/// The contract gives the result a name: the same value always gives the
/// same text.
#[verifier::external_body]
pub(crate) fn write_json_pretty(value: &Json) -> (text: String)
    ensures
        text@ == json_pretty_text(value@),
{
    serde_json::to_string_pretty(&value_of(value)).unwrap_or_default()
}

/// The views of a list of members.
pub open spec fn members_view(members: Seq<(String, Json)>) -> Seq<(Seq<char>, JsonTree)> {
    members.map_values(|m: (String, Json)| (m.0@, m.1@))
}

/// The views of a list of values.
pub open spec fn items_view(items: Seq<Json>) -> Seq<JsonTree> {
    items.map_values(|j: Json| j@)
}

/// The members of an object under construction.
pub struct Members {
    pub list: Vec<(String, Json)>,
}

impl View for Members {
    type V = Seq<(Seq<char>, JsonTree)>;

    open spec fn view(&self) -> Seq<(Seq<char>, JsonTree)> {
        members_view(self.list@)
    }
}

impl Members {
    /// No members.
    pub fn new() -> (members: Members)
        ensures
            members@ == Seq::<(Seq<char>, JsonTree)>::empty(),
    {
        let members = Members { list: Vec::new() };
        assert(members@ =~= Seq::<(Seq<char>, JsonTree)>::empty());
        members
    }

    /// Adds the member `name` with the value `value`.
    pub fn put(&mut self, name: &str, value: Json)
        ensures
            final(self)@ == old(self)@.push((name@, value@)),
    {
        self.list.push((name.to_owned(), value));
        assert(self@ =~= old(self)@.push((name@, value@)));
    }

    /// Adds the member `name` with the string `text`.
    pub fn put_text(&mut self, name: &str, text: &str)
        ensures
            final(self)@ == old(self)@.push((name@, JsonTree::Text(text@))),
    {
        self.put(name, Json::Text(text.to_owned()));
    }

    /// The object with these members.
    pub fn finish(self) -> (value: Json)
        ensures
            value@ == JsonTree::Object(self@),
    {
        let value = Json::Object(self.list);
        proof {
            lemma_object_view(value);
            assert(value@->Object_0 =~= self@);
        }
        value
    }
}

impl Json {
    /// The array of `items`.
    pub fn list(items: Vec<Json>) -> (value: Json)
        ensures
            value@ == JsonTree::Array(items_view(items@)),
    {
        let value = Json::Array(items);
        proof {
            lemma_array_view(value);
            assert(value@->Array_0 =~= items_view(items@));
        }
        value
    }

    /// The number `n`.
    pub fn unsigned(n: u64) -> (value: Json)
        ensures
            value@ == JsonTree::Number(NumberView::Unsigned(n)),
    {
        Json::Number(JsonNumber::Unsigned(n))
    }

    /// The number `n`.
    pub fn signed(n: i64) -> (value: Json)
        ensures
            value@ == JsonTree::Number(
                if n >= 0 {
                    NumberView::Unsigned(n as u64)
                } else {
                    NumberView::Negative(n)
                },
            ),
    {
        if n >= 0 {
            Json::Number(JsonNumber::Unsigned(n as u64))
        } else {
            Json::Number(JsonNumber::Negative(n))
        }
    }

    /// The string `text`.
    pub fn text(text: &str) -> (value: Json)
        ensures
            value@ == JsonTree::Text(text@),
    {
        Json::Text(text.to_owned())
    }

    /// Writes the value as JSON on one line.
    pub fn write(&self) -> (text: String)
        ensures
            text@ == json_text(self@),
    {
        write_json(self)
    }

    /// Writes the value as JSON on several lines.
    pub fn write_pretty(&self) -> (text: String)
        ensures
            text@ == json_pretty_text(self@),
    {
        write_json_pretty(self)
    }

    /// Reads a JSON value from a text.
    pub fn parse(text: &str) -> (parsed: Result<Json, JsonError>)
        ensures
            match parsed {
                Ok(value) => json_reading(text@) == Ok::<JsonTree, JsonError>(value@),
                Err(e) => json_reading(text@) == Err::<JsonTree, JsonError>(e),
            },
    {
        parse_json(text)
    }
}

} // verus!
