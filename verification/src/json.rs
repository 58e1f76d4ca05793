//! JSON documents as `serde_json` holds them, and what the rest of the
//! library may assume of them.

use vstd::prelude::*;

verus! {

/// The mathematical content of a JSON number.
pub enum JsonNumber {
    /// A number that `serde_json` holds as an integer.
    Integer(int),
    /// Any other number, by the text that `serde_json` prints for it.
    Real(Seq<char>),
}

/// The mathematical content of a JSON document.
pub enum JsonView {
    Null,
    Bool(bool),
    Number(JsonNumber),
    String(Seq<char>),
    Array(Seq<JsonView>),
    Object(Map<Seq<char>, JsonView>),
}

/// `serde_json::Value`, a JSON document in memory. The verifier sees nothing
/// inside it; `value_model` names what it holds.
#[verifier::external_type_specification]
#[verifier::external_body]
pub struct ExValue(serde_json::Value);

/// `serde_json::Error`, why a text is no JSON document. Nothing is read
/// from it.
#[verifier::external_type_specification]
#[verifier::external_body]
pub struct ExJsonError(serde_json::Error);

/// What a `serde_json::Value` holds: the document that it stands for. The
/// members of an object are held by name, whatever their order.
pub uninterp spec fn value_model(v: serde_json::Value) -> JsonView;

/// The document that `serde_json::from_str` reads from a text; nothing
/// where it takes the text for no JSON document.
pub uninterp spec fn document_of(text: Seq<char>) -> Option<JsonView>;

/// The member `key` of an object; nothing for a missing member and for a
/// document that is not an object.
pub open spec fn member(j: JsonView, key: Seq<char>) -> Option<JsonView> {
    match j {
        JsonView::Object(members) => if members.contains_key(key) {
            Some(members[key])
        } else {
            None
        },
        _ => None,
    }
}

/// Calls `serde_json::from_str` for a `Value`. The call succeeds exactly on
/// the texts that `document_of` gives a document for, and the value holds
/// that document.
#[verifier::external_body]
pub(crate) fn parse_value(text: &str) -> (r: Result<serde_json::Value, serde_json::Error>)
    ensures
        match r {
            Ok(v) => document_of(text@) == Some(value_model(v)),
            Err(_) => document_of(text@) is None,
        },
{
    serde_json::from_str::<serde_json::Value>(text)
}

/// Calls `Value::get` with a string key: the member of that name where the
/// value is an object that has one, nothing otherwise.
#[verifier::external_body]
pub(crate) fn value_get<'a>(v: &'a serde_json::Value, key: &str) -> (r: Option<&'a serde_json::Value>)
    ensures
        match r {
            Some(m) => member(value_model(*v), key@) == Some(value_model(*m)),
            None => member(value_model(*v), key@) is None,
        },
{
    v.get(key)
}

/// Calls `Value::as_str`: the text of a string value, nothing for any other.
#[verifier::external_body]
pub(crate) fn value_as_str<'a>(v: &'a serde_json::Value) -> (r: Option<&'a str>)
    ensures
        match r {
            Some(s) => value_model(*v) == JsonView::String(s@),
            None => !(value_model(*v) is String),
        },
{
    v.as_str()
}

/// Calls `Value::as_array`: the elements of an array value, in order, nothing
/// for any other value.
#[verifier::external_body]
pub(crate) fn value_as_array<'a>(v: &'a serde_json::Value) -> (r: Option<&'a Vec<serde_json::Value>>)
    ensures
        match r {
            Some(items) => value_model(*v) == JsonView::Array(models(items@)),
            None => !(value_model(*v) is Array),
        },
{
    v.as_array()
}

/// Calls `Value::is_object`.
#[verifier::external_body]
pub(crate) fn value_is_object(v: &serde_json::Value) -> (r: bool)
    ensures
        r == (value_model(*v) is Object),
{
    v.is_object()
}

/// Builds a string value: `Value::from` on a text.
#[verifier::external_body]
pub(crate) fn value_string(s: &str) -> (v: serde_json::Value)
    ensures
        value_model(v) == JsonView::String(s@),
{
    serde_json::Value::from(s)
}

/// Builds a boolean value: `Value::from` on a `bool`.
#[verifier::external_body]
pub(crate) fn value_bool(b: bool) -> (v: serde_json::Value)
    ensures
        value_model(v) == JsonView::Bool(b),
{
    serde_json::Value::from(b)
}

/// Builds a number value: `Value::from` on an `i64`.
#[verifier::external_body]
pub(crate) fn value_integer(n: i64) -> (v: serde_json::Value)
    ensures
        value_model(v) == JsonView::Number(JsonNumber::Integer(n as int)),
{
    serde_json::Value::from(n)
}

/// Builds an array value: wraps the elements in `Value::Array`.
#[verifier::external_body]
pub(crate) fn value_array(items: Vec<serde_json::Value>) -> (v: serde_json::Value)
    ensures
        value_model(v) == JsonView::Array(models(items@)),
{
    serde_json::Value::Array(items)
}

/// Builds an object value from members with distinct names: collects them
/// into a `serde_json::Map` and wraps it in `Value::Object`.
#[verifier::external_body]
pub(crate) fn value_object(members: Vec<(String, serde_json::Value)>) -> (v: serde_json::Value)
    requires
        distinct_names(members@),
    ensures
        value_model(v) == JsonView::Object(members_map(members@)),
{
    serde_json::Value::Object(members.into_iter().collect())
}

/// Whether no two members have the same name.
pub open spec fn distinct_names(members: Seq<(String, serde_json::Value)>) -> bool {
    forall|i: int, j: int|
        0 <= i < j < members.len() ==> (#[trigger] members[i]).0@ != (#[trigger] members[j]).0@
}

/// The map from each member's name to what its value holds.
pub open spec fn members_map(members: Seq<(String, serde_json::Value)>) -> Map<
    Seq<char>,
    JsonView,
>
    decreases members.len(),
{
    if members.len() == 0 {
        Map::empty()
    } else {
        members_map(members.drop_last()).insert(
            members.last().0@,
            value_model(members.last().1),
        )
    }
}

/// What each of a sequence of values holds.
pub open spec fn models(items: Seq<serde_json::Value>) -> Seq<JsonView> {
    items.map_values(|x: serde_json::Value| value_model(x))
}

/// What a value that may be absent holds.
pub open spec fn model_opt(v: Option<&serde_json::Value>) -> Option<JsonView> {
    match v {
        Some(x) => Some(value_model(*x)),
        None => None,
    }
}

/// The member `key` of a document that may be absent.
pub open spec fn member_of(j: Option<JsonView>, key: Seq<char>) -> Option<JsonView> {
    match j {
        Some(d) => member(d, key),
        None => None,
    }
}

/// The text of a string; the empty text for anything else.
pub open spec fn text_of(j: Option<JsonView>) -> Seq<char> {
    match j {
        Some(JsonView::String(s)) => s,
        _ => Seq::empty(),
    }
}

/// The elements of an array; none for anything else.
pub open spec fn items_of(j: Option<JsonView>) -> Seq<JsonView> {
    match j {
        Some(JsonView::Array(items)) => items,
        _ => Seq::empty(),
    }
}

/// Whether a document is there and is an object.
pub open spec fn is_object(j: Option<JsonView>) -> bool {
    j matches Some(d) && d is Object
}

/// The member `key` of `v`, where `v` is there and is an object that has one.
pub(crate) fn get_member<'a>(v: Option<&'a serde_json::Value>, key: &str) -> (r: Option<&'a serde_json::Value>)
    ensures
        model_opt(r) == member_of(model_opt(v), key@),
{
    match v {
        Some(x) => value_get(x, key),
        None => None,
    }
}

/// The text of `v` where it is a string, the empty text otherwise.
pub(crate) fn text_or_empty(v: Option<&serde_json::Value>) -> (r: String)
    ensures
        r@ == text_of(model_opt(v)),
{
    match v {
        Some(x) => match value_as_str(x) {
            Some(s) => s.to_owned(),
            None => String::new(),
        },
        None => String::new(),
    }
}

/// An object with the one member `name`.
pub(crate) fn object1(name: &str, value: serde_json::Value) -> (v: serde_json::Value)
    ensures
        value_model(v) == JsonView::Object(
            Map::<Seq<char>, JsonView>::empty().insert(name@, value_model(value)),
        ),
{
    let mut members: Vec<(String, serde_json::Value)> = Vec::new();
    members.push((name.to_owned(), value));
    proof {
        assert(members_map(members@.drop_last()) == Map::<Seq<char>, JsonView>::empty());
    }
    value_object(members)
}

/// An object with the two members `name1` and `name2`.
pub(crate) fn object2(
    name1: &str,
    value1: serde_json::Value,
    name2: &str,
    value2: serde_json::Value,
) -> (v: serde_json::Value)
    requires
        name1@ != name2@,
    ensures
        value_model(v) == JsonView::Object(
            Map::<Seq<char>, JsonView>::empty().insert(name1@, value_model(value1)).insert(
                name2@,
                value_model(value2),
            ),
        ),
{
    let mut members: Vec<(String, serde_json::Value)> = Vec::new();
    members.push((name1.to_owned(), value1));
    members.push((name2.to_owned(), value2));
    proof {
        let first = members@.drop_last();
        assert(members_map(first.drop_last()) == Map::<Seq<char>, JsonView>::empty());
        assert(members_map(first) == Map::<Seq<char>, JsonView>::empty().insert(
            name1@,
            value_model(value1),
        ));
    }
    value_object(members)
}

/// An object with the three members `name1`, `name2` and `name3`.
pub(crate) fn object3(
    name1: &str,
    value1: serde_json::Value,
    name2: &str,
    value2: serde_json::Value,
    name3: &str,
    value3: serde_json::Value,
) -> (v: serde_json::Value)
    requires
        name1@ != name2@,
        name1@ != name3@,
        name2@ != name3@,
    ensures
        value_model(v) == JsonView::Object(
            Map::<Seq<char>, JsonView>::empty().insert(name1@, value_model(value1)).insert(
                name2@,
                value_model(value2),
            ).insert(name3@, value_model(value3)),
        ),
{
    let mut members: Vec<(String, serde_json::Value)> = Vec::new();
    members.push((name1.to_owned(), value1));
    members.push((name2.to_owned(), value2));
    members.push((name3.to_owned(), value3));
    proof {
        let two = members@.drop_last();
        let one = two.drop_last();
        assert(members_map(one.drop_last()) == Map::<Seq<char>, JsonView>::empty());
        assert(members_map(two) == members_map(one).insert(name2@, value_model(value2)));
    }
    value_object(members)
}

/// The string values of a sequence of texts.
pub open spec fn string_views(texts: Seq<String>) -> Seq<JsonView> {
    texts.map_values(|t: String| JsonView::String(t@))
}

/// An array of strings, one for each of `texts`, in order.
pub(crate) fn strings_array(texts: &Vec<String>) -> (v: serde_json::Value)
    ensures
        value_model(v) == JsonView::Array(string_views(texts@)),
{
    let mut items: Vec<serde_json::Value> = Vec::new();
    let mut i: usize = 0;
    while i < texts.len()
        invariant
            i <= texts.len(),
            models(items@) == string_views(texts@.take(i as int)),
        decreases texts.len() - i,
    {
        let item = value_string(texts[i].as_str());
        proof {
            assert(models(items@.push(item)) == models(items@).push(value_model(item)));
        }
        items.push(item);
        i = i + 1;
    }
    proof {
        assert(texts@.take(i as int) == texts@);
    }
    value_array(items)
}

/// Whether `v` is there and is an object.
pub(crate) fn holds_object(v: Option<&serde_json::Value>) -> (r: bool)
    ensures
        r == is_object(model_opt(v)),
{
    match v {
        Some(x) => value_is_object(x),
        None => false,
    }
}

} // verus!
