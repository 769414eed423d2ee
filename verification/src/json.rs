//! JSON, as far as the application reads and writes it.

use vstd::prelude::*;

verus! {

/// The strings that serde_json reads out of `text` as a JSON array of
/// strings, or `None` where it rejects the text.
pub uninterp spec fn parsed_text_list(text: Seq<char>) -> Option<Seq<Seq<char>>>;

/// The JSON text that serde_json writes for the list of strings, or `None`
/// where it reports an error.
pub uninterp spec fn text_list_json(list: Seq<Seq<char>>) -> Option<Seq<char>>;

/// Calls `serde_json::from_str` for a `Vec<String>`. Trusted: the result is
/// what serde_json reads out of `text`.
#[verifier::external_body]
pub(crate) fn parse_text_list(text: &str) -> (list: Option<Vec<String>>)
    ensures
        list.deep_view() == parsed_text_list(text@),
{
    match serde_json::from_str::<Vec<String>>(text) {
        Ok(list) => Some(list),
        Err(_) => None,
    }
}

/// Calls `serde_json::to_string` on the list. Trusted: the result is the
/// text that serde_json writes.
#[verifier::external_body]
pub(crate) fn text_list_to_json(list: &Vec<String>) -> (text: Option<String>)
    ensures
        text.deep_view() == text_list_json(list.deep_view()),
{
    match serde_json::to_string(list) {
        Ok(text) => Some(text),
        Err(_) => None,
    }
}

/// A JSON value of serde_json, opaque to the verifier.
#[verifier::external_type_specification]
#[verifier::external_body]
pub struct ExJsonValue(serde_json::Value);

/// What a JSON value holds. Of a number only that it is one.
pub enum JsonData {
    Null,
    Bool(bool),
    Number,
    Text(Seq<char>),
    List(Seq<JsonData>),
    Object(Map<Seq<char>, JsonData>),
}

/// What `value` holds.
pub uninterp spec fn json_data(value: serde_json::Value) -> JsonData;

/// The member of an object under `key`.
pub open spec fn member_of(data: JsonData, key: Seq<char>) -> Option<JsonData> {
    match data {
        JsonData::Object(members) => if members.contains_key(key) {
            Some(members[key])
        } else {
            None
        },
        _ => None,
    }
}

/// The truth value that `data` is, if it is one.
pub open spec fn bool_of(data: JsonData) -> Option<bool> {
    match data {
        JsonData::Bool(b) => Some(b),
        _ => None,
    }
}

/// The string that `data` is, if it is one.
pub open spec fn text_of(data: JsonData) -> Option<Seq<char>> {
    match data {
        JsonData::Text(t) => Some(t),
        _ => None,
    }
}

/// No two of the named values share their name.
pub open spec fn names_distinct(fields: Seq<(String, serde_json::Value)>) -> bool {
    forall|i: int, j: int|
        0 <= i < j < fields.len() ==> (#[trigger] fields[i]).0@ != (#[trigger] fields[j]).0@
}

/// The members that a list of named values makes, each value under its
/// name.
pub open spec fn members_of(fields: Seq<(String, serde_json::Value)>) -> Map<Seq<char>, JsonData>
    decreases fields.len(),
{
    if fields.len() == 0 {
        Map::empty()
    } else {
        members_of(fields.drop_last()).insert(fields.last().0@, json_data(fields.last().1))
    }
}

/// The members of no fields and of one more field.
pub proof fn lemma_members_of_step(fields: Seq<(String, serde_json::Value)>)
    ensures
        fields.len() == 0 ==> members_of(fields) == Map::<Seq<char>, JsonData>::empty(),
        fields.len() > 0 ==> members_of(fields) == members_of(fields.drop_last()).insert(
            fields.last().0@,
            json_data(fields.last().1),
        ),
{
}

/// The members of four fields, written out.
pub proof fn lemma_members_of_four(fields: Seq<(String, serde_json::Value)>)
    requires
        fields.len() == 4,
    ensures
        members_of(fields) == Map::<Seq<char>, JsonData>::empty().insert(
            fields[0].0@,
            json_data(fields[0].1),
        ).insert(fields[1].0@, json_data(fields[1].1)).insert(
            fields[2].0@,
            json_data(fields[2].1),
        ).insert(fields[3].0@, json_data(fields[3].1)),
{
    let three = fields.drop_last();
    let two = three.drop_last();
    let one = two.drop_last();
    lemma_members_of_step(fields);
    lemma_members_of_step(three);
    lemma_members_of_step(two);
    lemma_members_of_step(one);
    lemma_members_of_step(one.drop_last());
}

/// The members of five fields, written out.
pub proof fn lemma_members_of_five(fields: Seq<(String, serde_json::Value)>)
    requires
        fields.len() == 5,
    ensures
        members_of(fields) == Map::<Seq<char>, JsonData>::empty().insert(
            fields[0].0@,
            json_data(fields[0].1),
        ).insert(fields[1].0@, json_data(fields[1].1)).insert(
            fields[2].0@,
            json_data(fields[2].1),
        ).insert(fields[3].0@, json_data(fields[3].1)).insert(
            fields[4].0@,
            json_data(fields[4].1),
        ),
{
    lemma_members_of_step(fields);
    lemma_members_of_four(fields.drop_last());
}

/// Calls `serde_json::Value::get` with a string index. Trusted: an object
/// hands out its member under `key`, and everything else nothing.
#[verifier::external_body]
pub(crate) fn json_member<'a>(value: &'a serde_json::Value, key: &str) -> (found: Option<
    &'a serde_json::Value,
>)
    ensures
        match found {
            Some(member) => member_of(json_data(*value), key@) == Some(json_data(*member)),
            None => member_of(json_data(*value), key@) is None,
        },
{
    value.get(key)
}

/// Calls `serde_json::Value::as_bool`. Trusted: a truth value hands itself
/// out, and everything else nothing.
#[verifier::external_body]
pub(crate) fn json_bool(value: &serde_json::Value) -> (flag: Option<bool>)
    ensures
        flag == bool_of(json_data(*value)),
{
    value.as_bool()
}

/// Calls `serde_json::Value::as_str`. Trusted: a string hands itself out,
/// and everything else nothing.
#[verifier::external_body]
pub(crate) fn json_text<'a>(value: &'a serde_json::Value) -> (text: Option<&'a str>)
    ensures
        match text {
            Some(t) => text_of(json_data(*value)) == Some(t@),
            None => text_of(json_data(*value)) is None,
        },
{
    value.as_str()
}

/// Makes a `serde_json::Value::String`. Trusted: the value is that string.
#[verifier::external_body]
pub(crate) fn json_from_text(text: String) -> (value: serde_json::Value)
    ensures
        json_data(value) == JsonData::Text(text@),
{
    serde_json::Value::String(text)
}

/// Makes a `serde_json::Value::Bool`. Trusted: the value is that truth
/// value.
#[verifier::external_body]
pub(crate) fn json_from_bool(flag: bool) -> (value: serde_json::Value)
    ensures
        json_data(value) == JsonData::Bool(flag),
{
    serde_json::Value::Bool(flag)
}

/// Makes a `serde_json::Value::Object` by collecting the named values into
/// a `serde_json::Map`. Trusted: where no two values share their name, the
/// object holds each value under its name. Of values that share a name
/// nothing is said.
#[verifier::external_body]
pub(crate) fn json_from_members(fields: Vec<(String, serde_json::Value)>) -> (value:
    serde_json::Value)
    ensures
        names_distinct(fields@) ==> json_data(value) == JsonData::Object(members_of(fields@)),
{
    serde_json::Value::Object(fields.into_iter().collect())
}

} // verus!
