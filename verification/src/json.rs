//! JSON objects, as the dashboards send them.
//!
//! Objects and values are those of `serde_json`. Contracts speak of what a value holds,
//! a tree, and of the text that an object is written as.

use vstd::prelude::*;

use crate::text;

verus! {

/// What a JSON value holds.
pub enum Json {
    Null,
    Flag(bool),
    Number(nat),
    Text(Seq<char>),
    List(Seq<Json>),
    Object(Map<Seq<char>, Json>),
}

/// Declares `serde_json::Value`, which is opaque here.
#[verifier::external_type_specification]
#[verifier::external_body]
pub struct ExValue(serde_json::Value);

/// Declares `serde_json::Map`, which is opaque here.
#[verifier::external_type_specification]
#[verifier::external_body]
#[verifier::reject_recursive_types(K)]
#[verifier::reject_recursive_types(V)]
pub struct ExObject<K, V>(serde_json::Map<K, V>);

/// What a `serde_json::Value` holds.
pub uninterp spec fn tree(value: serde_json::Value) -> Json;

/// The members of an object.
pub uninterp spec fn members(object: serde_json::Map<String, serde_json::Value>) -> Map<Seq<char>, Json>;

/// The text that `serde_json::to_string` gives for an object with these members.
pub uninterp spec fn json_text(members: Map<Seq<char>, Json>) -> Seq<char>;

/// No members.
pub open spec fn no_members() -> Map<Seq<char>, Json> {
    Map::empty()
}

/// Calls `serde_json::Map::new`, which makes an object without members.
#[verifier::external_body]
pub(crate) fn object() -> (r: serde_json::Map<String, serde_json::Value>)
    ensures
        members(r) == no_members(),
{
    serde_json::Map::new()
}

/// Calls `serde_json::Map::insert`, which sets one member and leaves the others.
#[verifier::external_body]
pub(crate) fn put(
    object: &mut serde_json::Map<String, serde_json::Value>,
    key: &str,
    value: serde_json::Value,
)
    ensures
        members(*final(object)) == members(*old(object)).insert(key@, tree(value)),
{
    object.insert(key.to_string(), value);
}

/// Calls `serde_json::Value::from` on text, which gives a string.
#[verifier::external_body]
pub(crate) fn text_value(text: &str) -> (r: serde_json::Value)
    ensures
        tree(r) == Json::Text(text@),
{
    serde_json::Value::from(text)
}

/// Calls `serde_json::Value::from` on a number, which gives that number.
#[verifier::external_body]
pub(crate) fn number_value(number: u64) -> (r: serde_json::Value)
    ensures
        tree(r) == Json::Number(number as nat),
{
    serde_json::Value::from(number)
}

/// Calls `serde_json::Value::from` on a flag, which gives `true` or `false`.
#[verifier::external_body]
pub(crate) fn flag_value(flag: bool) -> (r: serde_json::Value)
    ensures
        tree(r) == Json::Flag(flag),
{
    serde_json::Value::from(flag)
}

/// Calls `serde_json::Value::from` on the unit, which gives `null`.
#[verifier::external_body]
pub(crate) fn null_value() -> (r: serde_json::Value)
    ensures
        tree(r) == Json::Null,
{
    serde_json::Value::from(())
}

/// What each of several values holds.
pub open spec fn trees(values: Seq<serde_json::Value>) -> Seq<Json> {
    values.map_values(|v: serde_json::Value| tree(v))
}

/// Calls `serde_json::Value::from` on a list of values, which gives an array of them.
#[verifier::external_body]
pub(crate) fn list_value(values: Vec<serde_json::Value>) -> (r: serde_json::Value)
    ensures
        tree(r) == Json::List(trees(values@)),
{
    serde_json::Value::from(values)
}

/// Calls `serde_json::Value::from` on an object, which gives the object as a value.
#[verifier::external_body]
pub(crate) fn object_value(object: serde_json::Map<String, serde_json::Value>) -> (r: serde_json::Value)
    ensures
        tree(r) == Json::Object(members(object)),
{
    serde_json::Value::from(object)
}

/// Calls `serde_json::to_string` on an object. It cannot fail: a member's name is a string,
/// and every value can be written. The text depends on the members alone, whatever the
/// order in which they were set.
#[verifier::external_body]
pub(crate) fn to_text(object: &serde_json::Map<String, serde_json::Value>) -> (r: Option<String>)
    ensures
        match r {
            Some(text) => text@ == json_text(members(*object)),
            None => false,
        },
{
    serde_json::to_string(object).ok()
}

/// The value of text that may be missing.
pub open spec fn text_or_null(text: Option<Seq<char>>) -> Json {
    match text {
        Some(t) => Json::Text(t),
        None => Json::Null,
    }
}

/// Members with one more, where there is text for it.
pub open spec fn with_text(
    members: Map<Seq<char>, Json>,
    key: Seq<char>,
    text: Option<Seq<char>>,
) -> Map<Seq<char>, Json> {
    match text {
        Some(t) => members.insert(key, Json::Text(t)),
        None => members,
    }
}

/// Sets a member to text.
pub fn put_text(object: &mut serde_json::Map<String, serde_json::Value>, key: &str, text: &str)
    ensures
        members(*final(object)) == members(*old(object)).insert(key@, Json::Text(text@)),
{
    let value = text_value(text);
    put(object, key, value);
}

/// Sets a member to a number.
pub fn put_number(object: &mut serde_json::Map<String, serde_json::Value>, key: &str, number: u64)
    ensures
        members(*final(object)) == members(*old(object)).insert(key@, Json::Number(number as nat)),
{
    let value = number_value(number);
    put(object, key, value);
}

/// Sets a member to a flag.
pub fn put_flag(object: &mut serde_json::Map<String, serde_json::Value>, key: &str, flag: bool)
    ensures
        members(*final(object)) == members(*old(object)).insert(key@, Json::Flag(flag)),
{
    let value = flag_value(flag);
    put(object, key, value);
}

/// Sets a member to text where there is text, and leaves the object as it is otherwise.
pub fn put_some_text(
    object: &mut serde_json::Map<String, serde_json::Value>,
    key: &str,
    text: &Option<String>,
)
    ensures
        members(*final(object)) == with_text(members(*old(object)), key@, text::opt_view(*text)),
{
    match text {
        Some(t) => {
            put_text(object, key, t.as_str());
        },
        None => {},
    }
}

/// Sets a member to text where there is text, and to null otherwise.
pub fn put_text_or_null(
    object: &mut serde_json::Map<String, serde_json::Value>,
    key: &str,
    text: &Option<String>,
)
    ensures
        members(*final(object)) == members(*old(object)).insert(
            key@,
            text_or_null(text::opt_view(*text)),
        ),
{
    match text {
        Some(t) => {
            put_text(object, key, t.as_str());
        },
        None => {
            let value = null_value();
            put(object, key, value);
        },
    }
}

/// Members with one more, where there is a number for it.
pub open spec fn with_number(
    members: Map<Seq<char>, Json>,
    key: Seq<char>,
    number: Option<nat>,
) -> Map<Seq<char>, Json> {
    match number {
        Some(n) => members.insert(key, Json::Number(n)),
        None => members,
    }
}

pub open spec fn opt_ms(n: Option<u64>) -> Option<nat> {
    match n {
        Some(n) => Some(n as nat),
        None => None,
    }
}

/// The value of a number that may be missing.
pub open spec fn number_or_null(number: Option<nat>) -> Json {
    match number {
        Some(n) => Json::Number(n),
        None => Json::Null,
    }
}

/// Sets a member to a number where there is one, and to null otherwise.
pub fn put_number_or_null(
    object: &mut serde_json::Map<String, serde_json::Value>,
    key: &str,
    number: Option<u64>,
)
    ensures
        members(*final(object)) == members(*old(object)).insert(
            key@,
            number_or_null(opt_ms(number)),
        ),
{
    match number {
        Some(n) => {
            put_number(object, key, n);
        },
        None => {
            let value = null_value();
            put(object, key, value);
        },
    }
}

/// The values of several lines.
pub open spec fn line_values(lines: Seq<Seq<char>>) -> Seq<Json> {
    lines.map_values(|l: Seq<char>| Json::Text(l))
}

/// Writes lines as a value.
pub fn lines_value(lines: &[String]) -> (r: serde_json::Value)
    ensures
        tree(r) == Json::List(line_values(text::views(lines@))),
{
    let mut out: Vec<serde_json::Value> = Vec::new();
    let total: usize = lines.len();
    let mut i: usize = 0;
    while i < total
        invariant
            i <= total,
            total == lines@.len(),
            trees(out@) == line_values(text::views(lines@.take(i as int))),
        decreases total - i,
    {
        let value = text_value(lines[i].as_str());
        let ghost before = out@;
        out.push(value);
        proof {
            assert(trees(out@) =~= trees(before).push(tree(value)));
            assert(line_values(text::views(lines@.take(i + 1))) =~= line_values(
                text::views(lines@.take(i as int)),
            ).push(Json::Text(lines@[i as int]@)));
        }
        i = i + 1;
    }
    assert(lines@.take(i as int) =~= lines@);
    list_value(out)
}

/// A text that is there is a member of its own name, and changes no other member.
pub proof fn lemma_with_text(m: Map<Seq<char>, Json>, key: Seq<char>, text: Option<Seq<char>>)
    ensures
        forall|k: Seq<char>| #[trigger]
            with_text(m, key, text).dom().contains(k) <==> m.dom().contains(k) || (k == key
                && text is Some),
        forall|k: Seq<char>| k != key ==> #[trigger] with_text(m, key, text)[k] == m[k],
        text matches Some(t) ==> with_text(m, key, text)[key] == Json::Text(t),
{
}

/// A number that is there is a member of its own name, and changes no other member.
pub proof fn lemma_with_number(m: Map<Seq<char>, Json>, key: Seq<char>, number: Option<nat>)
    ensures
        forall|k: Seq<char>| #[trigger]
            with_number(m, key, number).dom().contains(k) <==> m.dom().contains(k) || (k == key
                && number is Some),
        forall|k: Seq<char>| k != key ==> #[trigger] with_number(m, key, number)[k] == m[k],
        number matches Some(n) ==> with_number(m, key, number)[key] == Json::Number(n),
{
}

} // verus!
