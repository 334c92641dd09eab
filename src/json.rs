use vstd::prelude::*;
use vstd::string::StringExecFns;

verus! {

/// A JSON number as the decoders read it: its value as a signed 64-bit
/// integer, where it is one, and its value as a 64-bit IEEE-754 float,
/// held as the float's bit pattern.
#[derive(Clone, Copy, Debug, PartialEq, Eq, Structural)]
pub struct JsonNumber {
    pub int: Option<i64>,
    pub float_bits: Option<u64>,
}

/// A JSON document. An object keeps its members in the order the parser
/// hands them over.
#[derive(Debug)]
pub enum Json {
    Null,
    Bool(bool),
    Number(JsonNumber),
    Str(String),
    Array(Vec<Json>),
    Object(Vec<(String, Json)>),
}

/// serde_json's document tree, carried through opaquely.
#[verifier::external_type_specification]
#[verifier::external_body]
pub struct ExValue(serde_json::Value);

/// The document that serde_json reads from a text, or none where the text is
/// not JSON.
pub uninterp spec fn json_of_text(text: Seq<char>) -> Option<Json>;

/// Relies on serde_json::from_str into serde_json::Value: it reads a whole
/// JSON text, or fails. The tree it returns is carried over node for node.
#[verifier::external_body]
fn read_json_text(text: &str) -> (r: Option<Json>)
    ensures
        r == json_of_text(text@),
{
    serde_json::from_str::<serde_json::Value>(text).ok().map(json_from_value)
}

/// Parses a JSON text into a document; none where the text is not JSON.
pub fn parse_json(text: &str) -> (r: Option<Json>)
    ensures
        r == json_of_text(text@),
{
    read_json_text(text)
}

/// Carries a serde_json tree over into a `Json`, node for node; a number
/// keeps what serde_json's `Number::as_i64` and `Number::as_f64` give.
#[verifier::external_body]
fn json_from_value(v: serde_json::Value) -> Json {
    match v {
        serde_json::Value::Null => Json::Null,
        serde_json::Value::Bool(b) => Json::Bool(b),
        serde_json::Value::Number(n) => Json::Number(
            JsonNumber { int: n.as_i64(), float_bits: n.as_f64().map(|x| x.to_bits()) },
        ),
        serde_json::Value::String(s) => Json::Str(s),
        serde_json::Value::Array(a) => Json::Array(a.into_iter().map(json_from_value).collect()),
        serde_json::Value::Object(o) => Json::Object(
            o.into_iter().map(|(k, x)| (k, json_from_value(x))).collect(),
        ),
    }
}

/// The value of the first member of `members` whose key is `key`.
pub open spec fn member(members: Seq<(String, Json)>, key: Seq<char>) -> Option<Json>
    decreases members.len(),
{
    if members.len() == 0 {
        None
    } else if members[0].0@ == key {
        Some(members[0].1)
    } else {
        member(members.drop_first(), key)
    }
}

/// Whether a string holds exactly the characters of `lit`.
pub fn text_is(s: &String, lit: &str) -> (r: bool)
    ensures
        r == (s@ == lit@),
{
    let t = String::from_str(lit);
    s.eq(&t)
}

/// Looks up the first member of `members` whose key is `key`.
pub fn get_member<'a>(members: &'a Vec<(String, Json)>, key: &str) -> (r: Option<&'a Json>)
    ensures
        match r {
            Some(v) => member(members@, key@) == Some(*v),
            None => member(members@, key@) is None,
        },
{
    let mut i: usize = 0;
    assert(members@.skip(0) =~= members@);
    while i < members.len()
        invariant
            i <= members@.len(),
            member(members@, key@) == member(members@.skip(i as int), key@),
        decreases members.len() - i,
    {
        let ghost rest = members@.skip(i as int);
        assert(rest.drop_first() =~= members@.skip(i + 1));
        if text_is(&members[i].0, key) {
            return Some(&members[i].1);
        }
        i = i + 1;
    }
    assert(members@.skip(i as int).len() == 0);
    None
}

} // verus!
