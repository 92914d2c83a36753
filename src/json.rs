use vstd::prelude::*;

verus! {

#[verifier::external_type_specification]
#[verifier::external_body]
pub struct ExValue(serde_json::Value);

#[verifier::external_type_specification]
#[verifier::external_body]
pub struct ExNumber(serde_json::Number);

/// A JSON value held as plain data.
#[derive(Debug)]
pub enum JsonValue {
    Null,
    Bool(bool),
    /// A non-negative integer that fits in 64 bits.
    Number(u64),
    /// Any other number (negative or fractional), kept as it was read.
    OtherNumber(serde_json::Number),
    Str(String),
    Array(Vec<JsonValue>),
    /// The members of an object, in the order the JSON library keeps them.
    Object(Vec<(String, JsonValue)>),
}

/// The value that serde_json reads from `text`, if `text` is JSON.
pub uninterp spec fn json_of(text: Seq<char>) -> Option<JsonValue>;

/// The compact JSON text that serde_json writes for `v`.
pub uninterp spec fn json_text_of(v: JsonValue) -> Seq<char>;

/// Moves a serde_json value into plain data, one variant for one variant.
#[verifier::external_body]
fn plain_of(v: serde_json::Value) -> JsonValue {
    match v {
        serde_json::Value::Null => JsonValue::Null,
        serde_json::Value::Bool(b) => JsonValue::Bool(b),
        serde_json::Value::Number(n) => match n.as_u64() {
            Some(k) => JsonValue::Number(k),
            None => JsonValue::OtherNumber(n),
        },
        serde_json::Value::String(s) => JsonValue::Str(s),
        serde_json::Value::Array(a) => JsonValue::Array(a.into_iter().map(plain_of).collect()),
        serde_json::Value::Object(m) => JsonValue::Object(
            m.into_iter().map(|(k, x)| (k, plain_of(x))).collect(),
        ),
    }
}

/// Moves plain data into a serde_json value, one variant for one variant.
#[verifier::external_body]
fn value_of(v: &JsonValue) -> serde_json::Value {
    match v {
        JsonValue::Null => serde_json::Value::Null,
        JsonValue::Bool(b) => serde_json::Value::Bool(*b),
        JsonValue::Number(k) => serde_json::Value::Number(serde_json::Number::from(*k)),
        JsonValue::OtherNumber(n) => serde_json::Value::Number(n.clone()),
        JsonValue::Str(s) => serde_json::Value::String(s.clone()),
        JsonValue::Array(a) => serde_json::Value::Array(a.iter().map(value_of).collect()),
        JsonValue::Object(m) => serde_json::Value::Object(
            m.iter().map(|(k, x)| (k.clone(), value_of(x))).collect(),
        ),
    }
}

/// Relies on `serde_json::from_str` into `serde_json::Value`: the value read
/// depends on the text alone; `None` where the text is not JSON.
#[verifier::external_body]
pub(crate) fn parse_json(text: &str) -> (r: Option<JsonValue>)
    ensures
        r == json_of(text@),
{
    serde_json::from_str::<serde_json::Value>(text).ok().map(plain_of)
}

/// Relies on serde_json's `Display for Value`: the compact JSON text of `v`,
/// which depends on `v` alone.
#[verifier::external_body]
pub(crate) fn json_text(v: &JsonValue) -> (r: String)
    ensures
        r@ == json_text_of(*v),
{
    value_of(v).to_string()
}

/// The value of the first member of `members` named `key`.
pub open spec fn member_in(members: Seq<(String, JsonValue)>, key: Seq<char>) -> Option<JsonValue>
    decreases members.len(),
{
    if members.len() == 0 {
        None
    } else if members[0].0@ == key {
        Some(members[0].1)
    } else {
        member_in(members.drop_first(), key)
    }
}

/// The member of an object named `key`; `None` for a value that is not an
/// object or has no such member.
pub open spec fn spec_member(v: JsonValue, key: Seq<char>) -> Option<JsonValue> {
    match v {
        JsonValue::Object(members) => member_in(members@, key),
        _ => None,
    }
}

/// The member of an object named `key`, if it is an object that has one.
pub fn member<'a>(v: &'a JsonValue, key: &str) -> (r: Option<&'a JsonValue>)
    ensures
        r is None <==> spec_member(*v, key@) is None,
        r matches Some(x) ==> spec_member(*v, key@) == Some(*x),
{
    match v {
        JsonValue::Object(members) => {
            let mut i: usize = 0;
            assert(members@.subrange(0, members@.len() as int) =~= members@);
            while i < members.len()
                invariant
                    spec_member(*v, key@) == member_in(members@, key@),
                    i <= members@.len(),
                    member_in(members@, key@) == member_in(
                        members@.subrange(i as int, members@.len() as int),
                        key@,
                    ),
                decreases members@.len() - i,
            {
                let ghost rest = members@.subrange(i as int, members@.len() as int);
                assert(rest.drop_first() =~= members@.subrange(i + 1, members@.len() as int));
                assert(rest[0] == members@[i as int]);
                let name = members[i].0.as_str();
                if crate::location::same_text(name, key) {
                    assert(rest[0].0@ == key@);
                    assert(member_in(rest, key@) == Some(rest[0].1));
                    return Some(&members[i].1);
                }
                i += 1;
            }
            assert(members@.subrange(i as int, members@.len() as int).len() == 0);
            None
        },
        _ => None,
    }
}

} // verus!
