//! The JSON values that travel through the bridge, and the calls into
//! serde_json that read and write them.
use vstd::prelude::*;

verus! {

/// serde_json::Value, carried through opaque.
#[verifier::external_type_specification]
#[verifier::external_body]
pub struct ExValue(serde_json::Value);

/// serde_json::Number, carried through opaque.
#[verifier::external_type_specification]
#[verifier::external_body]
pub struct ExNumber(serde_json::Number);

/// serde_json::Error, the failure of a parse or of a serialisation.
#[verifier::external_type_specification]
#[verifier::external_body]
pub struct ExJsonError(serde_json::Error);

/// serde_json::Map, a JSON object's members, carried through opaque.
#[verifier::external_type_specification]
#[verifier::external_body]
#[verifier::reject_recursive_types(K)]
#[verifier::reject_recursive_types(V)]
pub struct ExMap<K, V>(serde_json::Map<K, V>);

/// A lower-case hexadecimal digit.
pub open spec fn hex_digit(d: int) -> char {
    seq!['0', '1', '2', '3', '4', '5', '6', '7', '8', '9', 'a', 'b', 'c', 'd', 'e', 'f'][d]
}

/// How one character is written inside a JSON string: the quote and the
/// backslash behind a backslash, the five common control characters as
/// short escapes, the other control characters as `\u00XX`, every other
/// character as itself.
pub open spec fn escaped_char(c: char) -> Seq<char> {
    if c == '"' {
        seq!['\\', '"']
    } else if c == '\\' {
        seq!['\\', '\\']
    } else if c == '\u{8}' {
        seq!['\\', 'b']
    } else if c == '\t' {
        seq!['\\', 't']
    } else if c == '\n' {
        seq!['\\', 'n']
    } else if c == '\u{c}' {
        seq!['\\', 'f']
    } else if c == '\r' {
        seq!['\\', 'r']
    } else if (c as u32) < 0x20 {
        seq!['\\', 'u', '0', '0', hex_digit(((c as u32) / 16) as int), hex_digit(((c as u32) % 16) as int)]
    } else {
        seq![c]
    }
}

/// The characters of a string, each written as `escaped_char` writes it.
pub open spec fn escaped(s: Seq<char>) -> Seq<char>
    decreases s.len(),
{
    if s.len() == 0 {
        Seq::empty()
    } else {
        escaped(s.drop_last()) + escaped_char(s.last())
    }
}

/// The JSON text of a string: the escaped string between double quotes.
pub open spec fn json_string(s: Seq<char>) -> Seq<char> {
    seq!['"'] + escaped(s) + seq!['"']
}

/// Whether a text holds no line feed.
pub open spec fn single_line(s: Seq<char>) -> bool {
    forall|i: int| 0 <= i < s.len() ==> s[i] != '\n'
}

/// A string written as JSON holds no line feed: a line feed in it is
/// written as `\n`.
pub proof fn json_string_is_single_line(s: Seq<char>)
    ensures
        single_line(json_string(s)),
    decreases s.len(),
{
    if s.len() > 0 {
        json_string_is_single_line(s.drop_last());
        let c = s.last();
        let head = escaped(s.drop_last());
        assert(single_line(escaped_char(c))) by {
            if (c as u32) < 0x20 && c != '\u{8}' && c != '\t' && c != '\n' && c != '\u{c}' && c != '\r' {
                assert(hex_digit(((c as u32) / 16) as int) != '\n');
                assert(hex_digit(((c as u32) % 16) as int) != '\n');
            }
        }
        assert(single_line(head)) by {
            assert forall|i: int| 0 <= i < head.len() implies head[i] != '\n' by {
                assert(head[i] == json_string(s.drop_last())[i + 1]);
            }
        }
        assert(json_string(s) =~= seq!['"'] + (head + escaped_char(c)) + seq!['"']);
    }
}

/// Relies on serde_json::to_string for a `str`: it writes the string between
/// quotes, escaping characters by its fixed table (ser.rs, `ESCAPE` and
/// `write_char_escape`). Serialising a string cannot fail (the documented
/// failures are a failing `Serialize` impl and maps with non-string keys).
#[verifier::external_body]
pub(crate) fn quote(s: &str) -> (r: Result<String, serde_json::Error>)
    ensures
        r is Ok,
        r->Ok_0@ == json_string(s@),
{
    serde_json::to_string(s)
}

/// The outermost layer of a JSON value; what lies below it stays a
/// `serde_json::Value`.
#[derive(Debug)]
pub enum JsonNode {
    Null,
    Bool(bool),
    Number(serde_json::Number),
    Text(String),
    Array(Vec<serde_json::Value>),
    Object(serde_json::Map<String, serde_json::Value>),
}

/// The outermost layer of a value: which variant of serde_json::Value it
/// is, with what that variant holds.
pub uninterp spec fn node_of(v: serde_json::Value) -> JsonNode;

/// The value that serde_json reads from a text that is one JSON value.
pub uninterp spec fn value_of(s: Seq<char>) -> serde_json::Value;

/// What a JSON object holds: each member's value under its name.
pub uninterp spec fn members(m: serde_json::Map<String, serde_json::Value>) -> Map<
    Seq<char>,
    serde_json::Value,
>;

/// The number as a `u64`, when it is a non-negative integer that fits.
pub uninterp spec fn u64_of(n: serde_json::Number) -> Option<u64>;

/// The compact JSON text that serde_json writes for a value.
pub uninterp spec fn json_text(v: serde_json::Value) -> Seq<char>;

/// The value an object member holds, if the object has that member.
pub open spec fn member_value(ms: Map<Seq<char>, serde_json::Value>, key: Seq<char>) -> Option<
    serde_json::Value,
> {
    if ms.contains_key(key) {
        Some(ms[key])
    } else {
        None
    }
}

/// Relies on the variants of serde_json::Value, which `JsonNode` mirrors one
/// for one.
#[verifier::external_body]
pub(crate) fn unpack(v: serde_json::Value) -> (r: JsonNode)
    ensures
        r == node_of(v),
{
    match v {
        serde_json::Value::Null => JsonNode::Null,
        serde_json::Value::Bool(b) => JsonNode::Bool(b),
        serde_json::Value::Number(n) => JsonNode::Number(n),
        serde_json::Value::String(s) => JsonNode::Text(s),
        serde_json::Value::Array(a) => JsonNode::Array(a),
        serde_json::Value::Object(m) => JsonNode::Object(m),
    }
}

/// Relies on the variants of serde_json::Value: the value of the variant
/// that a `JsonNode` names, holding what the node holds.
#[verifier::external_body]
pub(crate) fn pack(n: JsonNode) -> (r: serde_json::Value)
    ensures
        node_of(r) == n,
{
    match n {
        JsonNode::Null => serde_json::Value::Null,
        JsonNode::Bool(b) => serde_json::Value::Bool(b),
        JsonNode::Number(n) => serde_json::Value::Number(n),
        JsonNode::Text(s) => serde_json::Value::String(s),
        JsonNode::Array(a) => serde_json::Value::Array(a),
        JsonNode::Object(m) => serde_json::Value::Object(m),
    }
}

/// Whether serde_json reads a text as one JSON value: standard JSON, with
/// whitespace around it and nesting no deeper than its recursion limit.
pub uninterp spec fn is_json_document(s: Seq<char>) -> bool;

/// Relies on serde_json::from_str::<Value>: it parses the text as one JSON
/// value, and succeeds exactly when serde_json reads it as one; the result
/// depends on the text alone.
#[verifier::external_body]
pub(crate) fn parse(text: &str) -> (r: Result<serde_json::Value, serde_json::Error>)
    ensures
        r is Ok <==> is_json_document(text@),
        r matches Ok(v) ==> v == value_of(text@),
{
    serde_json::from_str(text)
}

/// Relies on serde_json::Map::remove: takes the member under `key` out of
/// the object, if there is one, and leaves the others.
#[verifier::external_body]
pub(crate) fn take_field(m: &mut serde_json::Map<String, serde_json::Value>, key: &str) -> (r: Option<
    serde_json::Value,
>)
    ensures
        r == member_value(members(*old(m)), key@),
        members(*final(m)) == members(*old(m)).remove(key@),
{
    m.remove(key)
}

/// Relies on serde_json::Map::new: an object with no member.
#[verifier::external_body]
pub(crate) fn new_object() -> (r: serde_json::Map<String, serde_json::Value>)
    ensures
        members(r).dom().len() == 0,
        members(r).dom().finite(),
{
    serde_json::Map::new()
}

/// Relies on serde_json::Map::insert: the member under `key` holds `v`
/// afterwards, replacing any earlier one, and the others stay.
#[verifier::external_body]
pub(crate) fn put_member(m: &mut serde_json::Map<String, serde_json::Value>, key: String, v: serde_json::Value)
    ensures
        members(*final(m)) == members(*old(m)).insert(key@, v),
{
    m.insert(key, v);
}

/// A number node as a `u64`, when it is a non-negative integer that fits.
pub open spec fn unsigned_node(n: JsonNode) -> Option<u64> {
    match n {
        JsonNode::Number(k) => u64_of(k),
        _ => None,
    }
}

/// Relies on serde_json's `From<i32>` for Value: a number, which `as_u64`
/// reads back when it is not negative (value/from.rs, number.rs).
#[verifier::external_body]
pub(crate) fn int_value(n: i32) -> (r: serde_json::Value)
    ensures
        node_of(r) is Number,
        unsigned_node(node_of(r)) == if n >= 0 {
            Some(n as u64)
        } else {
            None::<u64>
        },
{
    serde_json::Value::from(n)
}

/// Relies on serde_json::to_string for a Value: its compact text, which
/// holds no line feed (the compact formatter writes no whitespace, and a
/// line feed inside a string is escaped). Writing a Value cannot fail: its
/// object keys are strings.
#[verifier::external_body]
pub(crate) fn value_text(v: &serde_json::Value) -> (r: Result<String, serde_json::Error>)
    ensures
        r is Ok,
        r->Ok_0@ == json_text(*v),
        single_line(r->Ok_0@),
{
    serde_json::to_string(v)
}

/// Relies on serde_json::Number::as_u64: the number as a `u64` when it is a
/// non-negative integer that fits, else none.
pub assume_specification[ serde_json::Number::as_u64 ](n: &serde_json::Number) -> (r: Option<u64>)
    ensures
        r == u64_of(*n),
;

} // verus!
