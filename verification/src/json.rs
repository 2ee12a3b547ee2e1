//! A plain representation of response bodies.
//!
//! The hub answers with JSON.  Decoding the text is `serde_json`'s work:
//! [`body_of_text`] is the trusted decode step, and what it returns on a
//! given text has the name [`decoded_of`], so that the response functions
//! can state their result exactly.  Every decision about the decoded data —
//! which fields an endpoint needs, what shape they must have, how a missing
//! address is read — is made on the plain representation and is verified.
//!
//! The endpoints only ever read flat shapes: an object whose fields are
//! scalars, or an array of such objects.  [`Body`] captures exactly that; a
//! field holding a nested array or object is kept as
//! [`FieldValue::Composite`], which no endpoint accepts, and a body of any
//! other shape is [`Body::Other`].

use vstd::prelude::*;

verus! {

/// One field's value inside a decoded JSON object.
#[derive(Debug, PartialEq, Eq)]
pub enum FieldValue {
    /// JSON `null`.
    Null,
    /// A JSON boolean.
    Bool(bool),
    /// A JSON number that is an integer fitting in `i64`.
    Int(i64),
    /// A JSON number of any other kind (fractional or out of range).
    OtherNumber,
    /// A JSON string.
    Text(String),
    /// A nested array or object; no endpoint reads one.
    Composite,
}

/// A decoded response body, flattened to what the endpoints read.
#[derive(Debug, PartialEq, Eq)]
pub enum Body {
    /// A JSON object: its fields in decoded order.
    Obj(Vec<(String, FieldValue)>),
    /// A JSON array whose elements are all objects: their fields, in order.
    List(Vec<Vec<(String, FieldValue)>>),
    /// Anything else (not valid JSON, a bare scalar, a mixed array, ...).
    Other,
}

/// The value of the first field named `name`, if any.
pub open spec fn field_of(fs: Seq<(String, FieldValue)>, name: Seq<char>) -> Option<FieldValue>
    decreases fs.len(),
{
    if fs.len() == 0 {
        None
    } else if fs[0].0@ == name {
        Some(fs[0].1)
    } else {
        field_of(fs.drop_first(), name)
    }
}

/// Find the first field named `name`; the index returned designates exactly
/// the field that [`field_of`] selects.
pub fn lookup_field(fields: &Vec<(String, FieldValue)>, name: &String) -> (r: Option<usize>)
    ensures
        match r {
            Some(i) => i < fields@.len() && fields@[i as int].0@ == name@ && field_of(
                fields@,
                name@,
            ) == Some(fields@[i as int].1),
            None => field_of(fields@, name@) is None,
        },
{
    proof {
        assert(fields@.skip(0) =~= fields@);
    }
    let mut i: usize = 0;
    while i < fields.len()
        invariant
            i <= fields@.len(),
            field_of(fields@, name@) == field_of(fields@.skip(i as int), name@),
        decreases fields@.len() - i,
    {
        proof {
            assert(fields@.skip(i as int).len() == fields@.len() - i);
            assert(fields@.skip(i as int)[0] == fields@[i as int]);
        }
        if fields[i].0.eq(name) {
            proof {
                assert(field_of(fields@.skip(i as int), name@) == Some(fields@[i as int].1));
            }
            return Some(i);
        }
        proof {
            assert(field_of(fields@.skip(i as int), name@) == field_of(
                fields@.skip(i as int).drop_first(),
                name@,
            ));
            assert(fields@.skip(i as int).drop_first() =~= fields@.skip(i as int + 1));
        }
        i = i + 1;
    }
    proof {
        assert(fields@.skip(i as int).len() == 0);
    }
    None
}

/// The [`Body`] that decoding a given response text yields.  Decoding is a
/// function of the text alone: `serde_json::from_str` under default features
/// parses deterministically (a `BTreeMap`-backed object representation, no
/// environment, no randomness), and the flattening below it reshapes the
/// parsed tree value by value.  The contracts of the response functions
/// speak of the decoded body through this name.
pub uninterp spec fn decoded_of(text: Seq<char>) -> Body;

/// Decode a response body: [`decoded_of`] the text.
///
/// Relies on `serde_json::from_str`: text the parser rejects decodes to
/// [`Body::Other`]; a parsed tree is flattened by the helpers below, which
/// read it through the trusted conversions at the bottom of this module.
#[verifier::external_body]
pub fn body_of_text(text: &str) -> (b: Body)
    ensures
        b == decoded_of(text@),
{
    match serde_json::from_str::<serde_json::Value>(text) {
        Err(_) => Body::Other,
        Ok(v) => match value_node(v) {
            RawNode::Obj(m) => Body::Obj(fields_of_entries(map_entries(m))),
            RawNode::List(elems) => list_body_of_values(elems),
            _ => Body::Other,
        },
    }
}

/// Flatten an array of parsed values: a [`Body::List`] when every element is
/// an object, [`Body::Other`] otherwise.
fn list_body_of_values(elems: Vec<serde_json::Value>) -> (b: Body)
    ensures
        b is List || b is Other,
{
    let mut elems = elems;
    let mut objs: Vec<Vec<(String, FieldValue)>> = Vec::new();
    while elems.len() > 0
        decreases elems@.len(),
    {
        let v = elems.remove(0);
        match value_node(v) {
            RawNode::Obj(m) => objs.push(fields_of_entries(map_entries(m))),
            _ => {
                return Body::Other;
            },
        }
    }
    Body::List(objs)
}

/// Flatten one object's entries, keeping the field names and order.
fn fields_of_entries(entries: Vec<(String, serde_json::Value)>) -> (r: Vec<(String, FieldValue)>)
    ensures
        r@.len() == entries@.len(),
        forall|i: int| 0 <= i < r@.len() ==> r@[i].0 == entries@[i].0,
{
    let ghost orig = entries@;
    let mut entries = entries;
    let mut out: Vec<(String, FieldValue)> = Vec::new();
    while entries.len() > 0
        invariant
            out@.len() + entries@.len() == orig.len(),
            entries@ =~= orig.skip(out@.len() as int),
            forall|i: int| 0 <= i < out@.len() ==> out@[i].0 == orig[i].0,
        decreases entries@.len(),
    {
        proof {
            assert(entries@[0] == orig[out@.len() as int]);
        }
        let (name, v) = entries.remove(0);
        out.push((name, field_value_of_node(value_node(v))));
        proof {
            assert(entries@ =~= orig.skip(out@.len() as int));
        }
    }
    out
}

/// Flatten one parsed node to a field value.
fn field_value_of_node(n: RawNode) -> (r: FieldValue)
    ensures
        n is Null ==> r == FieldValue::Null,
        n matches RawNode::Bool(b) ==> r == FieldValue::Bool(b),
        n matches RawNode::Text(s) ==> r == FieldValue::Text(s),
        n is List || n is Obj ==> r == FieldValue::Composite,
        n is Num ==> r is Int || r is OtherNumber,
{
    match n {
        RawNode::Null => FieldValue::Null,
        RawNode::Bool(b) => FieldValue::Bool(b),
        RawNode::Num(number) => match number_as_i64(&number) {
            Some(i) => FieldValue::Int(i),
            None => FieldValue::OtherNumber,
        },
        RawNode::Text(s) => FieldValue::Text(s),
        RawNode::List(_) => FieldValue::Composite,
        RawNode::Obj(_) => FieldValue::Composite,
    }
}

/// One level of a parsed JSON tree, with the children still opaque.
enum RawNode {
    Null,
    Bool(bool),
    Num(serde_json::Number),
    Text(String),
    List(Vec<serde_json::Value>),
    Obj(serde_json::Map<String, serde_json::Value>),
}

#[verifier::external_type_specification]
#[verifier::external_body]
pub struct ExValue(serde_json::Value);

#[verifier::external_type_specification]
#[verifier::external_body]
pub struct ExNumber(serde_json::Number);

#[verifier::external_type_specification]
#[verifier::external_body]
#[verifier::reject_recursive_types(K)]
#[verifier::reject_recursive_types(V)]
pub struct ExMap<K, V>(serde_json::Map<K, V>);

/// Relies on the variants of `serde_json::Value`: tells them apart, moving
/// each variant's payload across unchanged.
#[verifier::external_body]
fn value_node(v: serde_json::Value) -> (r: RawNode) {
    match v {
        serde_json::Value::Null => RawNode::Null,
        serde_json::Value::Bool(b) => RawNode::Bool(b),
        serde_json::Value::Number(n) => RawNode::Num(n),
        serde_json::Value::String(s) => RawNode::Text(s),
        serde_json::Value::Array(a) => RawNode::List(a),
        serde_json::Value::Object(m) => RawNode::Obj(m),
    }
}

/// Relies on `serde_json::Map::into_iter`: hands the object's entries out as
/// name/value pairs.
#[verifier::external_body]
fn map_entries(m: serde_json::Map<String, serde_json::Value>) -> (r: Vec<
    (String, serde_json::Value),
>) {
    m.into_iter().collect()
}

/// Relies on `serde_json::Number::as_i64`: the numeric value when the number
/// is an integer representable in `i64`, and `None` otherwise.
#[verifier::external_body]
fn number_as_i64(n: &serde_json::Number) -> (r: Option<i64>) {
    n.as_i64()
}

} // verus!
