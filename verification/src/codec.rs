use vstd::prelude::*;

use crate::value::{JsonModel, JsonValue};

verus! {

#[verifier::external_type_specification]
#[verifier::external_body]
pub struct ExSerdeValue(serde_json::Value);

/// What parsing yields for a given input text: the model of the document tree
/// when serde_json accepts the text as a JSON document, and nothing otherwise.
/// serde_json's parse result depends on the text alone, so this is a function
/// of the text.
pub uninterp spec fn parsed_json(text: Seq<char>) -> Option<JsonModel>;

/// What serialization prints for a given document model and format flag.
/// serde_json's output depends on the value and the flag alone, so this is a
/// function of the two.
pub uninterp spec fn rendered(m: JsonModel, pretty: bool) -> Seq<char>;

/// Relies on serde_json::from_str: it reads the text into a JSON value tree
/// exactly when it accepts the text as a JSON document, and its result
/// depends on the text alone.
#[verifier::external_body]
pub fn parse_document(text: &str) -> (r: Option<JsonValue>)
    ensures
        r is Some <==> parsed_json(text@) is Some,
        r matches Some(v) ==> parsed_json(text@) == Some(v@),
{
    match serde_json::from_str::<serde_json::Value>(text) {
        Ok(v) => Some(of_serde(v)),
        Err(_) => None,
    }
}

/// Conversion of a parsed serde_json tree into the library's tree, variant by
/// variant; a number is carried over as the text serde_json renders for it.
#[verifier::external_body]
fn of_serde(v: serde_json::Value) -> JsonValue {
    match v {
        serde_json::Value::Null => JsonValue::Null,
        serde_json::Value::Bool(b) => JsonValue::Bool(b),
        serde_json::Value::Number(n) => JsonValue::Num(n.to_string()),
        serde_json::Value::String(s) => JsonValue::Str(s),
        serde_json::Value::Array(items) => JsonValue::Arr(
            items.into_iter().map(of_serde).collect(),
        ),
        serde_json::Value::Object(members) => JsonValue::Obj(
            members.into_iter().map(|(k, child)| (k, of_serde(child))).collect(),
        ),
    }
}

/// Conversion of the library's tree back into a serde_json tree, variant by
/// variant. Number text that serde_json cannot read back becomes null; parsing
/// never produces such text.
#[verifier::external_body]
fn to_serde(v: &JsonValue) -> serde_json::Value {
    match v {
        JsonValue::Null => serde_json::Value::Null,
        JsonValue::Bool(b) => serde_json::Value::Bool(*b),
        JsonValue::Num(s) => serde_json::from_str::<serde_json::Number>(s).map(
            serde_json::Value::Number,
        ).unwrap_or(serde_json::Value::Null),
        JsonValue::Str(s) => serde_json::Value::String(s.clone()),
        JsonValue::Arr(items) => serde_json::Value::Array(items.iter().map(to_serde).collect()),
        JsonValue::Obj(members) => serde_json::Value::Object(
            members.iter().map(|(k, child)| (k.clone(), to_serde(child))).collect(),
        ),
    }
}

/// Relies on serde_json's Display for Value: `{}` prints the compact form and
/// `{:#}` the indented form, each a deterministic function of the value.
#[verifier::external_body]
pub fn render(v: &JsonValue, pretty: bool) -> (r: String)
    ensures
        r@ == rendered(v@, pretty),
{
    let tree = to_serde(v);
    if pretty {
        format!("{:#}", tree)
    } else {
        format!("{}", tree)
    }
}

} // verus!
