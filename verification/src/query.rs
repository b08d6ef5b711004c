use vstd::prelude::*;

use crate::codec::{parse_document, parsed_json, render, rendered};
use crate::error::JpErr;
use crate::nav::{keys_model, nav_model, navigate, object_keys};
use crate::path::{
    dotted_spec, normalize, normalize_spec, reconstruct, segments_spec, split_rest, split_segments,
    to_pointer_char,
};
use crate::value::{JsonModel, JsonValue};

verus! {

/// The value a dotted pattern resolves to within a document: the pattern is
/// normalized into a structural pointer and the pointer's segments are
/// navigated. An effectively empty pattern has no segments and resolves to the
/// whole document.
pub open spec fn resolve_spec(m: JsonModel, pattern: Seq<char>) -> Option<JsonModel> {
    nav_model(m, segments_spec(normalize_spec(pattern)))
}

/// Everything one run prints on success, or the exit code it fails with, as a
/// function of the raw input text, the pattern and the flags.
pub open spec fn pipeline_spec(
    text: Seq<char>,
    pattern: Seq<char>,
    keys: bool,
    pretty: bool,
) -> Result<Seq<char>, int> {
    if text.len() == 0 {
        Err(5)
    } else {
        match parsed_json(text) {
            None => Err(3),
            Some(m) => match resolve_spec(m, pattern) {
                None => Err(4),
                Some(found) => if keys {
                    match keys_model(found) {
                        None => Err(6),
                        Some(km) => Ok(rendered(km, pretty)),
                    }
                } else {
                    Ok(rendered(found, pretty))
                },
            },
        }
    }
}

/// Read the input text into a document tree: empty input and text that is not
/// valid JSON are the two loading failures, kept distinct.
pub fn load_document(text: &str) -> (r: Result<JsonValue, JpErr>)
    ensures
        match r {
            Ok(v) => text@.len() > 0 && parsed_json(text@) == Some(v@),
            Err(e) => match e {
                JpErr::EmptyFileError => text@.len() == 0,
                JpErr::JsonParseError => text@.len() > 0 && parsed_json(text@) is None,
                _ => false,
            },
        },
{
    if text.is_empty() {
        return Err(JpErr::EmptyFileError);
    }
    match parse_document(text) {
        Some(v) => Ok(v),
        None => Err(JpErr::JsonParseError),
    }
}

/// Resolve a dotted pattern within a document and print the result: the found
/// value, or its key array when key listing is asked for. A navigation miss is
/// reported before the key-listing check, and both failures carry the dotted
/// form of the path, reconstructed from the internal pointer.
pub fn run_query(doc: &JsonValue, pattern: &str, keys: bool, pretty: bool) -> (r: Result<
    String,
    JpErr,
>)
    ensures
        match r {
            Ok(out) => {
                &&& resolve_spec(doc@, pattern@) matches Some(found)
                &&& if keys {
                    &&& keys_model(resolve_spec(doc@, pattern@).unwrap()) matches Some(km)
                    &&& out@ == rendered(km, pretty)
                } else {
                    out@ == rendered(resolve_spec(doc@, pattern@).unwrap(), pretty)
                }
            },
            Err(e) => match e {
                JpErr::InvalidQuery(p) => {
                    &&& resolve_spec(doc@, pattern@) is None
                    &&& p@ == dotted_spec(pattern@)
                },
                JpErr::KeyListingOnNonObject(p) => {
                    &&& keys
                    &&& resolve_spec(doc@, pattern@) matches Some(found)
                    &&& keys_model(resolve_spec(doc@, pattern@).unwrap()) is None
                    &&& p@ == dotted_spec(pattern@)
                },
                _ => false,
            },
        },
{
    let pointer = normalize(pattern);
    let segs = split_segments(pointer.as_str());
    match navigate(doc, &segs) {
        None => {
            let dotted = reconstruct(pointer.as_str());
            Err(JpErr::InvalidQuery(dotted))
        },
        Some(found) => {
            if keys {
                match object_keys(found) {
                    Some(key_array) => Ok(render(&key_array, pretty)),
                    None => {
                        let dotted = reconstruct(pointer.as_str());
                        Err(JpErr::KeyListingOnNonObject(dotted))
                    },
                }
            } else {
                Ok(render(found, pretty))
            }
        },
    }
}

/// One whole run: load the document from the input text, resolve the pattern,
/// and print the result. The outcome, success output and failure kind alike,
/// is a function of the text, the pattern and the flags.
pub fn run(text: &str, pattern: &str, keys: bool, pretty: bool) -> (r: Result<String, JpErr>)
    ensures
        match r {
            Ok(out) => pipeline_spec(text@, pattern@, keys, pretty) == Ok::<Seq<char>, int>(out@),
            Err(e) => {
                &&& pipeline_spec(text@, pattern@, keys, pretty) == Err::<Seq<char>, int>(
                    e.code_spec(),
                )
                &&& match e {
                    JpErr::InvalidQuery(p) => p@ == dotted_spec(pattern@),
                    JpErr::KeyListingOnNonObject(p) => p@ == dotted_spec(pattern@),
                    JpErr::EmptyFileError => true,
                    JpErr::JsonParseError => true,
                    _ => false,
                }
            },
        },
{
    match load_document(text) {
        Err(e) => Err(e),
        Ok(doc) => run_query(&doc, pattern, keys, pretty),
    }
}

/// With an empty pattern the result is the whole document, rendered per the
/// pretty flag: the root query skips navigation altogether.
pub proof fn lemma_empty_pattern_whole_document(text: Seq<char>, pretty: bool)
    requires
        text.len() > 0,
        parsed_json(text) is Some,
    ensures
        pipeline_spec(text, Seq::empty(), false, pretty) == Ok::<Seq<char>, int>(
            rendered(parsed_json(text).unwrap(), pretty),
        ),
{
    let p = normalize_spec(Seq::empty());
    assert(Seq::<char>::empty().map_values(|c: char| to_pointer_char(c)) =~= Seq::<char>::empty());
    assert(p =~= seq!['/']);
    reveal_with_fuel(split_rest, 3);
    assert(segments_spec(p) =~= Seq::<Seq<char>>::empty());
    let m = parsed_json(text).unwrap();
    assert(resolve_spec(m, Seq::empty()) == Some(m));
}

/// Empty input fails with the empty-input exit code, whatever the pattern and
/// the flags ask for.
pub proof fn lemma_empty_input_code(pattern: Seq<char>, keys: bool, pretty: bool)
    ensures
        pipeline_spec(Seq::empty(), pattern, keys, pretty) == Err::<Seq<char>, int>(5),
{
}

/// Runs are reproducible: two runs over the same input text, pattern and flags
/// print byte-identical output.
pub proof fn lemma_runs_identical(
    out1: Seq<char>,
    out2: Seq<char>,
    text: Seq<char>,
    pattern: Seq<char>,
    keys: bool,
    pretty: bool,
)
    requires
        pipeline_spec(text, pattern, keys, pretty) == Ok::<Seq<char>, int>(out1),
        pipeline_spec(text, pattern, keys, pretty) == Ok::<Seq<char>, int>(out2),
    ensures
        out1 == out2,
{
}

} // verus!
