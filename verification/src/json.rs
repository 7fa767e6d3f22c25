//! JSON output. The encoding of a single string is left to `serde_json`; the
//! brackets, commas and braces around encoded strings are written here.

use crate::text::{join, joined};
use vstd::prelude::*;

verus! {

/// The JSON string literal that `serde_json` writes for a text: the text
/// between double quotes, with the escapes that JSON asks for.
pub uninterp spec fn json_of_text(text: Seq<char>) -> Seq<char>;

/// Encodes one string as a JSON string literal, through
/// `serde_json::to_string`. The output depends on the text alone. By its
/// documentation the call fails only where the value's own `Serialize`
/// decides to fail or a map has keys that are no strings; neither can
/// happen to a string, and the bytes go to a vector in memory, so the
/// contract promises success.
#[verifier::external_body]
pub(crate) fn text_to_json(text: &str) -> (r: Result<String, serde_json::Error>)
    ensures
        match r {
            Ok(encoded) => encoded@ == json_of_text(text@),
            Err(_) => false,
        },
{
    serde_json::to_string(text)
}

/// The JSON string literals of all the items.
pub open spec fn json_of_each(items: Seq<Seq<char>>) -> Seq<Seq<char>> {
    items.map_values(|t: Seq<char>| json_of_text(t))
}

/// A JSON array around elements that are already encoded.
pub open spec fn array_around(encoded: Seq<Seq<char>>) -> Seq<char> {
    "["@ + joined(encoded, ","@) + "]"@
}

/// The compact JSON array of strings for `items`.
pub open spec fn json_of_list(items: Seq<Seq<char>>) -> Seq<char> {
    array_around(json_of_each(items))
}

/// A JSON object with two members, around keys and values that are already
/// encoded.
pub open spec fn object_around(
    key1: Seq<char>,
    value1: Seq<char>,
    key2: Seq<char>,
    value2: Seq<char>,
) -> Seq<char> {
    "{"@ + key1 + ":"@ + value1 + ","@ + key2 + ":"@ + value2 + "}"@
}

/// A JSON object with one member, around a key and a value that are already
/// encoded.
pub open spec fn single_around(key: Seq<char>, value: Seq<char>) -> Seq<char> {
    "{"@ + key + ":"@ + value + "}"@
}

/// Encodes every item as a JSON string literal.
pub fn encode_each(items: &Vec<String>) -> (r: Result<Vec<String>, serde_json::Error>)
    ensures
        r matches Ok(encoded) && encoded.deep_view() == json_of_each(items.deep_view()),
{
    let mut encoded: Vec<String> = Vec::new();
    let mut i: usize = 0;
    while i < items.len()
        invariant
            i <= items.len(),
            encoded.len() == i,
            forall|k: int| 0 <= k < i ==> (#[trigger] encoded@[k])@ == json_of_text(items@[k]@),
        decreases items.len() - i,
    {
        match text_to_json(items[i].as_str()) {
            Ok(one) => {
                encoded.push(one);
            },
            Err(source) => {
                return Err(source);
            },
        }
        i += 1;
    }
    assert(encoded.deep_view() =~= json_of_each(items.deep_view()));
    Ok(encoded)
}

/// Writes a JSON array around elements that are already encoded.
pub fn frame_array(encoded: &Vec<String>) -> (text: String)
    ensures
        text@ == array_around(encoded.deep_view()),
{
    let mut text = "[".to_owned();
    let inner = join(encoded, ",");
    text.append(inner.as_str());
    text.append("]");
    text
}

/// Writes a JSON object with two members around encoded keys and values.
pub fn frame_object(key1: &str, value1: &str, key2: &str, value2: &str) -> (text: String)
    ensures
        text@ == object_around(key1@, value1@, key2@, value2@),
{
    let mut text = "{".to_owned();
    text.append(key1);
    text.append(":");
    text.append(value1);
    text.append(",");
    text.append(key2);
    text.append(":");
    text.append(value2);
    text.append("}");
    text
}

/// Writes a JSON object with one member around an encoded key and value.
pub fn frame_single(key: &str, value: &str) -> (text: String)
    ensures
        text@ == single_around(key@, value@),
{
    let mut text = "{".to_owned();
    text.append(key);
    text.append(":");
    text.append(value);
    text.append("}");
    text
}

/// Writes `items` as a compact JSON array of strings.
pub fn list_to_json(items: &Vec<String>) -> (r: Result<String, serde_json::Error>)
    ensures
        r matches Ok(text) && text@ == json_of_list(items.deep_view()),
{
    match encode_each(items) {
        Ok(encoded) => Ok(frame_array(&encoded)),
        Err(source) => Err(source),
    }
}

} // verus!
