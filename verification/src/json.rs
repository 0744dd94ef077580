use vstd::prelude::*;
use vstd::utf8::{decode_utf8, valid_utf8};

verus! {

#[verifier::external_type_specification]
#[verifier::external_body]
pub struct ExJsonValue(serde_json::Value);

#[verifier::external_type_specification]
#[verifier::external_body]
pub struct ExJsonError(serde_json::Error);

#[verifier::external_type_specification]
#[verifier::external_body]
#[verifier::reject_recursive_types(K)]
#[verifier::reject_recursive_types(V)]
pub struct ExJsonMap<K, V>(serde_json::Map<K, V>);

#[verifier::external_type_specification]
#[verifier::external_body]
pub struct ExFromUtf8Error(std::string::FromUtf8Error);

/// What `serde_json::to_string` returns for `value`: the JSON text, or the
/// reason why the value cannot be written.
pub uninterp spec fn json_written(value: serde_json::Value) -> Result<Seq<char>, serde_json::Error>;

/// What `serde_json::from_str` returns for `text` when it reads a
/// `serde_json::Value`: the value, or the reason why the text is no JSON.
pub uninterp spec fn json_parsed(text: Seq<char>) -> Result<serde_json::Value, serde_json::Error>;

/// The message of a `serde_json::Error`, as its `Display` writes it.
pub uninterp spec fn json_error_text(error: serde_json::Error) -> Seq<char>;

/// The keys of a JSON object, in the order in which `keys` walks them.
pub uninterp spec fn json_keys(object: serde_json::Map<String, serde_json::Value>) -> Seq<Seq<char>>;

/// Calls `serde_json::to_string` on a `serde_json::Value`. The result is a
/// function of the value alone, which the contract names `json_written`;
/// nothing is claimed of the text itself.
#[verifier::external_body]
pub(crate) fn write_json(value: &serde_json::Value) -> (r: Result<String, serde_json::Error>)
    ensures
        r is Ok <==> json_written(*value) is Ok,
        r is Ok ==> r->Ok_0@ == json_written(*value)->Ok_0,
        r is Err ==> r->Err_0 == json_written(*value)->Err_0,
{
    serde_json::to_string(value)
}

/// Calls `serde_json::from_str` to read a `serde_json::Value`. The result
/// is a function of the text alone, which the contract names
/// `json_parsed`; nothing is claimed of the value itself.
#[verifier::external_body]
pub(crate) fn parse_json(text: &str) -> (r: Result<serde_json::Value, serde_json::Error>)
    ensures
        r == json_parsed(text@),
{
    serde_json::from_str::<serde_json::Value>(text)
}

/// Writes a `serde_json::Error` through its `Display` impl. The text is a
/// function of the error alone, which the contract names
/// `json_error_text`.
#[verifier::external_body]
pub(crate) fn error_text(error: &serde_json::Error) -> (r: String)
    ensures
        r@ == json_error_text(*error),
{
    format!("{}", error)
}

/// Collects the keys that `serde_json::Map::keys` walks, each as an owned
/// `String`, in the order of the walk.
#[verifier::external_body]
pub(crate) fn object_keys(object: &serde_json::Map<String, serde_json::Value>) -> (r: Vec<String>)
    ensures
        r@.len() == json_keys(*object).len(),
        forall|i: int| 0 <= i < r@.len() ==> (#[trigger] r@[i])@ == json_keys(*object)[i],
{
    object.keys().cloned().collect()
}

/// Calls `String::from_utf8`, which accepts exactly the byte strings that
/// are valid UTF-8 and then holds the text that they encode.
#[verifier::external_body]
pub(crate) fn text_from_utf8(bytes: Vec<u8>) -> (r: Result<String, std::string::FromUtf8Error>)
    ensures
        r is Ok <==> valid_utf8(bytes@),
        r is Ok ==> r->Ok_0@ == decode_utf8(bytes@),
{
    String::from_utf8(bytes)
}

} // verus!
