use vstd::prelude::*;

verus! {

/// The text a string option holds.
pub open spec fn opt_text(o: Option<String>) -> Option<Seq<char>> {
    match o {
        Some(s) => Some(s@),
        None => None,
    }
}

/// What `serde_json` reads as the string under `key` of the JSON object
/// written in `text`: absent when the text is not JSON, is not an object, has
/// no such key, or holds something else than a string there.
pub uninterp spec fn json_text_field(text: Seq<char>, key: Seq<char>) -> Option<Seq<char>>;

/// What `serde_json` reads as the unsigned integer under `key` of the JSON
/// object written in `text`.
pub uninterp spec fn json_u64_field(text: Seq<char>, key: Seq<char>) -> Option<u64>;

/// The IEEE 754 bits of what `serde_json` reads as the number under `key` of
/// the JSON object written in `text`.
pub uninterp spec fn json_f64_field_bits(text: Seq<char>, key: Seq<char>) -> Option<u64>;

/// The pretty-printed JSON object whose string members are `values[i]`
/// under `keys[i]`, as `serde_json::to_string_pretty` writes it, or the text
/// of the error it reports.
pub uninterp spec fn json_string_object_pretty(keys: Seq<Seq<char>>, values: Seq<Seq<char>>) -> Result<Seq<char>, Seq<char>>;

/// The one-line JSON object, as `serde_json::to_string` writes it, whose
/// string members are `values[i]` under `keys[i]` and whose member
/// `member_key` is the JSON value written in `member_json`; or the text of the
/// error met in reading `member_json` or in writing the object.
pub uninterp spec fn json_line_with_member(keys: Seq<Seq<char>>, values: Seq<Seq<char>>, member_key: Seq<char>, member_json: Seq<char>) -> Result<Seq<char>, Seq<char>>;

/// The JSON text `text` read by `serde_json::from_str` into a `Value` and
/// written again by `serde_json::to_string`; absent when either fails.
pub uninterp spec fn json_reserialized(text: Seq<char>) -> Option<Seq<char>>;

/// The views of a sequence of strings.
pub open spec fn texts(v: Seq<String>) -> Seq<Seq<char>> {
    v.map_values(|s: String| s@)
}

/// Parses `text` with `serde_json::from_str` into a `Value`, then reads the
/// member `key` with `Value::get` and `Value::as_str`. The contract names
/// the result; nothing more is claimed of it.
#[verifier::external_body]
pub fn read_text_field(text: &str, key: &str) -> (res: Option<String>)
    ensures
        opt_text(res) == json_text_field(text@, key@),
{
    let value: serde_json::Value = serde_json::from_str(text).ok()?;
    value.get(key)?.as_str().map(|s| s.to_string())
}

/// Parses `text` with `serde_json::from_str` into a `Value`, then reads the
/// member `key` with `Value::get` and `Value::as_u64`. The contract names the
/// result; nothing more is claimed of it.
#[verifier::external_body]
pub fn read_u64_field(text: &str, key: &str) -> (res: Option<u64>)
    ensures
        res == json_u64_field(text@, key@),
{
    let value: serde_json::Value = serde_json::from_str(text).ok()?;
    value.get(key)?.as_u64()
}

/// Parses `text` with `serde_json::from_str` into a `Value`, then reads the
/// member `key` with `Value::get` and `Value::as_f64`, and hands back the
/// bits of that number (`to_bits`). The contract names the result;
/// nothing more is claimed of it.
#[verifier::external_body]
pub fn read_f64_field_bits(text: &str, key: &str) -> (res: Option<u64>)
    ensures
        res == json_f64_field_bits(text@, key@),
{
    let value: serde_json::Value = serde_json::from_str(text).ok()?;
    value.get(key)?.as_f64().map(|x| x.to_bits())
}

/// Builds a `serde_json::Value` object whose members are the strings
/// `values[i]` under the names `keys[i]` and writes it with
/// `serde_json::to_string_pretty`; an error is handed back as its text. The
/// contract names the result; nothing more is claimed of it.
#[verifier::external_body]
pub fn write_string_members(keys: &Vec<String>, values: &Vec<String>) -> (res: Result<String, String>)
    requires
        keys@.len() == values@.len(),
    ensures
        match res {
            Ok(s) => json_string_object_pretty(texts(keys@), texts(values@)) == Ok::<Seq<char>, Seq<char>>(s@),
            Err(e) => json_string_object_pretty(texts(keys@), texts(values@)) == Err::<Seq<char>, Seq<char>>(e@),
        },
{
    let members: serde_json::Map<String, serde_json::Value> =
        keys.iter().zip(values.iter()).map(|(k, v)| (k.clone(), serde_json::Value::String(v.clone()))).collect();
    serde_json::to_string_pretty(&serde_json::Value::Object(members)).map_err(|e| e.to_string())
}

/// Builds a `serde_json::Value` object whose members are the strings
/// `values[i]` under the names `keys[i]`, and under `member_key` the value
/// that `serde_json::from_str` reads from `member_json`, and writes it with
/// `serde_json::to_string`; an error of either is handed back as its text.
/// Numbers are read exactly, since the `float_roundtrip` feature is on.
/// The contract names the result; nothing more is claimed of it.
#[verifier::external_body]
pub fn write_line_with_member(keys: &Vec<String>, values: &Vec<String>, member_key: &str, member_json: &str) -> (res: Result<String, String>)
    requires
        keys@.len() == values@.len(),
    ensures
        match res {
            Ok(s) => json_line_with_member(texts(keys@), texts(values@), member_key@, member_json@) == Ok::<Seq<char>, Seq<char>>(s@),
            Err(e) => json_line_with_member(texts(keys@), texts(values@), member_key@, member_json@) == Err::<Seq<char>, Seq<char>>(e@),
        },
{
    let mut members: serde_json::Map<String, serde_json::Value> =
        keys.iter().zip(values.iter()).map(|(k, v)| (k.clone(), serde_json::Value::String(v.clone()))).collect();
    let member: serde_json::Value = serde_json::from_str(member_json).map_err(|e| e.to_string())?;
    members.insert(member_key.to_string(), member);
    serde_json::to_string(&serde_json::Value::Object(members)).map_err(|e| e.to_string())
}

/// Reads `text` into a `serde_json::Value` with `serde_json::from_str` and
/// writes it again with `serde_json::to_string`; nothing when either fails.
/// The contract names the result; nothing more is claimed of it.
#[verifier::external_body]
fn reserialize_json(text: &str) -> (res: Option<String>)
    ensures
        opt_text(res) == json_reserialized(text@),
{
    let value: serde_json::Value = serde_json::from_str(text).ok()?;
    serde_json::to_string(&value).ok()
}

/// The JSON text of a model's information as the engine reported it in
/// `text`: the text read and written again, or `null` when it is not JSON.
pub fn model_info_json(text: &str) -> (res: String)
    ensures
        res@ == match json_reserialized(text@) {
            Some(t) => t,
            None => "null"@,
        },
{
    match reserialize_json(text) {
        Some(t) => t,
        None => String::from_str("null"),
    }
}

} // verus!
