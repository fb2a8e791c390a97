use vstd::prelude::*;

verus! {

/// What the handler reads of a JSON document: a bare string, an object given
/// as its members in the parser's order, each with its value where that value
/// is a string, or any other value.
#[derive(Clone, Debug, PartialEq, Eq)]
pub enum JsonDoc {
    Text(String),
    Object(Vec<(String, Option<String>)>),
    Other,
}

/// The document that serde_json reads from a text, in the model above; `None`
/// where the text is not JSON.
pub uninterp spec fn json_doc_of(text: Seq<char>) -> Option<JsonDoc>;

/// The JSON string literal (quotes and escapes) that serde_json writes for a
/// text; `None` where the serializer reports an error.
pub uninterp spec fn json_string_of(text: Seq<char>) -> Option<Seq<char>>;

/// Relies on serde_json::from_str into serde_json::Value: the parsed document,
/// or the parser's error message.
#[verifier::external_body]
pub(crate) fn parse_json_doc(text: &str) -> (r: Result<JsonDoc, String>)
    ensures
        match r {
            Ok(d) => json_doc_of(text@) == Some(d),
            Err(_) => json_doc_of(text@) is None,
        },
{
    match serde_json::from_str::<serde_json::Value>(text) {
        Ok(serde_json::Value::String(s)) => Ok(JsonDoc::Text(s)),
        Ok(serde_json::Value::Object(m)) => Ok(JsonDoc::Object(
            m.into_iter().map(|(k, v)| (k, v.as_str().map(String::from))).collect(),
        )),
        Ok(_) => Ok(JsonDoc::Other),
        Err(e) => Err(e.to_string()),
    }
}

/// Relies on serde_json::to_string on a `str`: the quoted and escaped literal.
#[verifier::external_body]
pub(crate) fn encode_json_string(text: &str) -> (r: Option<String>)
    ensures
        match r {
            Some(t) => json_string_of(text@) == Some(t@),
            None => json_string_of(text@) is None,
        },
{
    serde_json::to_string(text).ok()
}

/// The string value of the first member named `key`, if that member exists.
pub open spec fn member_from(
    fields: Seq<(String, Option<String>)>,
    key: Seq<char>,
    i: int,
) -> Option<Option<String>>
    decreases fields.len() - i,
{
    if i < 0 || i >= fields.len() {
        None
    } else if fields[i].0@ == key {
        Some(fields[i].1)
    } else {
        member_from(fields, key, i + 1)
    }
}

/// The text held by the first member named `key`, where that member is a string.
pub open spec fn string_member(fields: Seq<(String, Option<String>)>, key: Seq<char>) -> Option<
    Seq<char>,
> {
    match member_from(fields, key, 0) {
        Some(Some(s)) => Some(s@),
        _ => None,
    }
}

/// Looks up the first member named `key`: `None` where there is none,
/// `Some(None)` where its value is not a string.
pub fn find_member(fields: &Vec<(String, Option<String>)>, key: &String) -> (r: Option<Option<String>>)
    ensures
        match (r, member_from(fields@, key@, 0)) {
            (None, None) => true,
            (Some(None), Some(None)) => true,
            (Some(Some(a)), Some(Some(b))) => a@ == b@,
            _ => false,
        },
{
    let mut i: usize = 0;
    while i < fields.len()
        invariant
            i <= fields@.len(),
            member_from(fields@, key@, 0) == member_from(fields@, key@, i as int),
        decreases fields@.len() - i,
    {
        if fields[i].0 == *key {
            return match &fields[i].1 {
                Some(t) => Some(Some(t.clone())),
                None => Some(None),
            };
        }
        i = i + 1;
    }
    None
}

} // verus!
