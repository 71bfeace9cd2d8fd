use vstd::prelude::*;

verus! {

#[verifier::external_type_specification]
#[verifier::external_body]
pub struct ExJsonError(serde_json::Error);

/// What `serde_json::from_str::<Vec<String>>` makes of a text: the strings of
/// the JSON array that the whole text holds, or `None` when the text is not
/// exactly one JSON array of strings.
pub uninterp spec fn json_string_array(text: Seq<char>) -> Option<Seq<Seq<char>>>;

/// Calls `serde_json::from_str` to read `text` as a JSON array of strings.
/// Claimed: it succeeds exactly when `json_string_array` of the text is
/// some list, and then returns that list. What the list is for a given text
/// (the JSON grammar and its string escapes) is not stated here.
#[verifier::external_body]
pub(crate) fn parse_json_string_array(text: &str) -> (res: Result<Vec<String>, serde_json::Error>)
    ensures
        res is Ok <==> json_string_array(text@) is Some,
        res matches Ok(list) ==> json_string_array(text@) == Some(list.deep_view()),
{
    serde_json::from_str::<Vec<String>>(text)
}

} // verus!
