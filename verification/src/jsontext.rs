use vstd::prelude::*;

verus! {

#[verifier::external_type_specification]
#[verifier::external_body]
pub struct ExValue(serde_json::Value);

/// Whether the JSON parser accepts a text. Parsing is deterministic:
/// whether a given text is accepted depends on its characters alone.
pub uninterp spec fn json_ok(s: Seq<char>) -> bool;

/// The parse diagnostic the JSON parser reports for a refused text. The
/// diagnostic (category, line and column) depends on the characters alone.
pub uninterp spec fn json_diag(s: Seq<char>) -> Seq<char>;

/// The text under a key of a parsed JSON body: Some exactly when the body
/// is an object holding the key with a string value. A function of the
/// body text and the key alone — for duplicate keys the parser
/// deterministically keeps the last value.
pub uninterp spec fn json_field_text(body: Seq<char>, name: Seq<char>) -> Option<Seq<char>>;

/// The view of an optional text, for speaking of wrapper results.
pub open spec fn opt_text_view(o: Option<String>) -> Option<Seq<char>> {
    match o {
        Some(s) => Some(s@),
        None => None,
    }
}

/// The JSON string literal (quoted, with escapes) that encodes a text. The
/// encoding depends on the characters of the text alone.
pub uninterp spec fn json_quoted(s: Seq<char>) -> Seq<char>;

/// Relies on serde_json::from_str for serde_json::Value, and on
/// serde_json::Error's Display implementation: whether a text is accepted
/// as JSON, and the diagnostic reported when it is not, are functions of
/// the characters alone.
#[verifier::external_body]
pub(crate) fn parse_json_diag(s: &str) -> (r: Option<String>)
    ensures
        r is None <==> json_ok(s@),
        r matches Some(d) ==> d@ == json_diag(s@),
{
    match serde_json::from_str::<serde_json::Value>(s) {
        Ok(_) => None,
        Err(e) => Some(e.to_string()),
    }
}

/// Relies on serde_json::from_str for serde_json::Value together with
/// Value::get and Value::as_str: the text under a key of a JSON body is a
/// function of the body text and the key alone, and a text that is not
/// JSON has no fields.
#[verifier::external_body]
pub(crate) fn field_text(body: &str, name: &str) -> (r: Option<String>)
    ensures
        json_ok(body@) ==> opt_text_view(r) == json_field_text(body@, name@),
        !json_ok(body@) ==> r is None,
{
    match serde_json::from_str::<serde_json::Value>(body) {
        Ok(v) => match v.get(name) {
            Some(f) => match f.as_str() {
                Some(s) => Some(s.to_owned()),
                None => None,
            },
            None => None,
        },
        Err(_) => None,
    }
}

/// Relies on serde_json::Value::get with a string index: it returns the
/// value under that key when the receiver is an object holding the key, and
/// None otherwise.
#[verifier::external_body]
pub(crate) fn get_field<'a>(v: &'a serde_json::Value, name: &str) -> (r: Option<
    &'a serde_json::Value,
>) {
    v.get(name)
}

/// Relies on serde_json::Value::as_str: it returns the text of a JSON
/// string value, and None for every other kind of value.
#[verifier::external_body]
pub(crate) fn value_as_string(v: &serde_json::Value) -> (r: Option<String>) {
    match v.as_str() {
        Some(s) => Some(s.to_owned()),
        None => None,
    }
}

/// Relies on serde_json::Value::is_null: it tells a JSON null apart from
/// every other kind of value.
#[verifier::external_body]
pub(crate) fn value_is_null(v: &serde_json::Value) -> (r: bool) {
    v.is_null()
}

/// Relies on serde_json::to_string on a str: it emits the JSON string
/// literal for the text — its characters quoted and escaped — and for a str
/// it does not fail.
#[verifier::external_body]
pub(crate) fn json_quote(s: &str) -> (r: String)
    ensures
        r@ == json_quoted(s@),
{
    match serde_json::to_string(s) {
        Ok(t) => t,
        Err(_) => String::new(),
    }
}

} // verus!
