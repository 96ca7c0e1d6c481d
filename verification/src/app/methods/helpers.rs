//! Readers of form values shared by the request builders.

use vstd::prelude::*;

use crate::app::model::forms::{FormState, FormView};
use crate::text::{
    chars_of, comma_items_from, concat, list_items, parse_u64, parse_u64_spec, trim, trimmed,
};

use super::encoding::{json_reading, read_json};

verus! {

/// The trimmed value of the field with `key`, when it is present and not blank.
pub open spec fn optional_text(form: FormView, key: Seq<char>) -> Option<Seq<char>> {
    match form.value_of(key) {
        Some(v) => if trimmed(v).len() > 0 {
            Some(trimmed(v))
        } else {
            None
        },
        None => None,
    }
}

/// The trimmed value of the field with `key`, or the message that it is required.
pub open spec fn required_text(form: FormView, key: Seq<char>) -> Result<Seq<char>, Seq<char>> {
    match optional_text(form, key) {
        Some(v) => Ok(v),
        None => Err(key + " is required"@),
    }
}

/// The number in the field with `key`: none when blank, the message that it must be a
/// number when it does not parse.
pub open spec fn optional_number(form: FormView, key: Seq<char>) -> Result<Option<u64>, Seq<char>> {
    match optional_text(form, key) {
        Some(v) => match parse_u64_spec(v) {
            Some(n) => Ok(Some(n)),
            None => Err(key + " must be a number"@),
        },
        None => Ok(None),
    }
}

/// The trimmed, non-empty comma separated items of the field with `key`, in order.
pub open spec fn list_value(form: FormView, key: Seq<char>) -> Seq<Seq<char>> {
    match form.value_of(key) {
        Some(v) => list_items(v),
        None => Seq::empty(),
    }
}

/// The JSON text of the field with `key` and how it reads: none when blank, the
/// parser's message behind the key when it is not JSON.
pub open spec fn optional_json(form: FormView, key: Seq<char>) -> Result<
    Option<(Seq<char>, Option<usize>)>,
    Seq<char>,
> {
    match optional_text(form, key) {
        Some(t) => match json_reading(t) {
            Ok(shape) => Ok(Some((t, shape))),
            Err(message) => Err(key + " invalid JSON: "@ + message),
        },
        None => Ok(None),
    }
}

/// JSON text read from a form field.
pub struct JsonInput {
    /// The trimmed text, which parses
    pub text: String,
    /// Number of items when the text is an array
    pub array_len: Option<usize>,
}

/// The text of optional JSON input.
pub open spec fn json_text_view(o: Option<JsonInput>) -> Option<Seq<char>> {
    match o {
        Some(j) => Some(j.text@),
        None => None,
    }
}

/// Normalizes optional text input by trimming and collapsing empty values to None.
pub fn parse_optional_string(form: &FormState, key: &str) -> (r: Option<String>)
    ensures
        match r {
            Some(s) => optional_text(form@, key@) == Some(s@),
            None => optional_text(form@, key@) is None,
        },
{
    match form.field_value(key) {
        Some(value) => {
            let t = trim(value);
            if t.as_str().unicode_len() > 0 {
                Some(t)
            } else {
                None
            }
        },
        None => None,
    }
}

/// The trimmed value of a required field, or the message that it is required.
pub fn parse_required_string(form: &FormState, key: &str) -> (r: Result<String, String>)
    ensures
        match r {
            Ok(s) => required_text(form@, key@) == Ok::<Seq<char>, Seq<char>>(s@),
            Err(e) => required_text(form@, key@) == Err::<Seq<char>, Seq<char>>(e@),
        },
{
    match parse_optional_string(form, key) {
        Some(s) => Ok(s),
        None => {
            proof {
                reveal_strlit(" is required");
            }
            Err(concat(key, " is required"))
        },
    }
}

/// The number in an optional field.
pub fn parse_optional_u64(form: &FormState, key: &str) -> (r: Result<Option<u64>, String>)
    ensures
        match r {
            Ok(n) => optional_number(form@, key@) == Ok::<Option<u64>, Seq<char>>(n),
            Err(e) => optional_number(form@, key@) == Err::<Option<u64>, Seq<char>>(e@),
        },
{
    match parse_optional_string(form, key) {
        Some(value) => match parse_u64(value.as_str()) {
            Some(n) => Ok(Some(n)),
            None => Err(concat(key, " must be a number")),
        },
        None => Ok(None),
    }
}

/// Preserves user provided order while dropping blank comma separated entries.
pub fn parse_list(form: &FormState, key: &str) -> (r: Vec<String>)
    ensures
        r.deep_view() == list_value(form@, key@),
{
    match form.field_value(key) {
        Some(value) => {
            let cs = chars_of(value);
            proof {
                assert(cs@.subrange(0, cs.len() as int) =~= cs@);
            }
            comma_items_from(&cs, 0)
        },
        None => {
            let r: Vec<String> = Vec::new();
            assert(r.deep_view() =~= Seq::<Seq<char>>::empty());
            r
        },
    }
}

/// Parses JSON only when a non empty value exists so optional JSON fields stay absent
/// by default.
pub fn parse_optional_json(form: &FormState, key: &str) -> (r: Result<Option<JsonInput>, String>)
    ensures
        match r {
            Ok(Some(j)) => optional_json(form@, key@) == Ok::<_, Seq<char>>(
                Some((j.text@, j.array_len)),
            ),
            Ok(None) => optional_json(form@, key@) == Ok::<_, Seq<char>>(
                None::<(Seq<char>, Option<usize>)>,
            ),
            Err(e) => optional_json(form@, key@) == Err::<Option<(Seq<char>, Option<usize>)>, _>(
                e@,
            ),
        },
{
    match parse_optional_string(form, key) {
        Some(value) => match read_json(value.as_str()) {
            Ok(shape) => Ok(Some(JsonInput { text: value, array_len: shape })),
            Err(message) => {
                let head = concat(key, " invalid JSON: ");
                Err(concat(head.as_str(), message.as_str()))
            },
        },
        None => Ok(None),
    }
}

} // verus!
