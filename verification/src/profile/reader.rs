//! Reading a profile from its JSON text.

use vstd::prelude::*;
use crate::profile::types::{
    ArrayItem, Entries, FilamentProfile, ItemView, ProfileValue, ValueView, with_entry,
};
use crate::scraper::html_extractor::{JsonValue, json_parse_of, json_text, json_text_of, read_json};

verus! {

broadcast use vstd::string::group_string_axioms;

/// The refusal of a profile whose JSON root is not an object.
pub const NOT_AN_OBJECT: &'static str = "Profile JSON root is not an object";

/// An element of a JSON array as a profile keeps it: a string as itself,
/// any other value by its compact JSON text.
pub open spec fn item_of(v: JsonValue) -> ItemView {
    match v {
        JsonValue::Str(s) => ItemView::Str(s@),
        _ => ItemView::Json(json_text_of(v)),
    }
}

/// A JSON value as a profile field: `null`, a string and an array as
/// themselves (array elements by `item_of`), an object by its compact JSON
/// text, a number by its text and a boolean as `true` or `false`.
pub open spec fn field_of(v: JsonValue) -> ValueView {
    match v {
        JsonValue::Null => ValueView::Null,
        JsonValue::Str(s) => ValueView::Str(s@),
        JsonValue::Array(a) => ValueView::Array(a@.map_values(|x: JsonValue| item_of(x))),
        JsonValue::Object(_) => ValueView::Object(json_text_of(v)),
        JsonValue::Number(_, t) => ValueView::Scalar(t@),
        JsonValue::Bool(b) => ValueView::Scalar(if b { "true"@ } else { "false"@ }),
    }
}

/// The entries of a profile read from an object's members, each member set
/// in turn (see `with_entry`).
pub open spec fn entries_of(members: Seq<(String, JsonValue)>) -> Entries
    decreases members.len(),
{
    if members.len() == 0 {
        Seq::empty()
    } else {
        with_entry(entries_of(members.drop_last()), members.last().0@, field_of(members.last().1))
    }
}

/// The profile field of a JSON value (see `field_of`).
pub fn field_value(v: &JsonValue) -> (r: ProfileValue)
    ensures
        r@ == field_of(*v),
{
    match v {
        JsonValue::Null => ProfileValue::Null,
        JsonValue::Str(s) => ProfileValue::Str(s.clone()),
        JsonValue::Number(_, t) => ProfileValue::Scalar(t.clone()),
        JsonValue::Bool(b) => ProfileValue::Scalar(if *b {
            "true".to_string()
        } else {
            "false".to_string()
        }),
        JsonValue::Object(_) => ProfileValue::Object(json_text(v)),
        JsonValue::Array(a) => {
            let mut out: Vec<ArrayItem> = Vec::new();
            let mut i: usize = 0;
            while i < a.len()
                invariant
                    i <= a@.len(),
                    out@.len() == i,
                    forall|k: int| 0 <= k < i ==> (#[trigger] out@[k])@ == item_of(a@[k]),
                decreases a.len() - i,
            {
                let x = &a[i];
                let item = match x {
                    JsonValue::Str(s) => ArrayItem::Str(s.clone()),
                    _ => ArrayItem::Json(json_text(x)),
                };
                out.push(item);
                i = i + 1;
            }
            proof {
                assert(out@.map_values(|x: ArrayItem| x@) =~= a@.map_values(|x: JsonValue| item_of(x)));
            }
            ProfileValue::Array(out)
        },
    }
}

/// The profile field written as JSON text; the parse error's text when the
/// text is not JSON.
pub fn field_from_json(text: &str) -> (r: Result<ProfileValue, String>)
    ensures
        match json_parse_of(text@) {
            Ok(v) => r is Ok && r->Ok_0@ == field_of(v),
            Err(e) => r is Err && r->Err_0@ == e,
        },
{
    match read_json(text) {
        Ok(v) => Ok(field_value(&v)),
        Err(e) => Err(e),
    }
}

/// Reads a profile from its JSON text: the root must be an object, whose
/// members become the fields in order (see `entries_of`). A text that is not
/// JSON is refused with the parse error's text, another root with
/// `NOT_AN_OBJECT`.
pub fn profile_from_json(text: &str) -> (r: Result<FilamentProfile, String>)
    ensures
        match json_parse_of(text@) {
            Err(e) => r is Err && r->Err_0@ == e,
            Ok(JsonValue::Object(ms)) => r is Ok && r->Ok_0@ == entries_of(ms@),
            Ok(_) => r is Err && r->Err_0@ == NOT_AN_OBJECT@,
        },
{
    match read_json(text) {
        Err(e) => Err(e),
        Ok(JsonValue::Object(ms)) => {
            let mut p = FilamentProfile::new();
            let mut i: usize = 0;
            while i < ms.len()
                invariant
                    i <= ms@.len(),
                    p@ == entries_of(ms@.take(i as int)),
                decreases ms.len() - i,
            {
                proof {
                    assert(ms@.take(i + 1).drop_last() == ms@.take(i as int));
                }
                let f = field_value(&ms[i].1);
                p.set_value(ms[i].0.as_str(), f);
                i = i + 1;
            }
            proof {
                assert(ms@.take(ms@.len() as int) == ms@);
            }
            Ok(p)
        },
        Ok(_) => Err(NOT_AN_OBJECT.to_string()),
    }
}

} // verus!
