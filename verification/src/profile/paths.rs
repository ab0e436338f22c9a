//! Choices made while locating Bambu Studio's profile directories.

use vstd::prelude::*;
use crate::scraper::html_extractor::{
    find_member, json_parse_of, json_pretty, json_pretty_of, read_json, str_member, JsonValue,
};
use crate::profile::writer::{strip_md5_checksum, without_checksum};
use crate::text::{chars_of, eq_str, opt_view, push_str, string_of};

verus! {

broadcast use vstd::string::group_string_axioms;

/// The `preset_folder` setting of Bambu Studio's configuration, when the
/// configuration is JSON and the setting a string.
pub open spec fn conf_preset_folder(content: Seq<char>) -> Option<Seq<char>> {
    match json_parse_of(content) {
        Ok(v) => str_member(v, "preset_folder"@),
        Err(_) => None,
    }
}

/// Reads the `preset_folder` setting from the text of `BambuStudio.conf`
/// (see `conf_preset_folder`).
pub fn preset_folder_from_conf(content: &str) -> (r: Option<String>)
    ensures
        opt_view(r) == conf_preset_folder(content@),
{
    match read_json(content) {
        Ok(v) => match find_member(&v, "preset_folder") {
            Some(JsonValue::Str(s)) => Some(s.clone()),
            _ => None,
        },
        Err(_) => None,
    }
}

/// Whether a user directory entry can hold the active profiles: it is not
/// the `default` directory and has a `filament/base` directory.
pub open spec fn usable_user_dir(e: (Seq<char>, bool)) -> bool {
    e.0 != "default"@ && e.1
}

/// Picks, among the entries of the user directory (each a name and whether
/// it is a directory with `filament/base` inside), the first usable one.
pub fn first_user_profile_dir(entries: &Vec<(String, bool)>) -> (r: Option<usize>)
    ensures
        match r {
            Some(i) => i < entries.len() && usable_user_dir((entries@[i as int].0@, entries@[i as int].1))
                && forall|j: int| 0 <= j < i ==> !usable_user_dir((entries@[j].0@, entries@[j].1)),
            None => forall|j: int| 0 <= j < entries.len() ==> !usable_user_dir((entries@[j].0@, entries@[j].1)),
        },
{
    let mut i: usize = 0;
    while i < entries.len()
        invariant
            i <= entries.len(),
            forall|j: int| 0 <= j < i ==> !usable_user_dir((entries@[j].0@, entries@[j].1)),
        decreases entries.len() - i,
    {
        if !eq_str(&chars_of(entries[i].0.as_str()), "default") && entries[i].1 {
            return Some(i);
        }
        i = i + 1;
    }
    None
}

// ---------------------------------------------------------------------------
// Registering a profile in the configuration
// ---------------------------------------------------------------------------

/// The refusal of a configuration that is not a JSON object.
pub const CONF_NOT_OBJECT: &'static str = "BambuStudio.conf root is not a JSON object";

/// The refusal of a configuration whose `filaments` member is not an array.
pub const CONF_NOT_ARRAY: &'static str = "BambuStudio.conf 'filaments' section is not an array";

/// Position of the first member named `k` (-1 when there is none).
pub open spec fn first_key_index(ms: Seq<(String, JsonValue)>, k: Seq<char>) -> int
    decreases ms.len(),
{
    if ms.len() == 0 {
        -1
    } else if ms[0].0@ == k {
        0
    } else {
        let r = first_key_index(ms.drop_first(), k);
        if r < 0 {
            -1
        } else {
            r + 1
        }
    }
}

/// The JSON string `name`.
pub open spec fn is_name_item(x: JsonValue, name: Seq<char>) -> bool {
    x matches JsonValue::Str(s) && s@ == name
}

/// Whether the list holds the string `name`.
pub open spec fn has_name(items: Seq<JsonValue>, name: Seq<char>) -> bool {
    exists|j: int| 0 <= j < items.len() && is_name_item(items[j], name)
}

/// `v` is the object of members `ms` with a `filaments` member holding only
/// `name` added at the end.
pub open spec fn member_added(ms: Seq<(String, JsonValue)>, v: JsonValue, name: Seq<char>) -> bool {
    &&& v matches JsonValue::Object(ms2)
    &&& ms2@.len() == ms.len() + 1
    &&& ms2@.take(ms.len() as int) == ms
    &&& ms2@.last().0@ == "filaments"@
    &&& ms2@.last().1 matches JsonValue::Array(a) && a@.len() == 1 && is_name_item(a@[0], name)
}

/// `v` is the object of members `ms` with `name` appended to the list of
/// member `i`, whose items are `items`; every other member as it was.
pub open spec fn name_appended(
    ms: Seq<(String, JsonValue)>,
    i: int,
    items: Seq<JsonValue>,
    v: JsonValue,
    name: Seq<char>,
) -> bool {
    &&& v matches JsonValue::Object(ms2)
    &&& ms2@.len() == ms.len()
    &&& forall|j: int| 0 <= j < ms.len() && j != i ==> ms2@[j] == ms[j]
    &&& ms2@[i].0 == ms[i].0
    &&& ms2@[i].1 matches JsonValue::Array(a) && a@.len() == items.len() + 1 && a@.take(items.len() as int)
        == items && is_name_item(a@.last(), name)
}

/// What registering `name` in a parsed configuration gives: the
/// configuration with `name` added to its `filaments` list (the list created
/// when missing), `None` when the list already holds it, and a refusal when
/// the configuration is not an object or its `filaments` is not a list.
pub open spec fn registration(root: JsonValue, name: Seq<char>, r: Result<Option<JsonValue>, String>) -> bool {
    match root {
        JsonValue::Object(ms) => {
            let i = first_key_index(ms@, "filaments"@);
            if i < 0 {
                r matches Ok(Some(v)) && member_added(ms@, v, name)
            } else {
                match ms@[i].1 {
                    JsonValue::Array(items) => if has_name(items@, name) {
                        r matches Ok(None)
                    } else {
                        r matches Ok(Some(v)) && name_appended(ms@, i, items@, v, name)
                    },
                    _ => r matches Err(m) && m@ == CONF_NOT_ARRAY@,
                }
            }
        },
        _ => r matches Err(m) && m@ == CONF_NOT_OBJECT@,
    }
}

fn key_index(ms: &Vec<(String, JsonValue)>, k: &str) -> (r: Option<usize>)
    ensures
        match r {
            Some(i) => i < ms@.len() && first_key_index(ms@, k@) == i,
            None => first_key_index(ms@, k@) < 0,
        },
{
    let mut i: usize = 0;
    while i < ms.len()
        invariant
            i <= ms@.len(),
            forall|j: int| 0 <= j < i ==> ms@[j].0@ != k@,
        decreases ms.len() - i,
    {
        if eq_str(&chars_of(ms[i].0.as_str()), k) {
            proof {
                lemma_first_key_found(ms@, k@, i as int);
            }
            return Some(i);
        }
        i = i + 1;
    }
    proof {
        lemma_first_key_absent(ms@, k@);
    }
    None
}

proof fn lemma_first_key_found(ms: Seq<(String, JsonValue)>, k: Seq<char>, i: int)
    requires
        0 <= i < ms.len(),
        ms[i].0@ == k,
        forall|j: int| 0 <= j < i ==> ms[j].0@ != k,
    ensures
        first_key_index(ms, k) == i,
    decreases i,
{
    if i > 0 {
        let t = ms.drop_first();
        assert forall|j: int| 0 <= j < i - 1 implies t[j].0@ != k by {
            assert(t[j] == ms[j + 1]);
        }
        assert(t[i - 1] == ms[i]);
        lemma_first_key_found(t, k, i - 1);
    }
}

proof fn lemma_first_key_absent(ms: Seq<(String, JsonValue)>, k: Seq<char>)
    requires
        forall|j: int| 0 <= j < ms.len() ==> ms[j].0@ != k,
    ensures
        first_key_index(ms, k) < 0,
    decreases ms.len(),
{
    if ms.len() > 0 {
        let t = ms.drop_first();
        assert forall|j: int| 0 <= j < t.len() implies t[j].0@ != k by {
            assert(t[j] == ms[j + 1]);
        }
        lemma_first_key_absent(t, k);
    }
}

fn holds_name(items: &Vec<JsonValue>, name: &str) -> (b: bool)
    ensures
        b == has_name(items@, name@),
{
    let mut i: usize = 0;
    while i < items.len()
        invariant
            i <= items@.len(),
            forall|j: int| 0 <= j < i ==> !is_name_item(items@[j], name@),
        decreases items.len() - i,
    {
        match &items[i] {
            JsonValue::Str(s) => {
                if eq_str(&chars_of(s.as_str()), name) {
                    assert(is_name_item(items@[i as int], name@));
                    return true;
                }
            },
            _ => {},
        }
        i = i + 1;
    }
    false
}

/// Registers a profile name in a parsed configuration (see `registration`).
pub fn register_in_conf(root: JsonValue, profile_name: &str) -> (r: Result<Option<JsonValue>, String>)
    ensures
        registration(root, profile_name@, r),
{
    let ghost root0 = root;
    match root {
        JsonValue::Object(mut ms) => {
            let ghost ms0 = ms@;
            match key_index(&ms, "filaments") {
                None => {
                    let mut a: Vec<JsonValue> = Vec::new();
                    a.push(JsonValue::Str(profile_name.to_string()));
                    ms.push(("filaments".to_string(), JsonValue::Array(a)));
                    proof {
                        assert(ms@.take(ms0.len() as int) =~= ms0);
                    }
                    Ok(Some(JsonValue::Object(ms)))
                },
                Some(i) => {
                    let is_array = match &ms[i].1 {
                        JsonValue::Array(_) => true,
                        _ => false,
                    };
                    if !is_array {
                        return Err(CONF_NOT_ARRAY.to_string());
                    }
                    let present = match &ms[i].1 {
                        JsonValue::Array(items) => holds_name(items, profile_name),
                        _ => false,
                    };
                    if present {
                        return Ok(None);
                    }
                    let (k, val) = ms.remove(i);
                    proof {
                        assert(ms0[i as int] == (k, val));
                    }
                    match val {
                        JsonValue::Array(mut items) => {
                            let ghost items0 = items@;
                            items.push(JsonValue::Str(profile_name.to_string()));
                            ms.insert(i, (k, JsonValue::Array(items)));
                            proof {
                                assert(items@.take(items0.len() as int) =~= items0);
                                assert forall|j: int| 0 <= j < ms0.len() && j != i implies ms@[j] == ms0[j] by {
                                    if j < i {
                                    } else {
                                    }
                                }
                            }
                            Ok(Some(JsonValue::Object(ms)))
                        },
                        _ => Err(CONF_NOT_ARRAY.to_string()),
                    }
                },
            }
        },
        _ => Err(CONF_NOT_OBJECT.to_string()),
    }
}

/// The message of a configuration that is not JSON.
pub open spec fn conf_parse_message(e: Seq<char>) -> Seq<char> {
    "Failed to parse BambuStudio.conf as JSON: "@ + e
}

/// Registers a profile name in the JSON text of `BambuStudio.conf` (without
/// its checksum line): a text that is not JSON is refused with the parser's
/// message; otherwise see `registration`.
pub fn register_filament(conf_json: &str, profile_name: &str) -> (r: Result<Option<JsonValue>, String>)
    ensures
        match json_parse_of(conf_json@) {
            Err(e) => r matches Err(m) && m@ == conf_parse_message(e),
            Ok(root) => registration(root, profile_name@, r),
        },
{
    match read_json(conf_json) {
        Ok(root) => register_in_conf(root, profile_name),
        Err(e) => {
            let mut m = chars_of("Failed to parse BambuStudio.conf as JSON: ");
            push_str(&mut m, e.as_str());
            Err(string_of(&m))
        },
    }
}

/// The new text of `BambuStudio.conf` after registering a profile name:
/// the checksum line stripped, the name registered (see
/// `register_filament`) and the configuration written back as indented
/// JSON (`json_pretty_of`); `None` when the name was already registered.
pub fn registered_conf_text(content: &str, profile_name: &str) -> (r: Result<Option<String>, String>)
    ensures
        match json_parse_of(without_checksum(content@)) {
            Err(e) => r matches Err(m) && m@ == conf_parse_message(e),
            Ok(root) => match r {
                Ok(None) => registration(root, profile_name@, Ok(None)),
                Ok(Some(t)) => exists|v: JsonValue|
                    registration(root, profile_name@, Ok(Some(v))) && #[trigger] json_pretty_of(v) == Ok::<
                        Seq<char>,
                        Seq<char>,
                    >(t@),
                Err(m) => (exists|v: JsonValue|
                    registration(root, profile_name@, Ok(Some(v))) && #[trigger] json_pretty_of(v) == Err::<
                        Seq<char>,
                        Seq<char>,
                    >(m@)) || (exists|m2: String| m2@ == m@ && registration(root, profile_name@, Err(m2))),
            },
        },
{
    let json = strip_md5_checksum(content);
    match register_filament(json.as_str(), profile_name) {
        Ok(Some(v)) => match json_pretty(&v) {
            Ok(t) => Ok(Some(t)),
            Err(e) => Err(e),
        },
        Ok(None) => Ok(None),
        Err(e) => Err(e),
    }
}

proof fn lemma_first_key_index_props(ms: Seq<(String, JsonValue)>, k: Seq<char>)
    ensures
        first_key_index(ms, k) < ms.len(),
        first_key_index(ms, k) >= 0 ==> ms[first_key_index(ms, k)].0@ == k,
        forall|j: int| 0 <= j < ms.len() && (first_key_index(ms, k) < 0 || j < first_key_index(ms, k))
            ==> ms[j].0@ != k,
    decreases ms.len(),
{
    if ms.len() > 0 {
        let t = ms.drop_first();
        lemma_first_key_index_props(t, k);
        assert forall|j: int| 0 < j < ms.len() implies ms[j] == t[j - 1] by {}
    }
}

/// Registering a name is done once: registering it again in the
/// configuration that the first registration gave finds it already there.
pub proof fn law_register_twice(root: JsonValue, name: Seq<char>, v: JsonValue)
    requires
        registration(root, name, Ok(Some(v))),
    ensures
        registration(v, name, Ok(None)),
{
    let k = "filaments"@;
    match root {
        JsonValue::Object(ms) => {
            let i = first_key_index(ms@, k);
            lemma_first_key_index_props(ms@, k);
            let ms2 = match v {
                JsonValue::Object(m2) => m2,
                _ => ms,
            };
            lemma_first_key_index_props(ms2@, k);
            if i < 0 {
                let n = ms@.len() as int;
                assert forall|j: int| 0 <= j < n implies ms2@[j].0@ != k by {
                    assert(ms2@[j] == ms2@.take(n)[j]);
                }
                assert(ms2@[n] == ms2@.last());
                lemma_first_key_found(ms2@, k, n);
                match ms2@[n].1 {
                    JsonValue::Array(a) => {
                        assert(is_name_item(a@[0], name));
                        assert(has_name(a@, name));
                    },
                    _ => {},
                }
            } else {
                match ms@[i].1 {
                    JsonValue::Array(items) => {
                        assert forall|j: int| 0 <= j < i implies ms2@[j].0@ != k by {
                            assert(ms2@[j] == ms@[j]);
                        }
                        lemma_first_key_found(ms2@, k, i);
                        match ms2@[i].1 {
                            JsonValue::Array(a) => {
                                assert(is_name_item(a@[a@.len() - 1], name));
                                assert(has_name(a@, name));
                            },
                            _ => {},
                        }
                    },
                    _ => {},
                }
            }
        },
        _ => {},
    }
}

} // verus!
