//! In-memory model of a Bambu Studio filament profile.
//!
//! A profile is a JSON object whose values are, in practice, strings or
//! arrays of strings (one element per extruder). The model keeps the keys
//! in document order and holds every other JSON value by its compact JSON
//! text, so that nothing read from a profile file is lost.

use vstd::prelude::*;
use crate::text::{chars_eq, chars_of, string_of};

verus! {

broadcast use vstd::string::group_string_axioms;

/// An element of a JSON array inside a profile.
#[derive(Debug, Clone)]
pub enum ArrayItem {
    /// A JSON string.
    Str(String),
    /// Any other JSON value, as its compact JSON text.
    Json(String),
}

/// A JSON value of a profile field.
#[derive(Debug, Clone)]
pub enum ProfileValue {
    /// JSON `null`.
    Null,
    /// A JSON string.
    Str(String),
    /// A JSON array.
    Array(Vec<ArrayItem>),
    /// A JSON object, as its compact JSON text.
    Object(String),
    /// A JSON number or boolean, as its JSON text.
    Scalar(String),
}

/// Abstract view of an array element.
pub ghost enum ItemView {
    Str(Seq<char>),
    Json(Seq<char>),
}

/// Abstract view of a field value.
pub ghost enum ValueView {
    Null,
    Str(Seq<char>),
    Array(Seq<ItemView>),
    Object(Seq<char>),
    Scalar(Seq<char>),
}

impl View for ArrayItem {
    type V = ItemView;

    open spec fn view(&self) -> ItemView {
        match self {
            ArrayItem::Str(s) => ItemView::Str(s@),
            ArrayItem::Json(s) => ItemView::Json(s@),
        }
    }
}

impl View for ProfileValue {
    type V = ValueView;

    open spec fn view(&self) -> ValueView {
        match self {
            ProfileValue::Null => ValueView::Null,
            ProfileValue::Str(s) => ValueView::Str(s@),
            ProfileValue::Array(v) => ValueView::Array(v@.map_values(|x: ArrayItem| x@)),
            ProfileValue::Object(s) => ValueView::Object(s@),
            ProfileValue::Scalar(s) => ValueView::Scalar(s@),
        }
    }
}

/// The view of an array whose elements are all strings.
pub open spec fn string_array_view(items: Seq<Seq<char>>) -> ValueView {
    ValueView::Array(items.map_values(|s: Seq<char>| ItemView::Str(s)))
}

/// The strings of an array value whose elements are all strings.
pub open spec fn as_string_array(v: ValueView) -> Option<Seq<Seq<char>>> {
    match v {
        ValueView::Array(items) => if forall|i: int| 0 <= i < items.len() ==> items[i] is Str {
            Some(items.map_values(|x: ItemView| match x {
                ItemView::Str(s) => s,
                ItemView::Json(s) => s,
            }))
        } else {
            None
        },
        _ => None,
    }
}

/// Entries of a profile: keys with their values, in document order.
pub type Entries = Seq<(Seq<char>, ValueView)>;

/// No key occurs twice.
pub open spec fn keys_distinct(es: Entries) -> bool {
    forall|i: int, j: int| 0 <= i < j < es.len() ==> es[i].0 != es[j].0
}

/// `key` occurs among the entries.
pub open spec fn has_key(es: Entries, key: Seq<char>) -> bool {
    exists|i: int| 0 <= i < es.len() && es[i].0 == key
}

/// Position of `key` among the entries (meaningful when it occurs).
pub open spec fn key_index(es: Entries, key: Seq<char>) -> int {
    choose|i: int| 0 <= i < es.len() && es[i].0 == key
}

/// The value of `key`, if it occurs.
pub open spec fn lookup(es: Entries, key: Seq<char>) -> Option<ValueView> {
    if has_key(es, key) {
        Some(es[key_index(es, key)].1)
    } else {
        None
    }
}

/// The entries after setting `key` to `val`: an existing entry keeps its
/// position and takes the new value; a new key is appended.
pub open spec fn with_entry(es: Entries, key: Seq<char>, val: ValueView) -> Entries {
    if has_key(es, key) {
        es.update(key_index(es, key), (key, val))
    } else {
        es.push((key, val))
    }
}

/// The profile's name: the value of `name` when it is a string.
pub open spec fn name_of(es: Entries) -> Option<Seq<char>> {
    match lookup(es, "name"@) {
        Some(ValueView::Str(s)) => Some(s),
        _ => None,
    }
}

pub proof fn lemma_lookup_index(es: Entries, key: Seq<char>, i: int)
    requires
        keys_distinct(es),
        0 <= i < es.len(),
        es[i].0 == key,
    ensures
        has_key(es, key),
        key_index(es, key) == i,
        lookup(es, key) == Some(es[i].1),
{
    assert(has_key(es, key));
    let j = key_index(es, key);
    if j != i {
        if j < i {
            assert(es[j].0 != es[i].0);
        } else {
            assert(es[i].0 != es[j].0);
        }
    }
}

/// Reading a key after setting it gives the value that was set; every other
/// key keeps its value; keys stay distinct.
pub proof fn lemma_with_entry(es: Entries, key: Seq<char>, val: ValueView, other: Seq<char>)
    requires
        keys_distinct(es),
    ensures
        keys_distinct(with_entry(es, key, val)),
        lookup(with_entry(es, key, val), key) == Some(val),
        other != key ==> lookup(with_entry(es, key, val), other) == lookup(es, other),
{
    let es2 = with_entry(es, key, val);
    if has_key(es, key) {
        let k = key_index(es, key);
        assert(keys_distinct(es2)) by {
            assert forall|i: int, j: int| 0 <= i < j < es2.len() implies es2[i].0 != es2[j].0 by {
                assert(es2[i].0 == es[i].0);
                assert(es2[j].0 == es[j].0);
            }
        }
        lemma_lookup_index(es2, key, k);
        if other != key {
            if has_key(es, other) {
                let m = key_index(es, other);
                lemma_lookup_index(es2, other, m);
            } else {
                assert(!has_key(es2, other)) by {
                    if has_key(es2, other) {
                        let m = key_index(es2, other);
                        assert(es[m].0 == other);
                    }
                }
            }
        }
    } else {
        assert(keys_distinct(es2)) by {
            assert forall|i: int, j: int| 0 <= i < j < es2.len() implies es2[i].0 != es2[j].0 by {
                if j == es.len() {
                    assert(es[i].0 != key);
                }
            }
        }
        lemma_lookup_index(es2, key, es.len() as int);
        if other != key {
            if has_key(es, other) {
                let m = key_index(es, other);
                lemma_lookup_index(es2, other, m);
            } else {
                assert(!has_key(es2, other)) by {
                    if has_key(es2, other) {
                        let m = key_index(es2, other);
                        if m < es.len() {
                            assert(es[m].0 == other);
                        }
                    }
                }
            }
        }
    }
}

/// A copy of an array element.
pub fn copy_item(x: &ArrayItem) -> (r: ArrayItem)
    ensures
        r@ == x@,
{
    match x {
        ArrayItem::Str(s) => ArrayItem::Str(s.clone()),
        ArrayItem::Json(s) => ArrayItem::Json(s.clone()),
    }
}

/// A copy of a field value.
pub fn copy_value(v: &ProfileValue) -> (r: ProfileValue)
    ensures
        r@ == v@,
{
    match v {
        ProfileValue::Null => ProfileValue::Null,
        ProfileValue::Str(s) => ProfileValue::Str(s.clone()),
        ProfileValue::Object(s) => ProfileValue::Object(s.clone()),
        ProfileValue::Scalar(s) => ProfileValue::Scalar(s.clone()),
        ProfileValue::Array(items) => {
            let mut out: Vec<ArrayItem> = Vec::new();
            let mut i: usize = 0;
            while i < items.len()
                invariant
                    i <= items@.len(),
                    out@.len() == i,
                    forall|k: int| 0 <= k < i ==> (#[trigger] out@[k])@ == items@[k]@,
                decreases items.len() - i,
            {
                out.push(copy_item(&items[i]));
                i = i + 1;
            }
            proof {
                assert(out@.map_values(|x: ArrayItem| x@) =~= items@.map_values(|x: ArrayItem| x@));
            }
            ProfileValue::Array(out)
        },
    }
}

/// A filament profile: an ordered set of keyed JSON values.
#[derive(Debug)]
pub struct FilamentProfile {
    entries: Vec<(String, ProfileValue)>,
}

impl View for FilamentProfile {
    type V = Entries;

    closed spec fn view(&self) -> Entries {
        self.entries@.map_values(|e: (String, ProfileValue)| (e.0@, e.1@))
    }
}

impl Clone for FilamentProfile {
    fn clone(&self) -> (r: Self)
        ensures
            r@ == self@,
    {
        proof {
            use_type_invariant(self);
        }
        let mut entries: Vec<(String, ProfileValue)> = Vec::new();
        let mut i: usize = 0;
        while i < self.entries.len()
            invariant
                i <= self.entries@.len(),
                entries@.len() == i,
                forall|k: int|
                    0 <= k < i ==> (#[trigger] entries@[k]).0@ == self.entries@[k].0@ && entries@[k].1@
                        == self.entries@[k].1@,
            decreases self.entries.len() - i,
        {
            let e = &self.entries[i];
            entries.push((e.0.clone(), copy_value(&e.1)));
            i = i + 1;
        }
        proof {
            assert(entries@.map_values(|e: (String, ProfileValue)| (e.0@, e.1@)) =~= self@);
        }
        FilamentProfile { entries }
    }
}

impl FilamentProfile {
    #[verifier::type_invariant]
    closed spec fn inv(&self) -> bool {
        keys_distinct(self@)
    }

    /// Keys of a profile never repeat (a check that costs nothing at run time).
    pub fn check_keys_distinct(&self)
        ensures
            keys_distinct(self@),
    {
        proof {
            use_type_invariant(self);
        }
    }

    /// The empty profile.
    pub fn new() -> (p: FilamentProfile)
        ensures
            p@ == Seq::<(Seq<char>, ValueView)>::empty(),
    {
        let p = FilamentProfile { entries: Vec::new() };
        proof {
            assert(p@ =~= Seq::<(Seq<char>, ValueView)>::empty());
        }
        p
    }

    /// Number of fields.
    pub fn field_count(&self) -> (n: usize)
        ensures
            n == self@.len(),
    {
        self.entries.len()
    }

    /// Position of `key`, if present.
    fn position(&self, key: &Vec<char>) -> (r: Option<usize>)
        ensures
            match r {
                Some(i) => i < self@.len() && self@[i as int].0 == key@ && key_index(self@, key@)
                    == i && lookup(self@, key@) == Some(self@[i as int].1),
                None => !has_key(self@, key@) && lookup(self@, key@) is None,
            },
    {
        proof {
            use_type_invariant(self);
        }
        let mut i: usize = 0;
        while i < self.entries.len()
            invariant
                i <= self.entries@.len(),
                self@.len() == self.entries@.len(),
                forall|k: int| 0 <= k < i ==> self@[k].0 != key@,
            decreases self.entries.len() - i,
        {
            let k = chars_of(self.entries[i].0.as_str());
            if chars_eq(&k, key) {
                proof {
                    use_type_invariant(self);
                    lemma_lookup_index(self@, key@, i as int);
                }
                return Some(i);
            }
            i = i + 1;
        }
        None
    }

    /// The value of `key`, if present.
    pub fn get(&self, key: &str) -> (r: Option<&ProfileValue>)
        ensures
            match r {
                Some(v) => lookup(self@, key@) == Some(v@),
                None => lookup(self@, key@) is None,
            },
    {
        let k = chars_of(key);
        match self.position(&k) {
            Some(i) => Some(&self.entries[i].1),
            None => None,
        }
    }

    /// The entries in document order.
    pub fn raw(&self) -> (r: &Vec<(String, ProfileValue)>)
        ensures
            r@.map_values(|e: (String, ProfileValue)| (e.0@, e.1@)) == self@,
    {
        &self.entries
    }

    /// The profile's `name`, if it is a string.
    pub fn name(&self) -> (r: Option<&str>)
        ensures
            match r {
                Some(s) => name_of(self@) == Some(s@),
                None => name_of(self@) is None,
            },
    {
        match self.get("name") {
            Some(ProfileValue::Str(s)) => Some(s.as_str()),
            _ => None,
        }
    }

    /// Set `key` to `value` (see `with_entry`).
    pub fn set_value(&mut self, key: &str, value: ProfileValue)
        ensures
            final(self)@ == with_entry(old(self)@, key@, value@),
    {
        let k = chars_of(key);
        proof {
            use_type_invariant(&*self);
        }
        let ghost before = self@;
        match self.position(&k) {
            Some(i) => {
                let ks = string_of(&k);
                let mut entries: Vec<(String, ProfileValue)> = Vec::new();
                std::mem::swap(&mut entries, &mut self.entries);
                proof {
                    assert(entries@.map_values(|e: (String, ProfileValue)| (e.0@, e.1@)) == before);
                }
                entries.set(i, (ks, value));
                proof {
                    assert(entries@.map_values(|e: (String, ProfileValue)| (e.0@, e.1@)) =~= with_entry(
                        before,
                        key@,
                        value@,
                    ));
                    lemma_with_entry(before, key@, value@, key@);
                }
                self.entries = entries;
            },
            None => {
                let ks = string_of(&k);
                let mut entries: Vec<(String, ProfileValue)> = Vec::new();
                std::mem::swap(&mut entries, &mut self.entries);
                proof {
                    assert(entries@.map_values(|e: (String, ProfileValue)| (e.0@, e.1@)) == before);
                }
                entries.push((ks, value));
                proof {
                    assert(entries@.map_values(|e: (String, ProfileValue)| (e.0@, e.1@)) =~= with_entry(
                        before,
                        key@,
                        value@,
                    ));
                    lemma_with_entry(before, key@, value@, key@);
                }
                self.entries = entries;
            },
        }
    }

    /// Set `key` to a JSON string.
    pub fn set_string(&mut self, key: &str, value: String)
        ensures
            final(self)@ == with_entry(old(self)@, key@, ValueView::Str(value@)),
    {
        self.set_value(key, ProfileValue::Str(value));
    }

    /// Set `key` to an array of JSON strings.
    pub fn set_string_array(&mut self, key: &str, values: Vec<String>)
        ensures
            final(self)@ == with_entry(old(self)@, key@, string_array_view(values@.map_values(|s: String| s@))),
    {
        let mut items: Vec<ArrayItem> = Vec::new();
        let mut i: usize = 0;
        while i < values.len()
            invariant
                i <= values.len(),
                items@.len() == i,
                forall|k: int| 0 <= k < i ==> (#[trigger] items@[k])@ == ItemView::Str(values@[k]@),
            decreases values.len() - i,
        {
            items.push(ArrayItem::Str(values[i].clone()));
            i = i + 1;
        }
        proof {
            assert(items@.map_values(|x: ArrayItem| x@) =~= values@.map_values(|s: String| s@).map_values(
                |s: Seq<char>| ItemView::Str(s),
            ));
        }
        self.set_value(key, ProfileValue::Array(items));
    }

    /// The strings of `key`'s value when it is an array of strings only.
    pub fn get_string_array(&self, key: &str) -> (r: Option<Vec<String>>)
        ensures
            match lookup(self@, key@) {
                Some(v) => match as_string_array(v) {
                    Some(ss) => r matches Some(out) && out@.map_values(|s: String| s@) == ss,
                    None => r is None,
                },
                None => r is None,
            },
    {
        match self.get(key) {
            Some(ProfileValue::Array(items)) => {
                let ghost iv = items@.map_values(|x: ArrayItem| x@);
                let mut out: Vec<String> = Vec::new();
                let mut i: usize = 0;
                while i < items.len()
                    invariant
                        i <= items@.len(),
                        iv == items@.map_values(|x: ArrayItem| x@),
                        lookup(self@, key@) == Some(ValueView::Array(iv)),
                        out@.len() == i,
                        forall|k: int| 0 <= k < i ==> (#[trigger] iv[k]) == ItemView::Str(out@[k]@),
                    decreases items.len() - i,
                {
                    match &items[i] {
                        ArrayItem::Str(s) => {
                            out.push(s.clone());
                        },
                        ArrayItem::Json(_) => {
                            proof {
                                assert(!(iv[i as int] is Str));
                            }
                            return None;
                        },
                    }
                    i = i + 1;
                }
                proof {
                    assert forall|k: int| 0 <= k < iv.len() implies iv[k] is Str by {
                        assert(iv[k] == ItemView::Str(out@[k]@));
                    }
                    assert(out@.map_values(|s: String| s@) =~= iv.map_values(|x: ItemView| match x {
                        ItemView::Str(s) => s,
                        ItemView::Json(s) => s,
                    }));
                }
                Some(out)
            },
            _ => None,
        }
    }
}

} // verus!
