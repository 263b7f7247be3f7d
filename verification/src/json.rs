//! A plain JSON document model used by the request and response logic.
use crate::text::same_text;
use vstd::prelude::*;

verus! {

/// A JSON value. Numbers keep their decimal text, so no floating point is involved.
#[derive(Debug)]
pub enum Json {
    Null,
    Bool(bool),
    Number(String),
    Str(String),
    Array(Vec<Json>),
    Object(Vec<(String, Json)>),
}

/// The mathematical content of a [`Json`] value.
pub enum JsonV {
    Null,
    Bool(bool),
    Number(Seq<char>),
    Str(Seq<char>),
    Array(Seq<JsonV>),
    Object(Seq<(Seq<char>, JsonV)>),
}

pub open spec fn json_view(j: Json) -> JsonV
    decreases j, 1int,
{
    match j {
        Json::Null => JsonV::Null,
        Json::Bool(b) => JsonV::Bool(b),
        Json::Number(n) => JsonV::Number(n@),
        Json::Str(s) => JsonV::Str(s@),
        Json::Array(items) => JsonV::Array(items_view(items@)),
        Json::Object(entries) => JsonV::Object(entries_view(entries@)),
    }
}

pub open spec fn items_view(items: Seq<Json>) -> Seq<JsonV>
    decreases items, 0int,
{
    if items.len() == 0 {
        Seq::empty()
    } else {
        items_view(items.subrange(0, items.len() - 1)).push(json_view(items[items.len() - 1]))
    }
}

pub open spec fn entries_view(entries: Seq<(String, Json)>) -> Seq<(Seq<char>, JsonV)>
    decreases entries, 0int,
{
    if entries.len() == 0 {
        Seq::empty()
    } else {
        let last = entries[entries.len() - 1];
        entries_view(entries.subrange(0, entries.len() - 1)).push((last.0@, json_view(last.1)))
    }
}

impl View for Json {
    type V = JsonV;

    open spec fn view(&self) -> JsonV {
        json_view(*self)
    }
}


/// The entries view keeps the length and maps each entry pointwise.
pub proof fn lemma_entries_view(entries: Seq<(String, Json)>)
    ensures
        entries_view(entries).len() == entries.len(),
        forall|i: int|
            0 <= i < entries.len() ==> #[trigger] entries_view(entries)[i] == (
                entries[i].0@,
                json_view(entries[i].1),
            ),
    decreases entries.len(),
{
    if entries.len() > 0 {
        lemma_entries_view(entries.subrange(0, entries.len() - 1));
    }
}

/// The items view keeps the length and maps each item pointwise.
pub proof fn lemma_items_view(items: Seq<Json>)
    ensures
        items_view(items).len() == items.len(),
        forall|i: int| 0 <= i < items.len() ==> #[trigger] items_view(items)[i] == json_view(items[i]),
    decreases items.len(),
{
    if items.len() > 0 {
        lemma_items_view(items.subrange(0, items.len() - 1));
    }
}

/// `i` is the position of the first entry whose key is `key`.
pub open spec fn is_first_key(entries: Seq<(Seq<char>, JsonV)>, key: Seq<char>, i: int) -> bool {
    &&& 0 <= i < entries.len()
    &&& entries[i].0 == key
    &&& forall|j: int| 0 <= j < i ==> entries[j].0 != key
}

/// The value of the first entry with the given key, as `value[key]` reads an object.
pub open spec fn entry_value(entries: Seq<(Seq<char>, JsonV)>, key: Seq<char>) -> Option<JsonV> {
    if exists|i: int| is_first_key(entries, key, i) {
        Some(entries[choose|i: int| is_first_key(entries, key, i)].1)
    } else {
        None
    }
}

/// The first entry with a key gives that key's value.
pub proof fn lemma_entry_at(entries: Seq<(Seq<char>, JsonV)>, key: Seq<char>, i: int)
    requires
        is_first_key(entries, key, i),
    ensures
        entry_value(entries, key) == Some(entries[i].1),
{
    let c = choose|c: int| is_first_key(entries, key, c);
    assert(is_first_key(entries, key, c));
    if c < i {
        assert(entries[c].0 != key);
    } else if c > i {
        assert(entries[i].0 != key);
    }
}

/// An object without an entry for a key gives no value for it.
pub proof fn lemma_no_entry(entries: Seq<(Seq<char>, JsonV)>, key: Seq<char>)
    requires
        forall|j: int| 0 <= j < entries.len() ==> entries[j].0 != key,
    ensures
        entry_value(entries, key) is None,
{
    if exists|i: int| is_first_key(entries, key, i) {
        let i = choose|i: int| is_first_key(entries, key, i);
        assert(entries[i].0 == key);
    }
}

/// Field lookup on an optional value; anything but an object holding the key gives `None`.
pub open spec fn field(j: Option<JsonV>, key: Seq<char>) -> Option<JsonV> {
    match j {
        Some(JsonV::Object(entries)) => entry_value(entries, key),
        _ => None,
    }
}

/// Element lookup on an optional value; anything but an array long enough gives `None`.
pub open spec fn element(j: Option<JsonV>, i: int) -> Option<JsonV> {
    match j {
        Some(JsonV::Array(items)) => if 0 <= i < items.len() { Some(items[i]) } else { None },
        _ => None,
    }
}

/// The text of a string value.
pub open spec fn text_of(j: Option<JsonV>) -> Option<Seq<char>> {
    match j {
        Some(JsonV::Str(s)) => Some(s),
        _ => None,
    }
}

/// The items of an array value.
pub open spec fn items_of(j: Option<JsonV>) -> Option<Seq<JsonV>> {
    match j {
        Some(JsonV::Array(items)) => Some(items),
        _ => None,
    }
}

/// The entries of an object value.
pub open spec fn entries_of(j: Option<JsonV>) -> Option<Seq<(Seq<char>, JsonV)>> {
    match j {
        Some(JsonV::Object(entries)) => Some(entries),
        _ => None,
    }
}

/// The views of a list of JSON values.
pub open spec fn values_view(v: Seq<Json>) -> Seq<JsonV> {
    v.map_values(|j: Json| j@)
}

/// The items view of a vector is the pointwise view.
pub proof fn lemma_values_view(v: Seq<Json>)
    ensures
        items_view(v) == values_view(v),
{
    lemma_items_view(v);
    assert(items_view(v) =~= values_view(v));
}

/// The content of an optional borrowed value.
pub open spec fn opt_view(o: Option<&Json>) -> Option<JsonV> {
    match o {
        Some(j) => Some(j@),
        None => None,
    }
}

/// Field lookup on an optional value, as `value[key]` reads it.
pub fn at_field<'a>(o: Option<&'a Json>, key: &str) -> (r: Option<&'a Json>)
    ensures
        opt_view(r) == field(opt_view(o), key@),
{
    match o {
        Some(j) => j.get_field(key),
        None => None,
    }
}

/// Element lookup on an optional value, as `value[i]` reads it.
pub fn at_element<'a>(o: Option<&'a Json>, i: usize) -> (r: Option<&'a Json>)
    ensures
        opt_view(r) == element(opt_view(o), i as int),
{
    match o {
        Some(j) => j.get_element(i),
        None => None,
    }
}

/// The text of an optional value, as `value.as_str()` reads it.
pub fn text_at<'a>(o: Option<&'a Json>) -> (r: Option<&'a String>)
    ensures
        match r {
            Some(s) => text_of(opt_view(o)) == Some(s@),
            None => text_of(opt_view(o)) is None,
        },
{
    match o {
        Some(j) => j.as_text(),
        None => None,
    }
}

/// The items of an optional value, as `value.as_array()` reads them.
pub fn items_at<'a>(o: Option<&'a Json>) -> (r: Option<&'a Vec<Json>>)
    ensures
        match r {
            Some(v) => items_of(opt_view(o)) == Some(values_view(v@)),
            None => items_of(opt_view(o)) is None,
        },
{
    match o {
        Some(Json::Array(items)) => {
            proof {
                lemma_values_view(items@);
            }
            Some(items)
        },
        _ => None,
    }
}

/// The entries of an optional value, as `value.as_object()` reads them.
pub fn entries_at<'a>(o: Option<&'a Json>) -> (r: Option<&'a Vec<(String, Json)>>)
    ensures
        match r {
            Some(e) => entries_of(opt_view(o)) == Some(entries_view(e@)),
            None => entries_of(opt_view(o)) is None,
        },
{
    match o {
        Some(Json::Object(entries)) => Some(entries),
        _ => None,
    }
}

/// Copies of the entries of an object.
pub fn duplicate_entries(e: &Vec<(String, Json)>) -> (r: Vec<(String, Json)>)
    ensures
        entries_view(r@) == entries_view(e@),
{
    let mut r: Vec<(String, Json)> = Vec::new();
    let mut i: usize = 0;
    proof {
        lemma_entries_view(e@);
    }
    while i < e.len()
        invariant
            i <= e.len(),
            r.len() == i,
            forall|k: int| 0 <= k < i ==> (#[trigger] r@[k]).0@ == e@[k].0@ && r@[k].1@ == e@[k].1@,
        decreases e.len() - i,
    {
        r.push((e[i].0.clone(), e[i].1.duplicate()));
        i = i + 1;
    }
    proof {
        lemma_entries_view(r@);
        assert(entries_view(r@) =~= entries_view(e@));
    }
    r
}

/// The value of the first entry named `key`, as `object[key]` reads it.
pub fn entry_lookup<'a>(entries: &'a Vec<(String, Json)>, key: &str) -> (r: Option<&'a Json>)
    ensures
        match r {
            Some(v) => entry_value(entries_view(entries@), key@) == Some(v@),
            None => entry_value(entries_view(entries@), key@) is None,
        },
{
    proof {
        lemma_entries_view(entries@);
    }
    let ghost ev = entries_view(entries@);
    let mut i: usize = 0;
    while i < entries.len()
        invariant
            i <= entries.len(),
            ev == entries_view(entries@),
            ev.len() == entries.len(),
            forall|k: int| 0 <= k < entries.len() ==> #[trigger] ev[k] == (entries@[k].0@, json_view(entries@[k].1)),
            forall|k: int| 0 <= k < i ==> ev[k].0 != key@,
        decreases entries.len() - i,
    {
        if same_text(entries[i].0.as_str(), key) {
            assert(ev[i as int] == (entries@[i as int].0@, json_view(entries@[i as int].1)));
            assert(is_first_key(ev, key@, i as int));
            assert forall|c: int| is_first_key(ev, key@, c) implies c == i by {
                if c < i {
                    assert(ev[c].0 != key@);
                } else if c > i {
                    assert(ev[i as int].0 == key@);
                }
            }
            return Some(&entries[i].1);
        }
        i = i + 1;
    }
    None
}

impl Json {
    /// The value stored under `key`, when `self` is an object that holds it.
    pub fn get_field(&self, key: &str) -> (r: Option<&Json>)
        ensures
            match r {
                Some(v) => field(Some(self@), key@) == Some(v@),
                None => field(Some(self@), key@) is None,
            },
    {
        match self {
            Json::Object(entries) => entry_lookup(entries, key),
            _ => None,
        }
    }

    /// The element at position `i`, when `self` is an array that long.
    pub fn get_element(&self, i: usize) -> (r: Option<&Json>)
        ensures
            match r {
                Some(v) => element(Some(self@), i as int) == Some(v@),
                None => element(Some(self@), i as int) is None,
            },
    {
        match self {
            Json::Array(items) => {
                proof {
                    lemma_items_view(items@);
                }
                if i < items.len() {
                    Some(&items[i])
                } else {
                    None
                }
            },
            _ => None,
        }
    }

    /// The text of a string value.
    pub fn as_text(&self) -> (r: Option<&String>)
        ensures
            match r {
                Some(s) => text_of(Some(self@)) == Some(s@),
                None => text_of(Some(self@)) is None,
            },
    {
        match self {
            Json::Str(s) => Some(s),
            _ => None,
        }
    }

    /// A copy of this value with the same content.
    pub fn duplicate(&self) -> (r: Json)
        ensures
            r@ == self@,
        decreases self,
    {
        match self {
            Json::Null => Json::Null,
            Json::Bool(b) => Json::Bool(*b),
            Json::Number(n) => Json::Number(n.clone()),
            Json::Str(s) => Json::Str(s.clone()),
            Json::Array(items) => {
                let mut out: Vec<Json> = Vec::new();
                let mut i: usize = 0;
                proof {
                    lemma_items_view(items@);
                }
                while i < items.len()
                    invariant
                        i <= items.len(),
                        *self == Json::Array(*items),
                        out.len() == i,
                        forall|k: int| 0 <= k < i ==> #[trigger] json_view(out@[k]) == json_view(items@[k]),
                    decreases items.len() - i,
                {
                    proof {
                        vstd::std_specs::vec::axiom_vec_index_decreases(*items, i as int);
                        assert(decreases_to!(*self => (*self)->Array_0));
                        assert(decreases_to!(*self => items[i as int]));
                    }
                    let c = items[i].duplicate();
                    out.push(c);
                    i = i + 1;
                }
                proof {
                    lemma_items_view(out@);
                    assert(items_view(out@) =~= items_view(items@));
                }
                Json::Array(out)
            },
            Json::Object(entries) => {
                let mut out: Vec<(String, Json)> = Vec::new();
                let mut i: usize = 0;
                proof {
                    lemma_entries_view(entries@);
                }
                while i < entries.len()
                    invariant
                        i <= entries.len(),
                        *self == Json::Object(*entries),
                        out.len() == i,
                        forall|k: int|
                            0 <= k < i ==> (#[trigger] out@[k]).0@ == entries@[k].0@ && json_view(out@[k].1) == json_view(entries@[k].1),
                    decreases entries.len() - i,
                {
                    proof {
                        vstd::std_specs::vec::axiom_vec_index_decreases(*entries, i as int);
                        assert(decreases_to!(*self => (*self)->Object_0));
                        assert(decreases_to!(*self => entries[i as int]));
                        assert(decreases_to!(*self => entries[i as int].1));
                    }
                    let c = entries[i].1.duplicate();
                    let k = entries[i].0.clone();
                    out.push((k, c));
                    i = i + 1;
                }
                proof {
                    lemma_entries_view(out@);
                    assert(entries_view(out@) =~= entries_view(entries@));
                }
                Json::Object(out)
            },
        }
    }
}

} // verus!
