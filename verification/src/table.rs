//! A table of values keyed by name, in registration order.
use crate::text::same_text;
use vstd::prelude::*;

verus! {

/// Whether `i` is the position of the entry named `name`.
pub open spec fn is_entry_of<T>(entries: Seq<(String, T)>, name: Seq<char>, i: int) -> bool {
    0 <= i < entries.len() && entries[i].0@ == name
}

/// The position of the entry named `name`, or -1.
pub open spec fn position_of<T>(entries: Seq<(String, T)>, name: Seq<char>) -> int {
    if exists|i: int| is_entry_of(entries, name, i) {
        choose|i: int| is_entry_of(entries, name, i)
    } else {
        -1
    }
}

/// The names of the entries, in order.
pub open spec fn entry_names<T>(entries: Seq<(String, T)>) -> Seq<Seq<char>> {
    entries.map_values(|e: (String, T)| e.0@)
}

/// Whether no two entries share a name.
pub open spec fn names_distinct<T>(entries: Seq<(String, T)>) -> bool {
    forall|i: int, j: int|
        0 <= i < entries.len() && 0 <= j < entries.len() && i != j ==> entries[i].0@ != entries[j].0@
}

/// The table as a map from names to values.
pub open spec fn table_map<T>(entries: Seq<(String, T)>) -> Map<Seq<char>, T> {
    Map::new(
        |k: Seq<char>| exists|i: int| is_entry_of(entries, k, i),
        |k: Seq<char>| entries[position_of(entries, k)].1,
    )
}

/// What registering `value` under `name` does: the map gains or replaces the entry;
/// a known name keeps its place, a new one goes to the end.
pub open spec fn is_registration<T>(before: NameTable<T>, after: NameTable<T>, name: Seq<char>, value: T) -> bool {
    &&& after@ == before@.insert(name, value)
    &&& before@.contains_key(name) ==> after.names() == before.names()
    &&& !before@.contains_key(name) ==> after.names() == before.names().push(name)
}

/// Values keyed by name. Registering a name again replaces its value in place; new
/// names go to the end.
#[derive(Debug)]
pub struct NameTable<T> {
    pub entries: Vec<(String, T)>,
}

impl<T> View for NameTable<T> {
    type V = Map<Seq<char>, T>;

    open spec fn view(&self) -> Map<Seq<char>, T> {
        table_map(self.entries@)
    }
}

impl<T> NameTable<T> {
    /// The table's invariant: names are distinct.
    pub open spec fn wf(&self) -> bool {
        names_distinct(self.entries@)
    }

    /// The names, in registration order.
    pub open spec fn names(&self) -> Seq<Seq<char>> {
        entry_names(self.entries@)
    }

    /// An empty table.
    pub fn new() -> (r: Self)
        ensures
            r.wf(),
            r@ == Map::<Seq<char>, T>::empty(),
            r.names() == Seq::<Seq<char>>::empty(),
    {
        let r = NameTable { entries: Vec::new() };
        assert(r@ =~= Map::<Seq<char>, T>::empty());
        assert(r.names() =~= Seq::<Seq<char>>::empty());
        r
    }

    /// The position of the entry named `name`, if any.
    pub fn find(&self, name: &str) -> (r: Option<usize>)
        requires
            self.wf(),
        ensures
            match r {
                Some(i) => is_entry_of(self.entries@, name@, i as int) && position_of(self.entries@, name@) == i,
                None => !self@.contains_key(name@),
            },
    {
        let mut i: usize = 0;
        while i < self.entries.len()
            invariant
                i <= self.entries.len(),
                names_distinct(self.entries@),
                forall|k: int| 0 <= k < i ==> self.entries@[k].0@ != name@,
            decreases self.entries.len() - i,
        {
            if same_text(self.entries[i].0.as_str(), name) {
                assert(is_entry_of(self.entries@, name@, i as int));
                assert forall|c: int| is_entry_of(self.entries@, name@, c) implies c == i by {
                    if c != i {
                        assert(self.entries@[c].0@ != self.entries@[i as int].0@);
                    }
                }
                return Some(i);
            }
            i = i + 1;
        }
        None
    }

    /// The value registered under `name`.
    pub fn get(&self, name: &str) -> (r: Option<&T>)
        requires
            self.wf(),
        ensures
            match r {
                Some(v) => self@.contains_key(name@) && self@[name@] == *v,
                None => !self@.contains_key(name@),
            },
    {
        match self.find(name) {
            Some(i) => Some(&self.entries[i].1),
            None => None,
        }
    }

    /// The number of entries.
    pub fn len(&self) -> (r: usize)
        ensures
            r == self.names().len(),
    {
        self.entries.len()
    }

    /// Registers `value` under `name`, replacing the value already there.
    pub fn insert(&mut self, name: String, value: T)
        requires
            old(self).wf(),
        ensures
            final(self).wf(),
            is_registration(*old(self), *final(self), name@, value),
    {
        let ghost key = name@;
        let ghost old_entries = self.entries@;
        match self.find(name.as_str()) {
            Some(i) => {
                self.entries[i] = (name, value);
                proof {
                    let e = self.entries@;
                    assert(e == old_entries.update(i as int, (e[i as int].0, value)));
                    assert forall|k: Seq<char>| #![auto] table_map(e).contains_key(k) == table_map(old_entries).insert(key, value).contains_key(k) by {
                        if exists|j: int| is_entry_of(old_entries, k, j) {
                            let j = choose|j: int| is_entry_of(old_entries, k, j);
                            assert(is_entry_of(e, k, j));
                        }
                        if exists|j: int| is_entry_of(e, k, j) {
                            let j = choose|j: int| is_entry_of(e, k, j);
                            if j != i {
                                assert(is_entry_of(old_entries, k, j));
                            }
                        }
                    }
                    assert forall|k: Seq<char>| #[trigger] table_map(e).contains_key(k) implies table_map(e)[k] == table_map(old_entries).insert(key, value)[k] by {
                        let j = position_of(e, k);
                        if k == key {
                            assert(is_entry_of(e, k, i as int));
                            assert(j == i) by {
                                if j != i {
                                    assert(e[j].0@ == e[i as int].0@);
                                }
                            }
                        } else {
                            assert(is_entry_of(old_entries, k, j));
                            let oj = position_of(old_entries, k);
                            assert(oj == j) by {
                                if oj != j {
                                    assert(old_entries[oj].0@ == old_entries[j].0@);
                                }
                            }
                        }
                    }
                    assert(table_map(e) =~= table_map(old_entries).insert(key, value));
                    assert(entry_names(e) =~= entry_names(old_entries));
                }
            },
            None => {
                self.entries.push((name, value));
                proof {
                    let e = self.entries@;
                    let n = old_entries.len() as int;
                    assert forall|k: Seq<char>| #![auto] table_map(e).contains_key(k) == table_map(old_entries).insert(key, value).contains_key(k) by {
                        if exists|j: int| is_entry_of(old_entries, k, j) {
                            let j = choose|j: int| is_entry_of(old_entries, k, j);
                            assert(is_entry_of(e, k, j));
                        }
                        if k == key {
                            assert(is_entry_of(e, k, n));
                        }
                        if exists|j: int| is_entry_of(e, k, j) {
                            let j = choose|j: int| is_entry_of(e, k, j);
                            if j != n {
                                assert(is_entry_of(old_entries, k, j));
                            }
                        }
                    }
                    assert forall|k: Seq<char>| #[trigger] table_map(e).contains_key(k) implies table_map(e)[k] == table_map(old_entries).insert(key, value)[k] by {
                        let j = position_of(e, k);
                        if k == key {
                            assert(is_entry_of(e, k, n));
                            if j != n {
                                assert(is_entry_of(old_entries, k, j));
                            }
                        } else {
                            assert(j != n);
                            assert(is_entry_of(old_entries, k, j));
                            let oj = position_of(old_entries, k);
                            assert(oj == j) by {
                                if oj != j {
                                    assert(old_entries[oj].0@ == old_entries[j].0@);
                                }
                            }
                        }
                    }
                    assert(table_map(e) =~= table_map(old_entries).insert(key, value));
                    assert(entry_names(e) =~= entry_names(old_entries).push(key));
                    assert forall|a: int, b: int| 0 <= a < e.len() && 0 <= b < e.len() && a != b implies e[a].0@ != e[b].0@ by {
                        if a == n {
                            assert(!is_entry_of(old_entries, key, b));
                        } else if b == n {
                            assert(!is_entry_of(old_entries, key, a));
                        }
                    }
                }
            },
        }
    }

    /// Removes the entry named `name` and returns its value, if there was one.
    pub fn remove(&mut self, name: &str) -> (r: Option<T>)
        requires
            old(self).wf(),
        ensures
            final(self).wf(),
            final(self)@ == old(self)@.remove(name@),
            match r {
                Some(v) => old(self)@.contains_key(name@) && old(self)@[name@] == v,
                None => !old(self)@.contains_key(name@),
            },
    {
        let ghost key = name@;
        let ghost old_entries = self.entries@;
        match self.find(name) {
            Some(i) => {
                let (_, v) = self.entries.remove(i);
                proof {
                    let e = self.entries@;
                    assert(e == old_entries.remove(i as int));
                    assert forall|k: Seq<char>| #![auto] table_map(e).contains_key(k) == table_map(old_entries).remove(key).contains_key(k) by {
                        if exists|j: int| is_entry_of(e, k, j) {
                            let j = choose|j: int| is_entry_of(e, k, j);
                            if j < i {
                                assert(is_entry_of(old_entries, k, j));
                                assert(k != key) by {
                                    assert(old_entries[j].0@ != old_entries[i as int].0@);
                                }
                            } else {
                                assert(is_entry_of(old_entries, k, j + 1));
                                assert(k != key) by {
                                    assert(old_entries[j + 1].0@ != old_entries[i as int].0@);
                                }
                            }
                        }
                        if k != key && exists|j: int| is_entry_of(old_entries, k, j) {
                            let j = choose|j: int| is_entry_of(old_entries, k, j);
                            if j < i {
                                assert(is_entry_of(e, k, j));
                            } else {
                                assert(j != i);
                                assert(is_entry_of(e, k, j - 1));
                            }
                        }
                    }
                    assert forall|k: Seq<char>| #[trigger] table_map(e).contains_key(k) implies table_map(e)[k] == table_map(old_entries).remove(key)[k] by {
                        let j = position_of(e, k);
                        let oj = position_of(old_entries, k);
                        let mapped = if j < i { j } else { j + 1 };
                        assert(is_entry_of(old_entries, k, mapped));
                        assert(oj == mapped) by {
                            if oj != mapped {
                                assert(old_entries[oj].0@ == old_entries[mapped].0@);
                            }
                        }
                    }
                    assert(table_map(e) =~= table_map(old_entries).remove(key));
                    assert forall|a: int, b: int| 0 <= a < e.len() && 0 <= b < e.len() && a != b implies e[a].0@ != e[b].0@ by {
                        let oa = if a < i { a } else { a + 1 };
                        let ob = if b < i { b } else { b + 1 };
                        assert(old_entries[oa].0@ != old_entries[ob].0@);
                    }
                }
                Some(v)
            },
            None => {
                assert(table_map(self.entries@) =~= table_map(old_entries).remove(key));
                None
            },
        }
    }

    /// The names, in registration order.
    pub fn names_list(&self) -> (r: Vec<String>)
        ensures
            r@.map_values(|s: String| s@) == self.names(),
    {
        let mut r: Vec<String> = Vec::new();
        let mut i: usize = 0;
        while i < self.entries.len()
            invariant
                i <= self.entries.len(),
                r.len() == i,
                forall|k: int| 0 <= k < i ==> #[trigger] r@[k]@ == self.entries@[k].0@,
            decreases self.entries.len() - i,
        {
            r.push(self.entries[i].0.clone());
            i = i + 1;
        }
        assert(r@.map_values(|s: String| s@) =~= entry_names(self.entries@));
        r
    }
}

/// Read after write: after registering `value` under `name`, looking up `name` gives
/// `value`, and every other name gives what it gave before.
pub proof fn law_read_after_write<T>(before: Map<Seq<char>, T>, after: Map<Seq<char>, T>, name: Seq<char>, value: T, other: Seq<char>)
    requires
        after == before.insert(name, value),
    ensures
        after.contains_key(name) && after[name] == value,
        other != name ==> (after.contains_key(other) == before.contains_key(other)),
        other != name && before.contains_key(other) ==> after[other] == before[other],
{
}

/// Registering a name that is already there replaces its value and keeps the table's
/// size; a new name adds one entry.
pub proof fn law_registration_size<T>(before: NameTable<T>, after: NameTable<T>, name: Seq<char>, value: T)
    requires
        before.wf(),
        after.wf(),
        is_registration(before, after, name, value),
    ensures
        before@.contains_key(name) ==> after.names().len() == before.names().len(),
        !before@.contains_key(name) ==> after.names().len() == before.names().len() + 1,
{
}

/// After removing a name, looking it up finds nothing, and other names are untouched.
pub proof fn law_remove_then_absent<T>(before: Map<Seq<char>, T>, after: Map<Seq<char>, T>, name: Seq<char>, other: Seq<char>)
    requires
        after == before.remove(name),
    ensures
        !after.contains_key(name),
        other != name ==> (after.contains_key(other) == before.contains_key(other)),
        other != name && before.contains_key(other) ==> after[other] == before[other],
{
}

} // verus!
