use vstd::prelude::*;
use vstd::string::*;

verus! {

/// A value under its name.
#[derive(Clone, Debug)]
struct Named<V> {
    name: String,
    value: V,
}

spec fn has_name<V>(entries: Seq<Named<V>>, name: Seq<char>) -> bool {
    exists|i: int| 0 <= i < entries.len() && (#[trigger] entries[i]).name@ == name
}

spec fn index_of<V>(entries: Seq<Named<V>>, name: Seq<char>) -> int {
    choose|i: int| 0 <= i < entries.len() && (#[trigger] entries[i]).name@ == name
}

spec fn distinct<V>(entries: Seq<Named<V>>) -> bool {
    forall|i: int, j: int|
        0 <= i < j < entries.len() ==> (#[trigger] entries[i]).name@ != (#[trigger] entries[j]).name@
}

spec fn entries_map<V>(entries: Seq<Named<V>>) -> Map<Seq<char>, V> {
    Map::new(
        |name: Seq<char>| has_name(entries, name),
        |name: Seq<char>| entries[index_of(entries, name)].value,
    )
}

proof fn lemma_entry_at<V>(entries: Seq<Named<V>>, i: int)
    requires
        distinct(entries),
        0 <= i < entries.len(),
    ensures
        has_name(entries, entries[i].name@),
        index_of(entries, entries[i].name@) == i,
        entries_map(entries).contains_key(entries[i].name@),
        entries_map(entries)[entries[i].name@] == entries[i].value,
{
    let name = entries[i].name@;
    assert(has_name(entries, name));
    let j = index_of(entries, name);
    assert(0 <= j < entries.len() && entries[j].name@ == name);
    if j < i {
        assert(entries[j].name@ != entries[i].name@);
    } else if i < j {
        assert(entries[i].name@ != entries[j].name@);
    }
}

proof fn lemma_push_entry<V>(entries: Seq<Named<V>>, entry: Named<V>)
    requires
        distinct(entries),
        !has_name(entries, entry.name@),
    ensures
        distinct(entries.push(entry)),
        entries_map(entries.push(entry)) == entries_map(entries).insert(entry.name@, entry.value),
{
    let after = entries.push(entry);
    assert forall|i: int, j: int| 0 <= i < j < after.len() implies (#[trigger] after[i]).name@ != (
    #[trigger] after[j]).name@ by {
        if j < entries.len() {
            assert(entries[i].name@ != entries[j].name@);
        } else {
            assert(entries[i].name@ != entry.name@);
        }
    }
    assert forall|name: Seq<char>|
        has_name(after, name) == (has_name(entries, name) || name == entry.name@) by {
        if has_name(entries, name) {
            let i = index_of(entries, name);
            assert(after[i].name@ == name);
        }
        if name == entry.name@ {
            assert(after[entries.len() as int].name@ == name);
        }
        if has_name(after, name) {
            let i = index_of(after, name);
            if i < entries.len() {
                assert(entries[i].name@ == name);
            }
        }
    }
    assert forall|name: Seq<char>| has_name(after, name) implies #[trigger] entries_map(after)[name]
        == entries_map(entries).insert(entry.name@, entry.value)[name] by {
        let i = index_of(after, name);
        lemma_entry_at(after, i);
        if i < entries.len() {
            assert(after[i] == entries[i]);
            lemma_entry_at(entries, i);
        }
    }
    assert(entries_map(after) =~= entries_map(entries).insert(entry.name@, entry.value));
}

proof fn lemma_remove_entry<V>(entries: Seq<Named<V>>, i: int)
    requires
        distinct(entries),
        0 <= i < entries.len(),
    ensures
        distinct(entries.remove(i)),
        !has_name(entries.remove(i), entries[i].name@),
        entries_map(entries.remove(i)) == entries_map(entries).remove(entries[i].name@),
{
    let name = entries[i].name@;
    let after = entries.remove(i);
    assert forall|a: int, b: int| 0 <= a < b < after.len() implies (#[trigger] after[a]).name@ != (
    #[trigger] after[b]).name@ by {
        let a0 = if a < i { a } else { a + 1 };
        let b0 = if b < i { b } else { b + 1 };
        assert(after[a] == entries[a0]);
        assert(after[b] == entries[b0]);
        assert(entries[a0].name@ != entries[b0].name@);
    }
    assert forall|k: Seq<char>| has_name(after, k) == (has_name(entries, k) && k != name) by {
        if has_name(after, k) {
            let j = index_of(after, k);
            let j0 = if j < i { j } else { j + 1 };
            assert(after[j] == entries[j0]);
            assert(entries[j0].name@ == k);
            if j0 < i {
                assert(entries[j0].name@ != entries[i].name@);
            } else {
                assert(entries[i].name@ != entries[j0].name@);
            }
        }
        if has_name(entries, k) && k != name {
            let j = index_of(entries, k);
            let j1 = if j < i { j } else { j - 1 };
            assert(after[j1] == entries[j]);
            assert(after[j1].name@ == k);
        }
    }
    assert forall|k: Seq<char>| has_name(after, k) implies #[trigger] entries_map(after)[k]
        == entries_map(entries).remove(name)[k] by {
        let j = index_of(after, k);
        lemma_entry_at(after, j);
        let j0 = if j < i { j } else { j + 1 };
        assert(after[j] == entries[j0]);
        lemma_entry_at(entries, j0);
    }
    assert(entries_map(after) =~= entries_map(entries).remove(name));
}

proof fn lemma_domain_len<V>(entries: Seq<Named<V>>)
    requires
        distinct(entries),
    ensures
        entries_map(entries).dom().finite(),
        entries_map(entries).dom().len() == entries.len(),
    decreases entries.len(),
{
    if entries.len() == 0 {
        assert(entries_map(entries).dom() =~= Set::<Seq<char>>::empty());
    } else {
        let i = entries.len() - 1;
        let front = entries.remove(i);
        lemma_remove_entry(entries, i);
        lemma_domain_len(front);
        lemma_entry_at(entries, i);
        assert(entries_map(entries).dom() =~= entries_map(front).dom().insert(entries[i].name@));
    }
}

/// Values under names, one value to a name.
#[derive(Clone, Debug)]
pub struct NameTable<V> {
    entries: Vec<Named<V>>,
}

impl<V> View for NameTable<V> {
    type V = Map<Seq<char>, V>;

    closed spec fn view(&self) -> Map<Seq<char>, V> {
        entries_map(self.entries@)
    }
}

impl<V> NameTable<V> {
    /// No name occurs twice.
    pub closed spec fn wf(&self) -> bool {
        distinct(self.entries@)
    }

    /// The names in the order in which the table holds them.
    pub closed spec fn spec_names(&self) -> Seq<Seq<char>> {
        Seq::new(self.entries@.len(), |i: int| self.entries@[i].name@)
    }

    /// `spec_names` lists each name of the table once.
    pub proof fn lemma_names(&self)
        requires
            self.wf(),
        ensures
            self.spec_names().no_duplicates(),
            self.spec_names().len() == self@.dom().len(),
            self@.dom().finite(),
            forall|name: Seq<char>| self.spec_names().contains(name) <==> self@.contains_key(name),
    {
        let names = self.spec_names();
        lemma_domain_len(self.entries@);
        assert forall|name: Seq<char>| names.contains(name) <==> self@.contains_key(name) by {
            if names.contains(name) {
                let i = choose|i: int| 0 <= i < names.len() && names[i] == name;
                assert(self.entries@[i].name@ == name);
            }
            if self@.contains_key(name) {
                let i = index_of(self.entries@, name);
                assert(names[i] == name);
            }
        }
    }

    /// A table without names.
    pub fn new() -> (r: NameTable<V>)
        ensures
            r.wf(),
            r@ == Map::<Seq<char>, V>::empty(),
    {
        let r = NameTable { entries: Vec::new() };
        assert(r@ =~= Map::<Seq<char>, V>::empty());
        r
    }

    /// The number of names.
    pub fn len(&self) -> (r: usize)
        requires
            self.wf(),
        ensures
            r == self@.dom().len(),
            r == self.spec_names().len(),
            self@.dom().finite(),
    {
        proof {
            lemma_domain_len(self.entries@);
        }
        self.entries.len()
    }

    /// The position of `name`.
    fn find(&self, name: &str) -> (r: Option<usize>)
        ensures
            match r {
                Some(i) => i < self.entries@.len() && self.entries@[i as int].name@ == name@,
                None => !has_name(self.entries@, name@),
            },
    {
        let mut i: usize = 0;
        while i < self.entries.len()
            invariant
                i <= self.entries@.len(),
                forall|j: int| 0 <= j < i ==> (#[trigger] self.entries@[j]).name@ != name@,
            decreases self.entries@.len() - i,
        {
            if same_text(self.entries[i].name.as_str(), name) {
                return Some(i);
            }
            i += 1;
        }
        None
    }

    /// Whether the table holds a value under `name`.
    pub fn contains(&self, name: &str) -> (r: bool)
        requires
            self.wf(),
        ensures
            r == self@.contains_key(name@),
    {
        self.find(name).is_some()
    }

    /// The value under `name`.
    pub fn get(&self, name: &str) -> (r: Option<&V>)
        requires
            self.wf(),
        ensures
            r is Some <==> self@.contains_key(name@),
            r is Some ==> *r->Some_0 == self@[name@],
    {
        match self.find(name) {
            Some(i) => {
                proof {
                    lemma_entry_at(self.entries@, i as int);
                }
                Some(&self.entries[i].value)
            },
            None => None,
        }
    }

    /// Puts `value` under `name` and hands out the value that stood there
    /// before.
    pub fn insert(&mut self, name: String, value: V) -> (r: Option<V>)
        requires
            old(self).wf(),
        ensures
            final(self).wf(),
            final(self)@ == old(self)@.insert(name@, value),
            r is Some <==> old(self)@.contains_key(name@),
            r is Some ==> r->Some_0 == old(self)@[name@],
    {
        let found = self.find(name.as_str());
        let ghost before = self.entries@;
        match found {
            Some(i) => {
                let previous = self.entries.remove(i);
                let ghost middle = self.entries@;
                self.entries.push(Named { name, value });
                proof {
                    lemma_entry_at(before, i as int);
                    lemma_remove_entry(before, i as int);
                    lemma_push_entry(middle, Named { name, value });
                    assert(final(self)@ =~= old(self)@.insert(name@, value));
                }
                Some(previous.value)
            },
            None => {
                self.entries.push(Named { name, value });
                proof {
                    lemma_push_entry(before, Named { name, value });
                }
                None
            },
        }
    }

    /// The name at position `i` of `spec_names`.
    pub fn name_at(&self, i: usize) -> (r: &String)
        requires
            self.wf(),
            i < self.spec_names().len(),
        ensures
            r@ == self.spec_names()[i as int],
    {
        &self.entries[i].name
    }

    /// The value under the name at position `i` of `spec_names`.
    pub fn value_at(&self, i: usize) -> (r: &V)
        requires
            self.wf(),
            i < self.spec_names().len(),
        ensures
            self@.contains_key(self.spec_names()[i as int]),
            *r == self@[self.spec_names()[i as int]],
    {
        proof {
            lemma_entry_at(self.entries@, i as int);
        }
        &self.entries[i].value
    }
}

/// Whether two texts hold the same characters.
pub fn same_text(a: &str, b: &str) -> (r: bool)
    ensures
        r == (a@ == b@),
{
    let x = String::from_str(a);
    let y = String::from_str(b);
    x == y
}

} // verus!
