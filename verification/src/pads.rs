//! The pads that a source element has at the moment, by name.

use vstd::prelude::*;

verus! {

/// A pad in the table.
#[derive(Debug)]
pub struct PadEntry<P> {
    pub name: String,
    pub handle: P,
}

/// Pads by name. A name stands for at most one pad.
#[derive(Debug)]
pub struct PadTable<P> {
    entries: Vec<PadEntry<P>>,
}

/// Whether no name occurs twice.
pub open spec fn names_are_distinct<P>(entries: Seq<PadEntry<P>>) -> bool {
    forall|i: int, j: int|
        0 <= i < j < entries.len() ==> #[trigger] entries[i].name@ != #[trigger] entries[j].name@
}

/// Whether some entry has that name.
pub open spec fn has_name<P>(entries: Seq<PadEntry<P>>, name: Seq<char>) -> bool {
    exists|i: int| 0 <= i < entries.len() && #[trigger] entries[i].name@ == name
}

/// The entry of that name.
pub open spec fn index_of_name<P>(entries: Seq<PadEntry<P>>, name: Seq<char>) -> int {
    choose|i: int| 0 <= i < entries.len() && #[trigger] entries[i].name@ == name
}

/// The handles of entries, by name.
pub open spec fn entries_map<P>(entries: Seq<PadEntry<P>>) -> Map<Seq<char>, P> {
    Map::new(
        |name: Seq<char>| has_name(entries, name),
        |name: Seq<char>| entries[index_of_name(entries, name)].handle,
    )
}

impl<P> View for PadTable<P> {
    type V = Map<Seq<char>, P>;

    closed spec fn view(&self) -> Map<Seq<char>, P> {
        entries_map(self.entries@)
    }
}

/// With distinct names, the map holds the handle of each entry.
proof fn lemma_entry_in_map<P>(entries: Seq<PadEntry<P>>, i: int)
    requires
        names_are_distinct(entries),
        0 <= i < entries.len(),
    ensures
        entries_map(entries).dom().contains(entries[i].name@),
        entries_map(entries)[entries[i].name@] == entries[i].handle,
{
    let j = index_of_name(entries, entries[i].name@);
    assert(has_name(entries, entries[i].name@));
    assert(0 <= j < entries.len() && entries[j].name@ == entries[i].name@);
    assert(i == j);
}

impl<P> PadTable<P> {
    /// Whether the table is as its operations leave it.
    pub closed spec fn wf(&self) -> bool {
        names_are_distinct(self.entries@)
    }

    /// A table without pads.
    pub fn new() -> (table: PadTable<P>)
        ensures
            table.wf(),
            table@ == Map::<Seq<char>, P>::empty(),
    {
        let table = PadTable { entries: Vec::new() };
        assert(table@ =~= Map::<Seq<char>, P>::empty());
        table
    }

    /// Where the pad of that name is.
    fn position(&self, name: &String) -> (position: Option<usize>)
        requires
            self.wf(),
        ensures
            position is None <==> !has_name(self.entries@, name@),
            position matches Some(i) ==> i < self.entries.len() && self.entries@[i as int].name@
                == name@,
    {
        let mut i: usize = 0;
        while i < self.entries.len()
            invariant
                i <= self.entries.len(),
                forall|j: int| 0 <= j < i ==> #[trigger] self.entries@[j].name@ != name@,
            decreases self.entries.len() - i,
        {
            if self.entries[i].name == *name {
                return Some(i);
            }
            i += 1;
        }
        None
    }

    /// Enters a pad; a pad that had the name before leaves the table and is returned.
    pub fn insert(&mut self, name: String, handle: P) -> (replaced: Option<P>)
        requires
            old(self).wf(),
        ensures
            final(self).wf(),
            final(self)@ == old(self)@.insert(name@, handle),
            replaced == (if old(self)@.dom().contains(name@) {
                Some(old(self)@[name@])
            } else {
                None
            }),
    {
        let replaced = self.remove(&name);
        let ghost before = self.entries@;
        let ghost entry = PadEntry { name, handle };
        self.entries.push(PadEntry { name, handle });
        proof {
            let after = self.entries@;
            assert(after == before.push(entry));
            assert forall|i: int, j: int| 0 <= i < j < after.len() implies #[trigger] after[i].name@
                != #[trigger] after[j].name@ by {
                if j == before.len() {
                    assert(!entries_map(before).dom().contains(name@));
                    assert(before[i].name@ == after[i].name@);
                    assert(has_name(before, before[i].name@));
                }
            }
            lemma_map_of_push(before, entry);
            assert(entries_map(after) =~= old(self)@.insert(name@, handle));
        }
        replaced
    }

    /// Takes the pad of that name out of the table.
    pub fn remove(&mut self, name: &String) -> (removed: Option<P>)
        requires
            old(self).wf(),
        ensures
            final(self).wf(),
            final(self)@ == old(self)@.remove(name@),
            removed == (if old(self)@.dom().contains(name@) {
                Some(old(self)@[name@])
            } else {
                None
            }),
    {
        match self.position(name) {
            Some(i) => {
                let ghost before = self.entries@;
                let entry = self.entries.remove(i);
                proof {
                    lemma_entry_in_map(before, i as int);
                    lemma_map_of_remove(before, i as int);
                }
                Some(entry.handle)
            },
            None => {
                assert(self@.remove(name@) =~= self@);
                None
            },
        }
    }

    /// Takes all pads out of the table. Each comes out once.
    pub fn drain(&mut self) -> (entries: Vec<PadEntry<P>>)
        requires
            old(self).wf(),
        ensures
            final(self).wf(),
            final(self)@ == Map::<Seq<char>, P>::empty(),
            names_are_distinct(entries@),
            entries_map(entries@) == old(self)@,
            forall|i: int|
                0 <= i < entries.len() ==> old(self)@.dom().contains(
                    (#[trigger] entries@[i]).name@,
                ) && old(self)@[entries@[i].name@] == entries@[i].handle,
            forall|name: Seq<char>| #[trigger]
                old(self)@.dom().contains(name) ==> exists|i: int|
                    0 <= i < entries.len() && (#[trigger] entries@[i]).name@ == name,
    {
        let mut entries: Vec<PadEntry<P>> = Vec::new();
        entries.append(&mut self.entries);
        assert(entries@ =~= old(self).entries@);
        proof {
            law_entries_are_found_by_name(entries@);
        }
        assert(self@ =~= Map::<Seq<char>, P>::empty());
        entries
    }
}

proof fn lemma_map_of_push<P>(entries: Seq<PadEntry<P>>, entry: PadEntry<P>)
    requires
        names_are_distinct(entries.push(entry)),
    ensures
        entries_map(entries.push(entry)) == entries_map(entries).insert(entry.name@, entry.handle),
{
    let after = entries.push(entry);
    let left = entries_map(after);
    let right = entries_map(entries).insert(entry.name@, entry.handle);
    assert(after[entries.len() as int] == entry);
    assert(names_are_distinct(entries)) by {
        assert forall|i: int, j: int| 0 <= i < j < entries.len() implies #[trigger] entries[i].name@
            != #[trigger] entries[j].name@ by {
            assert(after[i].name@ != after[j].name@);
        }
    }
    lemma_entry_in_map(after, entries.len() as int);
    assert forall|name: Seq<char>| left.dom().contains(name) <==> right.dom().contains(name) by {
        if left.dom().contains(name) {
            let i = index_of_name(after, name);
            assert(0 <= i < after.len() && after[i].name@ == name);
            if i < entries.len() {
                assert(entries[i].name@ == name);
            }
        }
        if entries_map(entries).dom().contains(name) {
            let i = index_of_name(entries, name);
            assert(after[i].name@ == name);
        }
    }
    assert forall|name: Seq<char>| #[trigger] left.dom().contains(name) implies left[name]
        == right[name] by {
        if name != entry.name@ {
            let i = index_of_name(after, name);
            assert(0 <= i < after.len() && after[i].name@ == name);
            lemma_entry_in_map(after, i);
            assert(entries[i] == after[i]);
            lemma_entry_in_map(entries, i);
        }
    }
    assert(left =~= right);
}

proof fn lemma_map_of_remove<P>(entries: Seq<PadEntry<P>>, index: int)
    requires
        names_are_distinct(entries),
        0 <= index < entries.len(),
    ensures
        names_are_distinct(entries.remove(index)),
        entries_map(entries.remove(index)) == entries_map(entries).remove(entries[index].name@),
{
    let after = entries.remove(index);
    let left = entries_map(after);
    let right = entries_map(entries).remove(entries[index].name@);
    assert forall|i: int, j: int| 0 <= i < j < after.len() implies #[trigger] after[i].name@
        != #[trigger] after[j].name@ by {
        let k = if i < index { i } else { i + 1 };
        let l = if j < index { j } else { j + 1 };
        assert(after[i] == entries[k] && after[j] == entries[l]);
        assert(entries[k].name@ != entries[l].name@);
    }
    assert forall|name: Seq<char>| left.dom().contains(name) <==> right.dom().contains(name) by {
        if left.dom().contains(name) {
            let i = index_of_name(after, name);
            assert(0 <= i < after.len() && after[i].name@ == name);
            let k = if i < index { i } else { i + 1 };
            assert(entries[k].name@ == name);
        }
        if right.dom().contains(name) {
            let k = index_of_name(entries, name);
            assert(0 <= k < entries.len() && entries[k].name@ == name);
            let i = if k < index { k } else { k - 1 };
            assert(after[i].name@ == name);
        }
    }
    assert forall|name: Seq<char>| #[trigger] left.dom().contains(name) implies left[name]
        == right[name] by {
        let i = index_of_name(after, name);
        assert(0 <= i < after.len() && after[i].name@ == name);
        let k = if i < index { i } else { i + 1 };
        assert(after[i] == entries[k]);
        lemma_entry_in_map(after, i);
        lemma_entry_in_map(entries, k);
    }
    assert(left =~= right);
}

/// Of entries with distinct names, each is found by its name, and nothing else is found.
pub proof fn law_entries_are_found_by_name<P>(entries: Seq<PadEntry<P>>)
    requires
        names_are_distinct(entries),
    ensures
        forall|i: int|
            0 <= i < entries.len() ==> entries_map(entries).dom().contains(
                (#[trigger] entries[i]).name@,
            ) && entries_map(entries)[entries[i].name@] == entries[i].handle,
        forall|name: Seq<char>| #[trigger]
            entries_map(entries).dom().contains(name) ==> exists|i: int|
                0 <= i < entries.len() && (#[trigger] entries[i]).name@ == name,
{
    assert forall|i: int| 0 <= i < entries.len() implies entries_map(entries).dom().contains(
        (#[trigger] entries[i]).name@,
    ) && entries_map(entries)[entries[i].name@] == entries[i].handle by {
        lemma_entry_in_map(entries, i);
    }
    assert forall|name: Seq<char>| #[trigger] entries_map(entries).dom().contains(
        name,
    ) implies exists|i: int|
        0 <= i < entries.len() && (#[trigger] entries[i]).name@ == name by {
        assert(has_name(entries, name));
        let i = index_of_name(entries, name);
        assert(entries[i].name@ == name);
    }
}

} // verus!
