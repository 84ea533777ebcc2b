//! Values that are kept under a text until they are asked for.

use crate::text::same_text;
use vstd::prelude::*;

verus! {

/// A map from texts to values.
pub struct Store<V> {
    entries: Vec<(String, V)>,
}

/// The map that a list of entries stands for.
spec fn entry_map<V>(entries: Seq<(String, V)>) -> Map<Seq<char>, V>
    decreases entries.len(),
{
    if entries.len() == 0 {
        Map::empty()
    } else {
        entry_map(entries.drop_last()).insert(entries.last().0@, entries.last().1)
    }
}

/// Whether no key occurs twice.
spec fn has_unique_keys<V>(entries: Seq<(String, V)>) -> bool {
    forall|i: int, j: int|
        0 <= i < j < entries.len() ==> (#[trigger] entries[i]).0@ != (#[trigger] entries[j]).0@
}

proof fn entry_map_holds_entries<V>(entries: Seq<(String, V)>, key: Seq<char>)
    requires
        has_unique_keys(entries),
    ensures
        entry_map(entries).dom().contains(key) <==> exists|i: int|
            0 <= i < entries.len() && (#[trigger] entries[i]).0@ == key,
        forall|i: int|
            0 <= i < entries.len() && (#[trigger] entries[i]).0@ == key ==> entry_map(entries)[key]
                == entries[i].1,
    decreases entries.len(),
{
    if entries.len() > 0 {
        let front = entries.drop_last();
        assert(has_unique_keys(front)) by {
            assert forall|i: int, j: int| 0 <= i < j < front.len() implies (#[trigger] front[i]).0@
                != (#[trigger] front[j]).0@ by {
                assert(entries[i].0@ != entries[j].0@);
            }
        }
        entry_map_holds_entries(front, key);
        if exists|i: int| 0 <= i < front.len() && (#[trigger] front[i]).0@ == key {
            let i = choose|i: int| 0 <= i < front.len() && (#[trigger] front[i]).0@ == key;
            assert(entries[i].0@ == key);
            assert(entries[i].0@ != entries[entries.len() - 1].0@);
        }
        assert forall|i: int|
            0 <= i < entries.len() && (#[trigger] entries[i]).0@ == key implies entry_map(
            entries,
        )[key] == entries[i].1 by {
            if i < front.len() {
                assert(front[i] == entries[i]);
                assert(entries[i].0@ != entries[entries.len() - 1].0@);
            }
        }
        if entries.last().0@ == key {
            assert(entries[entries.len() - 1].0@ == key);
        } else if exists|i: int| 0 <= i < entries.len() && (#[trigger] entries[i]).0@ == key {
            let i = choose|i: int| 0 <= i < entries.len() && (#[trigger] entries[i]).0@ == key;
            assert(front[i].0@ == key);
        }
    }
}

impl<V> View for Store<V> {
    type V = Map<Seq<char>, V>;

    closed spec fn view(&self) -> Map<Seq<char>, V> {
        entry_map(self.entries@)
    }
}

impl<V> Store<V> {
    #[verifier::type_invariant]
    spec fn keys_are_unique(&self) -> bool {
        has_unique_keys(self.entries@)
    }

    /// A store without entries.
    pub fn new() -> (res: Store<V>)
        ensures
            res@ == Map::<Seq<char>, V>::empty(),
    {
        Store { entries: Vec::new() }
    }

    /// The place of `key` among the entries.
    fn position(&self, key: &str) -> (res: Option<usize>)
        ensures
            res is Some <==> self@.dom().contains(key@),
            res matches Some(i) ==> {
                &&& i < self.entries@.len()
                &&& self.entries@[i as int].0@ == key@
                &&& self@[key@] == self.entries@[i as int].1
            },
    {
        proof {
            use_type_invariant(self);
            entry_map_holds_entries(self.entries@, key@);
        }
        let mut i: usize = 0;
        while i < self.entries.len()
            invariant
                i <= self.entries@.len(),
                forall|j: int| 0 <= j < i ==> (#[trigger] self.entries@[j]).0@ != key@,
                self@ == entry_map(self.entries@),
                forall|j: int|
                    0 <= j < self.entries@.len() && (#[trigger] self.entries@[j]).0@ == key@
                        ==> entry_map(self.entries@)[key@] == self.entries@[j].1,
                entry_map(self.entries@).dom().contains(key@) <==> exists|j: int|
                    0 <= j < self.entries@.len() && (#[trigger] self.entries@[j]).0@ == key@,
            decreases self.entries@.len() - i,
        {
            if same_text(self.entries[i].0.as_str(), key) {
                return Some(i);
            }
            i += 1;
        }
        None
    }

    /// Keeps `value` under `key`, in place of what was kept there before.
    pub fn insert(&mut self, key: String, value: V)
        ensures
            final(self)@ == old(self)@.insert(key@, value),
    {
        let _ = self.take(key.as_str());
        proof {
            use_type_invariant(&*self);
        }
        let ghost before = self.entries@;
        let ghost map = self@;
        let mut entries: Vec<(String, V)> = Vec::new();
        std::mem::swap(&mut entries, &mut self.entries);
        entries.push((key, value));
        assert(entries@.drop_last() =~= before);
        assert(has_unique_keys(entries@)) by {
            entry_map_holds_entries(before, key@);
        }
        self.entries = entries;
        assert(self@ == map.insert(key@, value));
        assert(map.insert(key@, value) =~= old(self)@.insert(key@, value));
    }

    /// Hands out what is kept under `key`, which is not kept any longer.
    pub fn take(&mut self, key: &str) -> (res: Option<V>)
        ensures
            res is Some <==> old(self)@.dom().contains(key@),
            res matches Some(value) ==> value == old(self)@[key@],
            final(self)@ == old(self)@.remove(key@),
    {
        match self.position(key) {
            Some(i) => {
                proof {
                    use_type_invariant(&*self);
                }
                let ghost before = self.entries@;
                let mut entries: Vec<(String, V)> = Vec::new();
                std::mem::swap(&mut entries, &mut self.entries);
                let (_, value) = entries.remove(i);
                proof {
                    let after = entries@;
                    assert forall|a: int, b: int| 0 <= a < b < after.len() implies (
                    #[trigger] after[a]).0@ != (#[trigger] after[b]).0@ by {
                        let x = if a < i {
                            a
                        } else {
                            a + 1
                        };
                        let y = if b < i {
                            b
                        } else {
                            b + 1
                        };
                        assert(before[x].0@ != before[y].0@);
                    }
                    assert(entry_map(after) =~= entry_map(before).remove(key@)) by {
                        removal_removes(before, i as int);
                    }
                }
                self.entries = entries;
                Some(value)
            },
            None => {
                assert(self@ =~= self@.remove(key@));
                None
            },
        }
    }
}

proof fn removal_removes<V>(entries: Seq<(String, V)>, i: int)
    requires
        has_unique_keys(entries),
        0 <= i < entries.len(),
    ensures
        entry_map(entries.remove(i)) == entry_map(entries).remove(entries[i].0@),
    decreases entries.len(),
{
    let key = entries[i].0@;
    let front = entries.drop_last();
    if i == entries.len() - 1 {
        assert(entries.remove(i) =~= front);
        entry_map_holds_entries(entries, key);
        assert(has_unique_keys(front));
        entry_map_holds_entries(front, key);
        assert(!entry_map(front).dom().contains(key)) by {
            if entry_map(front).dom().contains(key) {
                let j = choose|j: int| 0 <= j < front.len() && (#[trigger] front[j]).0@ == key;
                assert(entries[j].0@ != entries[i].0@);
            }
        }
        assert(entry_map(front) =~= entry_map(entries).remove(key));
    } else {
        assert(has_unique_keys(front));
        removal_removes(front, i);
        assert(entries.remove(i).drop_last() =~= front.remove(i));
        assert(entries.remove(i).last() == entries.last());
        assert(entries[i].0@ != entries[entries.len() - 1].0@);
        assert(entry_map(entries.remove(i)) =~= entry_map(entries).remove(key));
    }
}

} // verus!
