//! The environment that a configuration hands to the processes it runs.

use vstd::prelude::*;

verus! {

/// The mapping that a sequence of (name, value) entries denotes, later entries
/// overriding earlier ones.
pub open spec fn entries_map(entries: Seq<(String, String)>) -> Map<Seq<char>, Seq<char>>
    decreases entries.len(),
{
    if entries.len() == 0 {
        Map::empty()
    } else {
        entries_map(entries.drop_last()).insert(entries.last().0@, entries.last().1@)
    }
}

/// Whether no two entries share a name.
pub open spec fn names_distinct(entries: Seq<(String, String)>) -> bool {
    forall|i: int, j: int|
        0 <= i < entries.len() && 0 <= j < entries.len() && i != j ==> #[trigger] entries[i].0@
            != #[trigger] entries[j].0@
}

/// Replacing the value of the last entry named `k` replaces the value of `k`
/// in the mapping.
proof fn lemma_update_last(entries: Seq<(String, String)>, j: int, kv: (String, String))
    requires
        0 <= j < entries.len(),
        kv.0@ == entries[j].0@,
        forall|i: int| j < i < entries.len() ==> #[trigger] entries[i].0@ != entries[j].0@,
    ensures
        entries_map(entries.update(j, kv)) == entries_map(entries).insert(kv.0@, kv.1@),
    decreases entries.len(),
{
    let updated = entries.update(j, kv);
    if j == entries.len() - 1 {
        assert(updated.drop_last() =~= entries.drop_last());
        assert(entries_map(updated) =~= entries_map(entries).insert(kv.0@, kv.1@));
    } else {
        let shorter = entries.drop_last();
        assert(updated.drop_last() =~= shorter.update(j, kv));
        assert(entries.last().0@ != kv.0@);
        lemma_update_last(shorter, j, kv);
        assert(entries_map(updated) =~= entries_map(entries).insert(kv.0@, kv.1@));
    }
}

/// The names that the mapping defines are those of the entries.
proof fn lemma_map_domain(entries: Seq<(String, String)>)
    ensures
        forall|k: Seq<char>|
            #[trigger] entries_map(entries).contains_key(k) <==> exists|i: int|
                0 <= i < entries.len() && #[trigger] entries[i].0@ == k,
    decreases entries.len(),
{
    if entries.len() > 0 {
        let shorter = entries.drop_last();
        lemma_map_domain(shorter);
        assert forall|k: Seq<char>|
            #[trigger] entries_map(entries).contains_key(k) <==> exists|i: int|
                0 <= i < entries.len() && #[trigger] entries[i].0@ == k by {
            if entries_map(entries).contains_key(k) && k != entries.last().0@ {
                assert(entries_map(shorter).contains_key(k));
                let i = choose|i: int| 0 <= i < shorter.len() && #[trigger] shorter[i].0@ == k;
                assert(entries[i].0@ == k);
            }
            if exists|i: int| 0 <= i < entries.len() && #[trigger] entries[i].0@ == k {
                let i = choose|i: int| 0 <= i < entries.len() && #[trigger] entries[i].0@ == k;
                if i < entries.len() - 1 {
                    assert(shorter[i].0@ == k);
                    assert(entries_map(shorter).contains_key(k));
                }
            }
        }
    }
}

/// The value of a name is that of its last entry.
proof fn lemma_map_of_last(entries: Seq<(String, String)>, j: int)
    requires
        0 <= j < entries.len(),
        forall|i: int| j < i < entries.len() ==> #[trigger] entries[i].0@ != entries[j].0@,
    ensures
        entries_map(entries).contains_key(entries[j].0@),
        entries_map(entries)[entries[j].0@] == entries[j].1@,
    decreases entries.len(),
{
    if j < entries.len() - 1 {
        let shorter = entries.drop_last();
        assert(shorter[j] == entries[j]);
        lemma_map_of_last(shorter, j);
    }
}

/// A mapping from variable names to values.
#[derive(Debug, PartialEq, Eq)]
pub struct EnvMap {
    entries: Vec<(String, String)>,
}

impl View for EnvMap {
    type V = Map<Seq<char>, Seq<char>>;

    closed spec fn view(&self) -> Map<Seq<char>, Seq<char>> {
        entries_map(self.entries@)
    }
}

impl EnvMap {
    /// Each name occurs once.
    pub closed spec fn wf(&self) -> bool {
        names_distinct(self.entries@)
    }

    /// An empty mapping.
    pub fn new() -> (r: EnvMap)
        ensures
            r.wf(),
            r@ == Map::<Seq<char>, Seq<char>>::empty(),
    {
        EnvMap { entries: Vec::new() }
    }

    /// Index of the last entry named `name`, if any.
    fn find(&self, name: &String) -> (r: Option<usize>)
        ensures
            match r {
                Some(j) => j < self.entries@.len() && self.entries@[j as int].0@ == name@ && (
                forall|i: int|
                    j < i < self.entries@.len() ==> #[trigger] self.entries@[i].0@ != name@),
                None => forall|i: int|
                    0 <= i < self.entries@.len() ==> #[trigger] self.entries@[i].0@ != name@,
            },
    {
        let mut i: usize = self.entries.len();
        while i > 0
            invariant
                i <= self.entries@.len(),
                forall|m: int| i <= m < self.entries@.len() ==> #[trigger] self.entries@[m].0@ != name@,
            decreases i,
        {
            if self.entries[i - 1].0 == *name {
                return Some(i - 1);
            }
            i = i - 1;
        }
        None
    }

    /// The value of `name`, if it has one.
    pub fn get(&self, name: &str) -> (r: Option<String>)
        requires
            self.wf(),
        ensures
            r is None <==> !self@.contains_key(name@),
            r matches Some(v) ==> self@[name@] == v@,
    {
        let name = name.to_owned();
        proof {
            lemma_map_domain(self.entries@);
        }
        match self.find(&name) {
            Some(j) => {
                proof {
                    lemma_map_of_last(self.entries@, j as int);
                }
                Some(self.entries[j].1.clone())
            },
            None => None,
        }
    }

    /// The entries, each name once, in the order in which the names were first set.
    pub fn entries(&self) -> (r: &Vec<(String, String)>)
        requires
            self.wf(),
        ensures
            names_distinct(r@),
            entries_map(r@) == self@,
    {
        &self.entries
    }

    /// Sets `name` to `value`, replacing any value it had.
    pub fn insert(&mut self, name: String, value: String)
        requires
            old(self).wf(),
        ensures
            final(self).wf(),
            final(self)@ == old(self)@.insert(name@, value@),
    {
        proof {
            lemma_map_domain(self.entries@);
        }
        match self.find(&name) {
            Some(j) => {
                proof {
                    lemma_update_last(self.entries@, j as int, (name, value));
                }
                self.entries.set(j, (name, value));
            },
            None => {
                let ghost before = self.entries@;
                self.entries.push((name, value));
                assert(self.entries@.drop_last() =~= before);
            },
        }
    }
}

} // verus!
