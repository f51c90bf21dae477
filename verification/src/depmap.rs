//! The accumulated dependencies of one manifest kind: at most one entry per
//! name, the last recorded version winning.

use vstd::prelude::*;
use crate::types::DepsEntry;

verus! {

/// Some entry of `s` carries `name`.
pub open spec fn listed(s: Seq<DepsEntry>, name: Seq<char>) -> bool {
    exists|i: int| 0 <= i < s.len() && #[trigger] s[i].name@ == name
}

/// An index at which `s` carries `name`, if there is one.
pub open spec fn position(s: Seq<DepsEntry>, name: Seq<char>) -> int {
    choose|i: int| 0 <= i < s.len() && #[trigger] s[i].name@ == name
}

/// No two entries of `s` share a name.
pub open spec fn names_distinct(s: Seq<DepsEntry>) -> bool {
    forall|i: int, j: int|
        0 <= i < j < s.len() ==> #[trigger] s[i].name@ != #[trigger] s[j].name@
}

/// The name-to-version mapping that a list of entries stands for.
pub open spec fn as_map(s: Seq<DepsEntry>) -> Map<Seq<char>, Seq<char>> {
    Map::new(|n: Seq<char>| listed(s, n), |n: Seq<char>| s[position(s, n)].version@)
}

/// In a list without repeated names, the entry at `i` is the one its name maps to.
pub proof fn lemma_position_unique(s: Seq<DepsEntry>, i: int)
    requires
        names_distinct(s),
        0 <= i < s.len(),
    ensures
        listed(s, s[i].name@),
        position(s, s[i].name@) == i,
        as_map(s)[s[i].name@] == s[i].version@,
{
    let n = s[i].name@;
    let p = position(s, n);
    assert(0 <= p < s.len() && s[p].name@ == n);
    if p < i {
        assert(s[p].name@ != s[i].name@);
    } else if i < p {
        assert(s[i].name@ != s[p].name@);
    }
}

/// Replacing the entry that carries `e.name` overwrites that key.
pub proof fn lemma_update_is_insert(s: Seq<DepsEntry>, i: int, e: DepsEntry)
    requires
        names_distinct(s),
        0 <= i < s.len(),
        s[i].name@ == e.name@,
    ensures
        names_distinct(s.update(i, e)),
        as_map(s.update(i, e)) =~= as_map(s).insert(e.name@, e.version@),
{
    let t = s.update(i, e);
    assert forall|a: int, b: int| 0 <= a < b < t.len() implies #[trigger] t[a].name@
        != #[trigger] t[b].name@ by {
        assert(t[a].name@ == s[a].name@);
        assert(t[b].name@ == s[b].name@);
    }
    assert forall|n: Seq<char>| listed(t, n) == listed(s, n) by {
        if listed(s, n) {
            let p = position(s, n);
            assert(t[p].name@ == n);
        }
        if listed(t, n) {
            let p = position(t, n);
            assert(s[p].name@ == n);
        }
    }
    assert forall|n: Seq<char>| listed(t, n) implies #[trigger] as_map(t)[n] == as_map(s).insert(
        e.name@,
        e.version@,
    )[n] by {
        let p = position(t, n);
        assert(t[p].name@ == n);
        lemma_position_unique(t, p);
        assert(s[p].name@ == n);
        lemma_position_unique(s, p);
    }
}

/// Appending an entry under a name not yet listed adds that key.
pub proof fn lemma_push_is_insert(s: Seq<DepsEntry>, e: DepsEntry)
    requires
        names_distinct(s),
        !listed(s, e.name@),
    ensures
        names_distinct(s.push(e)),
        as_map(s.push(e)) =~= as_map(s).insert(e.name@, e.version@),
{
    let t = s.push(e);
    assert forall|a: int, b: int| 0 <= a < b < t.len() implies #[trigger] t[a].name@
        != #[trigger] t[b].name@ by {
        assert(t[a] == s[a]);
        if b < s.len() {
            assert(t[b] == s[b]);
        } else {
            assert(s[a].name@ != e.name@);
        }
    }
    assert forall|n: Seq<char>| listed(t, n) == (listed(s, n) || n == e.name@) by {
        if listed(s, n) {
            let p = position(s, n);
            assert(t[p].name@ == n);
        }
        if n == e.name@ {
            assert(t[s.len() as int].name@ == n);
        }
        if listed(t, n) {
            let p = position(t, n);
            if p < s.len() {
                assert(s[p].name@ == n);
            }
        }
    }
    assert forall|n: Seq<char>| listed(t, n) implies #[trigger] as_map(t)[n] == as_map(s).insert(
        e.name@,
        e.version@,
    )[n] by {
        let p = position(t, n);
        assert(t[p].name@ == n);
        lemma_position_unique(t, p);
        if p < s.len() {
            assert(s[p].name@ == n);
            lemma_position_unique(s, p);
        }
    }
}

/// A list without repeated names stands for a mapping with as many names
/// as the list has entries.
pub proof fn lemma_distinct_count(s: Seq<DepsEntry>)
    requires
        names_distinct(s),
    ensures
        as_map(s).dom().finite(),
        as_map(s).dom().len() == s.len(),
    decreases s.len(),
{
    if s.len() == 0 {
        assert(as_map(s).dom() =~= Set::<Seq<char>>::empty());
    } else {
        let rest = s.drop_last();
        let e = s.last();
        assert forall|i: int, j: int| 0 <= i < j < rest.len() implies #[trigger] rest[i].name@
            != #[trigger] rest[j].name@ by {
            assert(rest[i] == s[i]);
            assert(rest[j] == s[j]);
        }
        if listed(rest, e.name@) {
            let p = position(rest, e.name@);
            assert(s[p].name@ == rest[p].name@);
            assert(s[p].name@ != s[s.len() - 1].name@);
        }
        lemma_distinct_count(rest);
        lemma_push_is_insert(rest, e);
        assert(rest.push(e) =~= s);
        assert(as_map(s).dom() =~= as_map(rest).dom().insert(e.name@));
        assert(!as_map(rest).dom().contains(e.name@));
    }
}

/// Dependencies keyed by name. Recording a name again replaces its version.
pub struct DependencyMap {
    entries: Vec<DepsEntry>,
}

impl View for DependencyMap {
    type V = Map<Seq<char>, Seq<char>>;

    closed spec fn view(&self) -> Map<Seq<char>, Seq<char>> {
        as_map(self.entries@)
    }
}

impl DependencyMap {
    /// The entries in the order their names were first recorded.
    pub closed spec fn rows(&self) -> Seq<DepsEntry> {
        self.entries@
    }

    #[verifier::type_invariant]
    spec fn no_name_twice(self) -> bool {
        names_distinct(self.entries@)
    }

    /// What the view is, over the rows.
    pub proof fn lemma_view_of_rows(&self)
        ensures
            self@ == as_map(self.rows()),
    {
    }

    /// An empty mapping.
    pub fn new() -> (r: DependencyMap)
        ensures
            r@ == Map::<Seq<char>, Seq<char>>::empty(),
            r.rows().len() == 0,
    {
        let r = DependencyMap { entries: Vec::new() };
        assert(r@ =~= Map::<Seq<char>, Seq<char>>::empty());
        r
    }

    /// Number of distinct names held: the rows are as many, and no two of
    /// them carry the same name.
    pub fn len(&self) -> (n: usize)
        ensures
            n == self.rows().len(),
            names_distinct(self.rows()),
            self@.dom().finite(),
            n == self@.dom().len(),
    {
        proof {
            use_type_invariant(self);
            lemma_distinct_count(self.entries@);
        }
        self.entries.len()
    }

    /// The entry at position `i`.
    pub fn entry(&self, i: usize) -> (e: &DepsEntry)
        requires
            i < self.rows().len(),
        ensures
            *e == self.rows()[i as int],
            names_distinct(self.rows()),
            self@.contains_key(e.name@),
            self@[e.name@] == e.version@,
    {
        proof {
            use_type_invariant(self);
            lemma_position_unique(self.entries@, i as int);
        }
        &self.entries[i]
    }

    /// Position of `name` among the rows, if it is held.
    pub fn find(&self, name: &String) -> (r: Option<usize>)
        ensures
            match r {
                Some(i) => i < self.rows().len() && self.rows()[i as int].name@ == name@,
                None => !listed(self.rows(), name@),
            },
    {
        let mut i: usize = 0;
        while i < self.entries.len()
            invariant
                0 <= i <= self.entries.len(),
                forall|j: int| 0 <= j < i ==> (#[trigger] self.entries@[j]).name@ != name@,
            decreases self.entries.len() - i,
        {
            if self.entries[i].name.eq(name) {
                return Some(i);
            }
            i += 1;
        }
        None
    }

    /// The version recorded for `name`, if any.
    pub fn get(&self, name: &String) -> (r: Option<&String>)
        ensures
            match r {
                Some(v) => self@.contains_key(name@) && self@[name@] == v@,
                None => !self@.contains_key(name@),
            },
    {
        match self.find(name) {
            Some(i) => {
                proof {
                    use_type_invariant(self);
                    lemma_position_unique(self.entries@, i as int);
                }
                Some(&self.entries[i].version)
            },
            None => None,
        }
    }

    /// Records `version` under `name`, replacing what was there. A name that
    /// is already held keeps its place among the rows; a new one goes last.
    pub fn insert(&mut self, name: String, version: String)
        ensures
            final(self)@ == old(self)@.insert(name@, version@),
            names_distinct(old(self).rows()),
            names_distinct(final(self).rows()),
            final(self).rows() == if listed(old(self).rows(), name@) {
                old(self).rows().update(
                    position(old(self).rows(), name@),
                    DepsEntry { name, version },
                )
            } else {
                old(self).rows().push(DepsEntry { name, version })
            },
    {
        proof {
            use_type_invariant(&*self);
        }
        let found = self.find(&name);
        let e = DepsEntry { name, version };
        let mut taken = DependencyMap { entries: Vec::new() };
        std::mem::swap(self, &mut taken);
        let mut entries = taken.entries;
        match found {
            Some(i) => {
                proof {
                    lemma_update_is_insert(entries@, i as int, e);
                    lemma_position_unique(entries@, i as int);
                }
                entries.set(i, e);
            },
            None => {
                proof {
                    lemma_push_is_insert(entries@, e);
                }
                entries.push(e);
            },
        }
        *self = DependencyMap { entries };
    }
}

} // verus!
