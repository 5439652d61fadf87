//! The table of pending requests: correlation id to completion slot.
use vstd::prelude::*;

verus! {

/// The map that a sequence of entries stands for; a later entry wins.
pub open spec fn map_of<S>(s: Seq<(String, S)>) -> Map<Seq<char>, S>
    decreases s.len(),
{
    if s.len() == 0 {
        Map::empty()
    } else {
        map_of(s.drop_last()).insert(s.last().0@, s.last().1)
    }
}

/// No two entries share a correlation id.
pub open spec fn keys_distinct<S>(s: Seq<(String, S)>) -> bool {
    forall|i: int, j: int| 0 <= i < j < s.len() ==> s[i].0@ != s[j].0@
}

proof fn lemma_map_of_domain<S>(s: Seq<(String, S)>, k: Seq<char>)
    ensures
        map_of(s).contains_key(k) <==> exists|i: int| 0 <= i < s.len() && s[i].0@ == k,
    decreases s.len(),
{
    if s.len() > 0 {
        lemma_map_of_domain(s.drop_last(), k);
        if map_of(s).contains_key(k) && s.last().0@ != k {
            let i = choose|i: int| 0 <= i < s.len() - 1 && s.drop_last()[i].0@ == k;
            assert(s[i].0@ == k);
        }
        if exists|i: int| 0 <= i < s.len() && s[i].0@ == k {
            let i = choose|i: int| 0 <= i < s.len() && s[i].0@ == k;
            if i < s.len() - 1 {
                assert(s.drop_last()[i].0@ == k);
            }
        }
    }
}

proof fn lemma_map_of_index<S>(s: Seq<(String, S)>, i: int)
    requires
        keys_distinct(s),
        0 <= i < s.len(),
    ensures
        map_of(s).contains_key(s[i].0@),
        map_of(s)[s[i].0@] == s[i].1,
    decreases s.len(),
{
    if i < s.len() - 1 {
        lemma_map_of_index(s.drop_last(), i);
    }
}

proof fn lemma_map_of_remove<S>(s: Seq<(String, S)>, i: int)
    requires
        keys_distinct(s),
        0 <= i < s.len(),
    ensures
        map_of(s.remove(i)) == map_of(s).remove(s[i].0@),
    decreases s.len(),
{
    let k = s[i].0@;
    if i == s.len() - 1 {
        assert(s.remove(i) =~= s.drop_last());
        assert forall|j: int| 0 <= j < s.drop_last().len() implies s.drop_last()[j].0@ != k by {}
        lemma_map_of_not_in(s.drop_last(), k);
        assert(map_of(s.drop_last()) =~= map_of(s).remove(k));
    } else {
        let t = s.drop_last();
        lemma_map_of_remove(t, i);
        assert(s.remove(i).drop_last() =~= t.remove(i));
        assert(s.remove(i).last() == s.last());
        assert(map_of(s.remove(i)) =~= map_of(s).remove(k));
    }
}

proof fn lemma_map_of_not_in<S>(s: Seq<(String, S)>, k: Seq<char>)
    requires
        forall|j: int| 0 <= j < s.len() ==> s[j].0@ != k,
    ensures
        !map_of(s).contains_key(k),
{
    lemma_map_of_domain(s, k);
}

/// The pending requests of one connection. Each correlation id has at most one
/// slot, and a slot leaves the table exactly once.
pub struct PendingTable<S> {
    entries: Vec<(String, S)>,
}

impl<S> PendingTable<S> {
    /// The pending correlation ids and their slots.
    pub closed spec fn view(&self) -> Map<Seq<char>, S> {
        map_of(self.entries@)
    }

    pub closed spec fn wf(&self) -> bool {
        keys_distinct(self.entries@)
    }

    /// An empty table.
    pub fn new() -> (r: Self)
        ensures
            r.wf(),
            r@ == Map::<Seq<char>, S>::empty(),
    {
        PendingTable { entries: Vec::new() }
    }

    /// The number of pending requests.
    pub fn len(&self) -> (r: usize)
        requires
            self.wf(),
        ensures
            r == self@.len(),
    {
        proof {
            self.lemma_len();
        }
        self.entries.len()
    }

    proof fn lemma_len(&self)
        requires
            self.wf(),
        ensures
            self@.dom().finite(),
            self@.len() == self.entries@.len(),
    {
        lemma_map_of_len(self.entries@);
    }

    /// The index of the entry with correlation id `id`, if any.
    fn find(&self, id: &String) -> (r: Option<usize>)
        requires
            self.wf(),
        ensures
            r is None ==> !self@.contains_key(id@),
            r matches Some(i) ==> i < self.entries@.len() && self.entries@[i as int].0@ == id@,
    {
        let mut i: usize = 0;
        while i < self.entries.len()
            invariant
                i <= self.entries@.len(),
                forall|j: int| 0 <= j < i ==> self.entries@[j].0@ != id@,
            decreases self.entries@.len() - i,
        {
            if self.entries[i].0 == *id {
                return Some(i);
            }
            i = i + 1;
        }
        proof {
            lemma_map_of_not_in(self.entries@, id@);
        }
        None
    }

    /// Whether a request with correlation id `id` is pending.
    pub fn contains(&self, id: &String) -> (r: bool)
        requires
            self.wf(),
        ensures
            r == self@.contains_key(id@),
    {
        match self.find(id) {
            Some(i) => {
                proof {
                    lemma_map_of_index(self.entries@, i as int);
                }
                true
            },
            None => false,
        }
    }

    /// Registers `slot` under `id`. An id that is already pending is refused, and
    /// the slot handed back with the table unchanged.
    pub fn register(&mut self, id: String, slot: S) -> (r: Result<(), S>)
        requires
            old(self).wf(),
        ensures
            final(self).wf(),
            old(self)@.contains_key(id@) ==> r == Err::<(), S>(slot) && final(self)@ == old(self)@,
            !old(self)@.contains_key(id@) ==> r is Ok && final(self)@ == old(self)@.insert(id@, slot),
    {
        if self.contains(&id) {
            return Err(slot);
        }
        let ghost k = id@;
        proof {
            lemma_map_of_domain(self.entries@, k);
        }
        self.entries.push((id, slot));
        proof {
            assert(self.entries@.drop_last() =~= old(self).entries@);
        }
        Ok(())
    }

    /// Takes the slot registered under `id` out of the table; `None`, with the
    /// table unchanged, where no request with that id is pending.
    pub fn resolve(&mut self, id: &String) -> (r: Option<S>)
        requires
            old(self).wf(),
        ensures
            final(self).wf(),
            old(self)@.contains_key(id@) ==> r == Some(old(self)@[id@]) && final(self)@ == old(self)@.remove(id@),
            !old(self)@.contains_key(id@) ==> r is None && final(self)@ == old(self)@,
    {
        match self.find(id) {
            Some(i) => {
                proof {
                    lemma_map_of_index(self.entries@, i as int);
                    lemma_map_of_remove(self.entries@, i as int);
                }
                let (_, slot) = self.entries.remove(i);
                proof {
                    assert forall|a: int, b: int| 0 <= a < b < self.entries@.len()
                        implies self.entries@[a].0@ != self.entries@[b].0@ by {
                        let a0 = if a < i { a } else { a + 1 };
                        let b0 = if b < i { b } else { b + 1 };
                        assert(self.entries@[a] == old(self).entries@[a0]);
                        assert(self.entries@[b] == old(self).entries@[b0]);
                    }
                }
                Some(slot)
            },
            None => None,
        }
    }

    /// Empties the table and hands back every pending request, each exactly
    /// once with its correlation id, so that each waiter can be told that no
    /// response will come.
    pub fn drain(&mut self) -> (r: Vec<(String, S)>)
        requires
            old(self).wf(),
        ensures
            final(self).wf(),
            final(self)@ == Map::<Seq<char>, S>::empty(),
            r@.len() == old(self)@.len(),
            keys_distinct(r@),
            forall|i: int| 0 <= i < r@.len() ==> old(self)@.contains_key(#[trigger] r@[i].0@)
                && old(self)@[r@[i].0@] == r@[i].1,
            forall|k: Seq<char>| old(self)@.contains_key(k) ==> exists|i: int| 0 <= i < r@.len() && #[trigger] r@[i].0@ == k,
    {
        let mut out: Vec<(String, S)> = Vec::new();
        std::mem::swap(&mut out, &mut self.entries);
        proof {
            old(self).lemma_len();
            assert forall|i: int| 0 <= i < out@.len() implies old(self)@.contains_key(#[trigger] out@[i].0@)
                && old(self)@[out@[i].0@] == out@[i].1 by {
                lemma_map_of_index(out@, i);
            }
            assert forall|k: Seq<char>| old(self)@.contains_key(k) implies exists|i: int| 0 <= i < out@.len() && #[trigger] out@[i].0@ == k by {
                lemma_map_of_domain(out@, k);
            }
            assert(self.entries@ =~= Seq::<(String, S)>::empty());
            assert(self@ =~= Map::<Seq<char>, S>::empty());
        }
        out
    }
}

proof fn lemma_map_of_len<S>(s: Seq<(String, S)>)
    requires
        keys_distinct(s),
    ensures
        map_of(s).dom().finite(),
        map_of(s).len() == s.len(),
    decreases s.len(),
{
    if s.len() > 0 {
        let t = s.drop_last();
        lemma_map_of_len(t);
        assert forall|j: int| 0 <= j < t.len() implies t[j].0@ != s.last().0@ by {
            assert(t[j] == s[j]);
        }
        lemma_map_of_not_in(t, s.last().0@);
    }
}

} // verus!
