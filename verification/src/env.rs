//! Sets of environment variables: a map from names to values that keeps the
//! order in which names were first set.

use vstd::prelude::*;

use crate::text::eq_str;

verus! {

/// The map that setting each `(name, value)` pair of `pairs`, in order, on
/// top of `m` gives.
pub open spec fn set_all(m: Map<Seq<char>, Seq<char>>, pairs: Seq<(Seq<char>, Seq<char>)>) -> Map<
    Seq<char>,
    Seq<char>,
>
    decreases pairs.len(),
{
    if pairs.len() == 0 {
        m
    } else {
        set_all(m, pairs.drop_last()).insert(pairs.last().0, pairs.last().1)
    }
}

/// The pairs as character sequences.
pub open spec fn pairs_view(pairs: Seq<(String, String)>) -> Seq<(Seq<char>, Seq<char>)> {
    pairs.map_values(|p: (String, String)| (p.0@, p.1@))
}

/// No name occurs twice.
pub open spec fn names_distinct(pairs: Seq<(Seq<char>, Seq<char>)>) -> bool {
    forall|i: int, j: int| 0 <= i < j < pairs.len() ==> pairs[i].0 != pairs[j].0
}

/// Environment variables, in the order in which they were first set.
pub struct EnvVars {
    entries: Vec<(String, String)>,
}

proof fn lemma_set_all_update(pairs: Seq<(Seq<char>, Seq<char>)>, j: int, v: Seq<char>)
    requires
        names_distinct(pairs),
        0 <= j < pairs.len(),
    ensures
        set_all(Map::empty(), pairs.update(j, (pairs[j].0, v))) == set_all(Map::empty(), pairs).insert(
            pairs[j].0,
            v,
        ),
    decreases pairs.len(),
{
    let p2 = pairs.update(j, (pairs[j].0, v));
    if j == pairs.len() - 1 {
        assert(p2.drop_last() =~= pairs.drop_last());
        assert(set_all(Map::empty(), p2) =~= set_all(Map::empty(), pairs).insert(pairs[j].0, v));
    } else {
        lemma_set_all_update(pairs.drop_last(), j, v);
        assert(p2.drop_last() =~= pairs.drop_last().update(j, (pairs[j].0, v)));
        assert(pairs.last().0 != pairs[j].0);
        assert(set_all(Map::empty(), p2) =~= set_all(Map::empty(), pairs).insert(pairs[j].0, v));
    }
}

proof fn lemma_set_all_dom(pairs: Seq<(Seq<char>, Seq<char>)>, k: Seq<char>)
    ensures
        set_all(Map::empty(), pairs).dom().contains(k) <==> exists|i: int|
            0 <= i < pairs.len() && (#[trigger] pairs[i]).0 == k,
    decreases pairs.len(),
{
    if pairs.len() > 0 {
        lemma_set_all_dom(pairs.drop_last(), k);
        if set_all(Map::empty(), pairs).dom().contains(k) {
            if pairs.last().0 != k {
                let i = choose|i: int| 0 <= i < pairs.drop_last().len() && (#[trigger] pairs.drop_last()[i]).0 == k;
                assert(pairs[i] == pairs.drop_last()[i]);
            }
        }
        if exists|i: int| 0 <= i < pairs.len() && (#[trigger] pairs[i]).0 == k {
            let i = choose|i: int| 0 <= i < pairs.len() && (#[trigger] pairs[i]).0 == k;
            if i < pairs.len() - 1 {
                assert(pairs.drop_last()[i] == pairs[i]);
            }
        }
    }
}

proof fn lemma_set_all_value(pairs: Seq<(Seq<char>, Seq<char>)>, i: int)
    requires
        names_distinct(pairs),
        0 <= i < pairs.len(),
    ensures
        set_all(Map::empty(), pairs).dom().contains(pairs[i].0),
        set_all(Map::empty(), pairs)[pairs[i].0] == pairs[i].1,
    decreases pairs.len(),
{
    if i < pairs.len() - 1 {
        lemma_set_all_value(pairs.drop_last(), i);
        assert(pairs.drop_last()[i] == pairs[i]);
    }
}

impl View for EnvVars {
    type V = Map<Seq<char>, Seq<char>>;

    closed spec fn view(&self) -> Map<Seq<char>, Seq<char>> {
        set_all(Map::empty(), pairs_view(self.entries@))
    }
}

impl EnvVars {
    #[verifier::type_invariant]
    closed spec fn names_unique(&self) -> bool {
        names_distinct(pairs_view(self.entries@))
    }

    /// The variables as `(name, value)` pairs, in the order in which they
    /// were first set.
    pub closed spec fn pairs(&self) -> Seq<(Seq<char>, Seq<char>)> {
        pairs_view(self.entries@)
    }

    /// No variable set.
    pub fn new() -> (r: Self)
        ensures
            r@ == Map::<Seq<char>, Seq<char>>::empty(),
            r.pairs().len() == 0,
    {
        let r = EnvVars { entries: Vec::new() };
        assert(pairs_view(r.entries@) =~= seq![]);
        r
    }

    /// The position of `name` among the variables.
    fn position(&self, name: &str) -> (r: Option<usize>)
        ensures
            match r {
                Some(j) => j < self.entries@.len() && self.entries@[j as int].0@ == name@,
                None => forall|i: int| 0 <= i < self.entries@.len() ==> (#[trigger] self.entries@[i]).0@ != name@,
            },
    {
        let mut i: usize = 0;
        while i < self.entries.len()
            invariant
                i <= self.entries@.len(),
                forall|j: int| 0 <= j < i ==> (#[trigger] self.entries@[j]).0@ != name@,
            decreases self.entries@.len() - i,
        {
            if eq_str(self.entries[i].0.as_str(), name) {
                return Some(i);
            }
            i = i + 1;
        }
        None
    }

    /// Whether `name` is set.
    pub fn contains_key(&self, name: &str) -> (r: bool)
        ensures
            r == self@.dom().contains(name@),
    {
        proof {
            lemma_set_all_dom(pairs_view(self.entries@), name@);
            if exists|i: int| 0 <= i < pairs_view(self.entries@).len() && (#[trigger] pairs_view(self.entries@)[i]).0 == name@ {
                let i = choose|i: int| 0 <= i < pairs_view(self.entries@).len() && (#[trigger] pairs_view(self.entries@)[i]).0 == name@;
                assert(self.entries@[i].0@ == name@);
            }
        }
        let p = self.position(name);
        proof {
            if let Some(j) = p {
                assert(pairs_view(self.entries@)[j as int].0 == name@);
            }
        }
        p.is_some()
    }

    /// The value of `name`, if it is set.
    pub fn get(&self, name: &str) -> (r: Option<String>)
        ensures
            match r {
                Some(v) => self@.dom().contains(name@) && self@[name@] == v@,
                None => !self@.dom().contains(name@),
            },
    {
        proof {
            use_type_invariant(self);
            lemma_set_all_dom(pairs_view(self.entries@), name@);
            if exists|i: int| 0 <= i < pairs_view(self.entries@).len() && (#[trigger] pairs_view(self.entries@)[i]).0 == name@ {
                let i = choose|i: int| 0 <= i < pairs_view(self.entries@).len() && (#[trigger] pairs_view(self.entries@)[i]).0 == name@;
                assert(self.entries@[i].0@ == name@);
            }
        }
        match self.position(name) {
            Some(j) => {
                proof {
                    lemma_set_all_value(pairs_view(self.entries@), j as int);
                }
                Some(self.entries[j].1.clone())
            },
            None => None,
        }
    }

    /// Sets `name` to `value`, replacing an earlier value.
    pub fn insert(&mut self, name: String, value: String)
        ensures
            final(self)@ == old(self)@.insert(name@, value@),
            old(self)@.dom().contains(name@) ==> final(self).pairs().len() == old(self).pairs().len(),
            !old(self)@.dom().contains(name@) ==> final(self).pairs() == old(self).pairs().push(
                (name@, value@),
            ),
    {
        proof {
            use_type_invariant(&*self);
            lemma_set_all_dom(pairs_view(self.entries@), name@);
        }
        let pos = self.position(name.as_str());
        let ghost old_entries = self.entries@;
        let mut entries: Vec<(String, String)> = Vec::new();
        std::mem::swap(&mut entries, &mut self.entries);
        match pos {
            Some(j) => {
                entries.set(j, (name, value));
                proof {
                    assert(pairs_view(entries@) =~= pairs_view(old_entries).update(
                        j as int,
                        (pairs_view(old_entries)[j as int].0, value@),
                    ));
                    lemma_set_all_update(pairs_view(old_entries), j as int, value@);
                }
            },
            None => {
                proof {
                    assert forall|i: int| 0 <= i < pairs_view(old_entries).len() implies (#[trigger] pairs_view(old_entries)[i]).0 != name@ by {
                        assert(old_entries[i].0@ != name@);
                    }
                }
                entries.push((name, value));
                proof {
                    assert(pairs_view(entries@) =~= pairs_view(old_entries).push((name@, value@)));
                    assert(pairs_view(entries@).drop_last() =~= pairs_view(old_entries));
                    assert forall|a: int, b: int| 0 <= a < b < pairs_view(entries@).len() implies pairs_view(entries@)[a].0 != pairs_view(entries@)[b].0 by {
                        if b == pairs_view(entries@).len() - 1 {
                            assert(pairs_view(old_entries)[a].0 != name@);
                        } else {
                            assert(pairs_view(old_entries)[a].0 != pairs_view(old_entries)[b].0);
                        }
                    }
                }
            },
        }
        self.entries = entries;
    }

    /// The variables as `(name, value)` pairs, in the order in which they were
    /// first set.
    pub fn to_pairs(&self) -> (r: Vec<(String, String)>)
        ensures
            pairs_view(r@) == self.pairs(),
    {
        let mut r: Vec<(String, String)> = Vec::new();
        let mut i: usize = 0;
        while i < self.entries.len()
            invariant
                i <= self.entries@.len(),
                pairs_view(r@) == pairs_view(self.entries@).subrange(0, i as int),
            decreases self.entries@.len() - i,
        {
            let k = self.entries[i].0.clone();
            let v = self.entries[i].1.clone();
            let ghost r0 = r@;
            r.push((k, v));
            assert(pairs_view(r@) =~= pairs_view(r0).push(pairs_view(self.entries@)[i as int]));
            i = i + 1;
            assert(pairs_view(r@) =~= pairs_view(self.entries@).subrange(0, i as int));
        }
        assert(pairs_view(self.entries@).subrange(0, i as int) =~= pairs_view(self.entries@));
        r
    }

    /// A copy of the variables.
    pub fn duplicate(&self) -> (r: EnvVars)
        ensures
            r@ == self@,
            r.pairs() == self.pairs(),
    {
        proof {
            use_type_invariant(self);
        }
        let entries = self.to_pairs();
        EnvVars { entries }
    }
}

} // verus!
