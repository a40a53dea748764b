//! A string-keyed map with last-write-wins insertion, backed by a vector of
//! key/value pairs whose keys are pairwise distinct. Its view is a
//! `Map<Seq<char>, Seq<char>>`, so contracts over header and query sets can be
//! stated over mathematical maps.

use vstd::prelude::*;

verus! {

/// The map denoted by a sequence of key/value pairs: later pairs win.
pub open spec fn map_of(s: Seq<(String, String)>) -> Map<Seq<char>, Seq<char>>
    decreases s.len(),
{
    if s.len() == 0 {
        Map::empty()
    } else {
        map_of(s.drop_last()).insert(s.last().0@, s.last().1@)
    }
}

/// The map after inserting a sequence of key/value pairs, in order, into `q`:
/// a later pair wins over an earlier one and over an entry of `q`.
pub open spec fn merged_pairs(
    q: Map<Seq<char>, Seq<char>>,
    s: Seq<(String, String)>,
) -> Map<Seq<char>, Seq<char>>
    decreases s.len(),
{
    if s.len() == 0 {
        q
    } else {
        merged_pairs(q, s.drop_last()).insert(s.last().0@, s.last().1@)
    }
}

/// A mapping from string keys to string values; keys are unique and a repeated
/// insertion under one key keeps only the value of the latest call.
#[derive(Debug)]
pub struct KvMap {
    pairs: Vec<(String, String)>,
}

impl View for KvMap {
    type V = Map<Seq<char>, Seq<char>>;

    closed spec fn view(&self) -> Map<Seq<char>, Seq<char>> {
        map_of(self.pairs@)
    }
}

proof fn lemma_map_of_dom(s: Seq<(String, String)>)
    ensures
        map_of(s).dom().finite(),
        forall|k: Seq<char>|
            map_of(s).contains_key(k) <==> exists|i: int| 0 <= i < s.len() && s[i].0@ == k,
    decreases s.len(),
{
    if s.len() > 0 {
        lemma_map_of_dom(s.drop_last());
        assert forall|k: Seq<char>| map_of(s).contains_key(k) implies exists|i: int|
            0 <= i < s.len() && s[i].0@ == k by {
            if k == s.last().0@ {
                assert(s[s.len() - 1].0@ == k);
            } else {
                let i = choose|i: int| 0 <= i < s.drop_last().len() && s.drop_last()[i].0@ == k;
                assert(s[i].0@ == k);
            }
        }
        assert forall|k: Seq<char>| (exists|i: int| 0 <= i < s.len() && s[i].0@ == k) implies map_of(
            s,
        ).contains_key(k) by {
            let i = choose|i: int| 0 <= i < s.len() && s[i].0@ == k;
            if i < s.len() - 1 {
                assert(s.drop_last()[i].0@ == k);
            }
        }
    }
}

proof fn lemma_map_of_index(s: Seq<(String, String)>)
    requires
        forall|i: int, j: int| 0 <= i < j < s.len() ==> s[i].0@ != s[j].0@,
    ensures
        forall|i: int|
            0 <= i < s.len() ==> map_of(s).contains_key(#[trigger] s[i].0@) && map_of(s)[s[i].0@]
                == s[i].1@,
    decreases s.len(),
{
    if s.len() > 0 {
        lemma_map_of_index(s.drop_last());
        assert forall|i: int| 0 <= i < s.len() implies map_of(s).contains_key(#[trigger] s[i].0@)
            && map_of(s)[s[i].0@] == s[i].1@ by {
            if i < s.len() - 1 {
                assert(s[i].0@ != s.last().0@);
                assert(s.drop_last()[i] == s[i]);
            }
        }
    }
}

proof fn lemma_map_of_remove(s: Seq<(String, String)>, i: int)
    requires
        0 <= i < s.len(),
    ensures
        forall|k: Seq<char>|
            k != s[i].0@ ==> (map_of(s.remove(i)).contains_key(k) <==> map_of(s).contains_key(k)),
        forall|k: Seq<char>|
            k != s[i].0@ && map_of(s).contains_key(k) ==> map_of(s.remove(i))[k] == map_of(s)[k],
    decreases s.len(),
{
    let t = s.remove(i);
    if i == s.len() - 1 {
        assert(t =~= s.drop_last());
    } else {
        lemma_map_of_remove(s.drop_last(), i);
        assert(t.drop_last() =~= s.drop_last().remove(i));
        assert(t.len() == s.len() - 1);
        assert(t.last() == s.last());
        assert(s.drop_last()[i] == s[i]);
        assert(map_of(t) == map_of(s.drop_last().remove(i)).insert(s.last().0@, s.last().1@));
        assert(map_of(s) == map_of(s.drop_last()).insert(s.last().0@, s.last().1@));
        assert forall|k: Seq<char>| k != s[i].0@ implies (map_of(t).contains_key(k) <==> map_of(
            s,
        ).contains_key(k)) by {
            if k != s.last().0@ {
                assert(map_of(t).contains_key(k) <==> map_of(s.drop_last().remove(i)).contains_key(
                    k,
                ));
            }
        }
        assert forall|k: Seq<char>| k != s[i].0@ && map_of(s).contains_key(k) implies map_of(t)[k]
            == map_of(s)[k] by {
            if k != s.last().0@ {
                assert(map_of(t)[k] == map_of(s.drop_last().remove(i))[k]);
                assert(map_of(s)[k] == map_of(s.drop_last())[k]);
            }
        }
    }
}

proof fn lemma_map_of_len(s: Seq<(String, String)>)
    requires
        forall|i: int, j: int| 0 <= i < j < s.len() ==> s[i].0@ != s[j].0@,
    ensures
        map_of(s).dom().len() == s.len(),
    decreases s.len(),
{
    lemma_map_of_dom(s);
    if s.len() > 0 {
        lemma_map_of_len(s.drop_last());
        lemma_map_of_dom(s.drop_last());
        assert(!map_of(s.drop_last()).contains_key(s.last().0@));
        assert(map_of(s).dom() =~= map_of(s.drop_last()).dom().insert(s.last().0@));
    }
}

impl KvMap {
    /// Keys of distinct stored pairs are distinct strings.
    pub closed spec fn wf(&self) -> bool {
        forall|i: int, j: int| 0 <= i < j < self.pairs@.len() ==> self.pairs@[i].0@ != self.pairs@[j].0@
    }

    /// An empty map.
    pub fn new() -> (r: Self)
        ensures
            r.wf(),
            r@ == Map::<Seq<char>, Seq<char>>::empty(),
    {
        KvMap { pairs: Vec::new() }
    }

    /// Removes every entry.
    pub fn clear(&mut self)
        ensures
            final(self).wf(),
            final(self)@ == Map::<Seq<char>, Seq<char>>::empty(),
    {
        self.pairs.clear();
    }

    /// The number of entries.
    pub fn len(&self) -> (n: usize)
        requires
            self.wf(),
        ensures
            n == self@.dom().len(),
    {
        proof {
            lemma_map_of_len(self.pairs@);
        }
        self.pairs.len()
    }

    fn find_index(&self, key: &String) -> (r: Option<usize>)
        ensures
            match r {
                Some(i) => i < self.pairs@.len() && self.pairs@[i as int].0@ == key@,
                None => forall|j: int| 0 <= j < self.pairs@.len() ==> self.pairs@[j].0@ != key@,
            },
    {
        let n = self.pairs.len();
        let mut i: usize = 0;
        while i < n
            invariant
                n == self.pairs@.len(),
                i <= n,
                forall|j: int| 0 <= j < i ==> self.pairs@[j].0@ != key@,
            decreases n - i,
        {
            if self.pairs[i].0 == *key {
                return Some(i);
            }
            i = i + 1;
        }
        None
    }

    /// Inserts a value under a key; an existing entry under that key is
    /// replaced, so the latest insertion wins.
    pub fn insert(&mut self, key: String, value: String)
        requires
            old(self).wf(),
        ensures
            final(self).wf(),
            final(self)@ == old(self)@.insert(key@, value@),
    {
        let ghost s0 = self.pairs@;
        if let Some(i) = self.find_index(&key) {
            self.pairs.remove(i);
            proof {
                lemma_map_of_remove(s0, i as int);
                assert forall|j: int| 0 <= j < self.pairs@.len() implies self.pairs@[j].0@
                    != key@ by {
                    if j < i {
                        assert(self.pairs@[j] == s0[j]);
                    } else {
                        assert(self.pairs@[j] == s0[j + 1]);
                    }
                }
                assert forall|a: int, b: int| 0 <= a < b < self.pairs@.len() implies self.pairs@[a].0@
                    != self.pairs@[b].0@ by {
                    let a0: int = if a < i { a } else { a + 1 };
                    let b0: int = if b < i { b } else { b + 1 };
                    assert(self.pairs@[a] == s0[a0]);
                    assert(self.pairs@[b] == s0[b0]);
                }
            }
        }
        let ghost s1 = self.pairs@;
        proof {
            assert(forall|j: int| 0 <= j < s1.len() ==> s1[j].0@ != key@);
            assert(forall|k: Seq<char>|
                k != key@ ==> (map_of(s1).contains_key(k) <==> map_of(s0).contains_key(k)));
            assert(forall|k: Seq<char>|
                k != key@ && map_of(s0).contains_key(k) ==> map_of(s1)[k] == map_of(s0)[k]);
        }
        self.pairs.push((key, value));
        proof {
            assert(self.pairs@.drop_last() =~= s1);
            assert(self.pairs@.last() == (key, value));
            assert(map_of(self.pairs@) == map_of(s1).insert(key@, value@));
            assert(map_of(self.pairs@) =~= map_of(s0).insert(key@, value@));
        }
    }

    /// Looks a key up; returns the stored value exactly when the key is present.
    pub fn get<'a>(&'a self, key: &String) -> (r: Option<&'a String>)
        requires
            self.wf(),
        ensures
            match r {
                Some(v) => self@.contains_key(key@) && self@[key@] == v@,
                None => !self@.contains_key(key@),
            },
    {
        proof {
            lemma_map_of_dom(self.pairs@);
            lemma_map_of_index(self.pairs@);
        }
        match self.find_index(key) {
            Some(i) => Some(&self.pairs[i].1),
            None => None,
        }
    }

    /// The stored pairs; each pair is an entry of the map, and every key
    /// occurs exactly once.
    pub fn entries(&self) -> (r: &Vec<(String, String)>)
        requires
            self.wf(),
        ensures
            r@.len() == self@.dom().len(),
            forall|i: int|
                0 <= i < r@.len() ==> self@.contains_key(#[trigger] r@[i].0@) && self@[r@[i].0@]
                    == r@[i].1@,
    {
        proof {
            lemma_map_of_len(self.pairs@);
            lemma_map_of_index(self.pairs@);
        }
        &self.pairs
    }
}

} // verus!
