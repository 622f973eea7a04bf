//! Keyed records held in a vector of pairs, seen as a map in which the last
//! pair under a key wins.
use vstd::prelude::*;

verus! {

/// A key whose equality can be decided at run time.
pub trait SameKey: View + Sized {
    fn same_key(&self, other: &Self) -> (r: bool)
        ensures
            r == (self@ == other@);
}

impl SameKey for Vec<u8> {
    fn same_key(&self, other: &Self) -> (r: bool) {
        crate::address::bytes_equal(self.as_slice(), other.as_slice())
    }
}

impl SameKey for crate::address::Address {
    fn same_key(&self, other: &Self) -> (r: bool) {
        self.same(other)
    }
}

/// The map that a sequence of pairs stands for.
pub open spec fn to_map<K: View, V: View>(s: Seq<(K, V)>) -> Map<K::V, V::V>
    decreases s.len(),
{
    if s.len() == 0 {
        Map::empty()
    } else {
        to_map(s.drop_last()).insert(s.last().0@, s.last().1@)
    }
}

/// `i` is the last position that holds key `k`.
pub open spec fn last_at<K: View, V>(s: Seq<(K, V)>, i: int, k: K::V) -> bool {
    &&& 0 <= i < s.len()
    &&& s[i].0@ == k
    &&& forall|j: int| i < j < s.len() ==> s[j].0@ != k
}

pub proof fn lemma_found<K: View, V: View>(s: Seq<(K, V)>, i: int, k: K::V)
    requires
        last_at(s, i, k),
    ensures
        to_map(s).contains_key(k),
        to_map(s)[k] == s[i].1@,
    decreases s.len(),
{
    if i < s.len() - 1 {
        lemma_found(s.drop_last(), i, k);
    }
}

pub proof fn lemma_absent<K: View, V: View>(s: Seq<(K, V)>, k: K::V)
    requires
        forall|j: int| 0 <= j < s.len() ==> s[j].0@ != k,
    ensures
        !to_map(s).contains_key(k),
    decreases s.len(),
{
    if s.len() > 0 {
        lemma_absent(s.drop_last(), k);
    }
}

pub proof fn lemma_push<K: View, V: View>(s: Seq<(K, V)>, e: (K, V))
    ensures
        to_map(s.push(e)) == to_map(s).insert(e.0@, e.1@),
{
    assert(s.push(e).drop_last() =~= s);
}

pub proof fn lemma_update<K: View, V: View>(s: Seq<(K, V)>, i: int, e: (K, V))
    requires
        last_at(s, i, e.0@),
    ensures
        to_map(s.update(i, e)) == to_map(s).insert(e.0@, e.1@),
    decreases s.len(),
{
    let t = s.update(i, e);
    if i == s.len() - 1 {
        assert(t.drop_last() =~= s.drop_last());
        assert(to_map(t) =~= to_map(s).insert(e.0@, e.1@));
    } else {
        assert(t.drop_last() =~= s.drop_last().update(i, e));
        lemma_update(s.drop_last(), i, e);
        assert(to_map(t) =~= to_map(s).insert(e.0@, e.1@));
    }
}

/// The last position of `k` in `s`, if any.
pub fn position<K: SameKey, V: View>(s: &Vec<(K, V)>, k: &K) -> (r: Option<usize>)
    ensures
        r is Some <==> to_map(s@).contains_key(k@),
        r matches Some(i) ==> last_at(s@, i as int, k@) && to_map(s@)[k@] == s@[i as int].1@,
{
    let mut i: usize = s.len();
    while i > 0
        invariant
            i <= s@.len(),
            forall|j: int| i <= j < s@.len() ==> s@[j].0@ != k@,
        decreases i,
    {
        if s[i - 1].0.same_key(k) {
            proof {
                lemma_found(s@, i - 1, k@);
            }
            return Some(i - 1);
        }
        i -= 1;
    }
    proof {
        lemma_absent(s@, k@);
    }
    None
}

} // verus!
