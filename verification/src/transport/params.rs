//! A small map from names to values, kept in the order in which its keys were
//! first inserted: the headers and query parameters of an HTTP transport.
use vstd::prelude::*;

verus! {

/// A list of key/value pairs read as a map: a later pair for a key wins.
pub open spec fn pairs_map(p: Seq<(Seq<char>, Seq<char>)>) -> Map<Seq<char>, Seq<char>>
    decreases p.len(),
{
    if p.len() == 0 {
        Map::empty()
    } else {
        pairs_map(p.drop_last()).insert(p.last().0, p.last().1)
    }
}

/// No key occurs twice in `p`.
pub open spec fn keys_distinct(p: Seq<(Seq<char>, Seq<char>)>) -> bool {
    forall|i: int, j: int| 0 <= i < j < p.len() ==> #[trigger] p[i].0 != #[trigger] p[j].0
}

/// The keys of `p` are those of its pairs.
proof fn lemma_pairs_map_keys(p: Seq<(Seq<char>, Seq<char>)>)
    ensures
        forall|k: Seq<char>|
            #[trigger] pairs_map(p).contains_key(k) <==> exists|i: int|
                0 <= i < p.len() && (#[trigger] p[i]).0 == k,
    decreases p.len(),
{
    if p.len() > 0 {
        let d = p.drop_last();
        lemma_pairs_map_keys(d);
        assert forall|k: Seq<char>| #[trigger]
            pairs_map(p).contains_key(k) <==> exists|i: int|
                0 <= i < p.len() && (#[trigger] p[i]).0 == k by {
            if k == p.last().0 {
                assert(p[p.len() - 1].0 == k);
            } else {
                assert(pairs_map(p).contains_key(k) == pairs_map(d).contains_key(k));
                if pairs_map(d).contains_key(k) {
                    let i = choose|i: int| 0 <= i < d.len() && (#[trigger] d[i]).0 == k;
                    assert(p[i] == d[i]);
                }
                if exists|i: int| 0 <= i < p.len() && (#[trigger] p[i]).0 == k {
                    let i = choose|i: int| 0 <= i < p.len() && (#[trigger] p[i]).0 == k;
                    assert(d[i] == p[i]);
                }
            }
        }
    }
}

/// With distinct keys, the value of each pair is what the map gives for its key.
proof fn lemma_pairs_map_values(p: Seq<(Seq<char>, Seq<char>)>)
    requires
        keys_distinct(p),
    ensures
        forall|i: int|
            0 <= i < p.len() ==> pairs_map(p).contains_key((#[trigger] p[i]).0) && pairs_map(p)[p[i].0]
                == p[i].1,
    decreases p.len(),
{
    if p.len() > 0 {
        let d = p.drop_last();
        assert(keys_distinct(d)) by {
            assert forall|i: int, j: int| 0 <= i < j < d.len() implies #[trigger] d[i].0
                != #[trigger] d[j].0 by {
                assert(d[i] == p[i] && d[j] == p[j]);
            }
        }
        lemma_pairs_map_values(d);
        assert forall|i: int| 0 <= i < p.len() implies pairs_map(p).contains_key(
            (#[trigger] p[i]).0,
        ) && pairs_map(p)[p[i].0] == p[i].1 by {
            if i < d.len() {
                assert(d[i] == p[i]);
                assert(p[i].0 != p[p.len() - 1].0);
            }
        }
    }
}

/// Replacing the value of a pair of a list with distinct keys replaces the
/// value of that key in the map.
proof fn lemma_pairs_map_update(p: Seq<(Seq<char>, Seq<char>)>, i: int, v: Seq<char>)
    requires
        keys_distinct(p),
        0 <= i < p.len(),
    ensures
        pairs_map(p.update(i, (p[i].0, v))) == pairs_map(p).insert(p[i].0, v),
    decreases p.len(),
{
    let q = p.update(i, (p[i].0, v));
    let d = p.drop_last();
    if i == p.len() - 1 {
        assert(q.drop_last() =~= d);
        assert(pairs_map(q) =~= pairs_map(p).insert(p[i].0, v));
    } else {
        assert(keys_distinct(d)) by {
            assert forall|a: int, b: int| 0 <= a < b < d.len() implies #[trigger] d[a].0
                != #[trigger] d[b].0 by {
                assert(d[a] == p[a] && d[b] == p[b]);
            }
        }
        assert(d[i] == p[i]);
        assert(q.drop_last() =~= d.update(i, (d[i].0, v)));
        lemma_pairs_map_update(d, i, v);
        assert(p[i].0 != p.last().0);
        assert(pairs_map(q) =~= pairs_map(p).insert(p[i].0, v));
    }
}

/// A map from text keys to text values whose pairs keep the order in which
/// their keys first came.
pub struct Params {
    entries: Vec<(String, String)>,
}

impl Params {
    /// The pairs, as text.
    pub closed spec fn pairs(&self) -> Seq<(Seq<char>, Seq<char>)> {
        self.entries@.map_values(|e: (String, String)| (e.0@, e.1@))
    }

    #[verifier::type_invariant]
    closed spec fn inv(&self) -> bool {
        keys_distinct(self.pairs())
    }

    /// The empty map.
    pub fn new() -> (r: Params)
        ensures
            r@ == Map::<Seq<char>, Seq<char>>::empty(),
            r.pairs().len() == 0,
    {
        let r = Params { entries: Vec::new() };
        assert(r.pairs() =~= Seq::<(Seq<char>, Seq<char>)>::empty());
        r
    }

    /// Sets the value of `key` to `value`, keeping the place of a key that
    /// was there already and putting a new key last.
    pub fn insert(&mut self, key: String, value: String)
        ensures
            final(self)@ == old(self)@.insert(key@, value@),
    {
        proof {
            use_type_invariant(&*self);
        }
        let mut entries: Vec<(String, String)> = Vec::new();
        std::mem::swap(&mut entries, &mut self.entries);
        let ghost p = entries@.map_values(|e: (String, String)| (e.0@, e.1@));
        assert(p == old(self).pairs());
        let n = entries.len();
        let mut i: usize = 0;
        while i < n
            invariant
                n == entries@.len(),
                i <= n,
                p == entries@.map_values(|e: (String, String)| (e.0@, e.1@)),
                keys_distinct(p),
                p == old(self).pairs(),
                forall|j: int| 0 <= j < i ==> (#[trigger] p[j]).0 != key@,
            decreases n - i,
        {
            if entries[i].0 == key {
                assert(p[i as int].0 == key@);
                let ghost k = key@;
                let ghost vv = value@;
                entries.set(i, (key, value));
                let ghost q = entries@.map_values(|e: (String, String)| (e.0@, e.1@));
                assert(q =~= p.update(i as int, (p[i as int].0, vv)));
                proof {
                    lemma_pairs_map_update(p, i as int, vv);
                    assert(keys_distinct(q)) by {
                        assert forall|a: int, b: int| 0 <= a < b < q.len() implies #[trigger] q[a].0
                            != #[trigger] q[b].0 by {
                            assert(q[a].0 == p[a].0 && q[b].0 == p[b].0);
                        }
                    }
                }
                self.entries = entries;
                assert(self.pairs() == q);
                assert(pairs_map(q) == pairs_map(p).insert(k, vv));
                return;
            }
            i = i + 1;
        }
        let ghost k = key@;
        let ghost vv = value@;
        entries.push((key, value));
        let ghost q = entries@.map_values(|e: (String, String)| (e.0@, e.1@));
        assert(q =~= p.push((k, vv)));
        assert(q.drop_last() =~= p);
        assert(keys_distinct(q)) by {
            assert forall|a: int, b: int| 0 <= a < b < q.len() implies #[trigger] q[a].0
                != #[trigger] q[b].0 by {
                if b == q.len() - 1 {
                    assert(q[a] == p[a]);
                } else {
                    assert(q[a] == p[a] && q[b] == p[b]);
                }
            }
        }
        self.entries = entries;
        assert(self.pairs() == q);
    }

    /// The pairs, in order.
    pub fn entries(&self) -> (r: &Vec<(String, String)>)
        ensures
            r@.map_values(|e: (String, String)| (e.0@, e.1@)) == self.pairs(),
            keys_distinct(self.pairs()),
            pairs_map(self.pairs()) == self@,
    {
        proof {
            use_type_invariant(self);
        }
        &self.entries
    }

    /// A copy of this map, with its pairs in the same order.
    pub fn duplicate(&self) -> (r: Params)
        ensures
            r.pairs() == self.pairs(),
            r@ == self@,
    {
        proof {
            use_type_invariant(self);
        }
        let mut entries: Vec<(String, String)> = Vec::new();
        let mut i: usize = 0;
        while i < self.entries.len()
            invariant
                i <= self.entries@.len(),
                entries@.map_values(|e: (String, String)| (e.0@, e.1@)) =~= self.pairs().take(
                    i as int,
                ),
            decreases self.entries@.len() - i,
        {
            let k = self.entries[i].0.clone();
            let v = self.entries[i].1.clone();
            let ghost before = entries@.map_values(|e: (String, String)| (e.0@, e.1@));
            entries.push((k, v));
            assert(entries@.map_values(|e: (String, String)| (e.0@, e.1@)) =~= before.push(
                self.pairs()[i as int],
            ));
            i = i + 1;
            assert(self.pairs().take(i as int) =~= self.pairs().take(i - 1).push(
                self.pairs()[i - 1],
            ));
        }
        assert(self.pairs().take(i as int) =~= self.pairs());
        Params { entries }
    }
}

impl View for Params {
    type V = Map<Seq<char>, Seq<char>>;

    open spec fn view(&self) -> Map<Seq<char>, Seq<char>> {
        pairs_map(self.pairs())
    }
}

/// Pairs with distinct keys, read as a map, have exactly their keys, each
/// with its value: so the pairs that `Params::entries` hands out list the map.
pub proof fn law_entries_list_the_map(pairs: Seq<(Seq<char>, Seq<char>)>)
    requires
        keys_distinct(pairs),
    ensures
        forall|k: Seq<char>|
            #[trigger] pairs_map(pairs).contains_key(k) <==> exists|i: int|
                0 <= i < pairs.len() && (#[trigger] pairs[i]).0 == k,
        forall|i: int|
            0 <= i < pairs.len() ==> pairs_map(pairs)[(#[trigger] pairs[i]).0] == pairs[i].1,
{
    lemma_pairs_map_keys(pairs);
    lemma_pairs_map_values(pairs);
}

} // verus!
