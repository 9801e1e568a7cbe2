//! A sequence of (key, value) pairs with distinct keys, read as a map.
use vstd::prelude::*;

verus! {

/// A value that carries its own name, under which a collection keys it.
pub trait Named: View + Sized {
    /// The name, as a sequence of characters.
    spec fn name_of(&self) -> Seq<char>;

    /// The name.
    fn key(&self) -> (r: &String)
        ensures
            r@ == self.name_of(),
    ;
}

/// The values of a list as (name, view) pairs.
pub open spec fn named_pairs<T: Named>(s: Seq<T>) -> Seq<(Seq<char>, T::V)> {
    s.map_values(|d: T| (d.name_of(), d@))
}

/// The position of the value named `key`, if the list holds one.
pub fn find_named<T: Named>(v: &Vec<T>, key: &String) -> (r: Option<usize>)
    ensures
        match r {
            Some(i) => i < v@.len() && named_pairs(v@)[i as int].0 == key@,
            None => !to_map(named_pairs(v@)).contains_key(key@),
        },
{
    let mut i: usize = 0;
    while i < v.len()
        invariant
            i <= v@.len(),
            forall|j: int| 0 <= j < i ==> (#[trigger] named_pairs(v@)[j]).0 != key@,
        decreases v@.len() - i,
    {
        assert(named_pairs(v@)[i as int] == (v@[i as int].name_of(), v@[i as int]@));
        if v[i].key().eq(key) {
            return Some(i);
        }
        i = i + 1;
    }
    proof {
        lemma_to_map_domain(named_pairs(v@), key@);
    }
    None
}

/// Whether no two values of the list share a name.
pub fn distinct_named<T: Named>(v: &Vec<T>) -> (r: bool)
    ensures
        r == keys_unique(named_pairs(v@)),
{
    let ghost s = named_pairs(v@);
    let mut i: usize = 0;
    while i < v.len()
        invariant
            i <= v@.len(),
            s == named_pairs(v@),
            forall|a: int, b: int| 0 <= a < i && 0 <= b < i && a != b ==> #[trigger] s[a].0 != #[trigger] s[b].0,
        decreases v@.len() - i,
    {
        let mut j: usize = 0;
        while j < i
            invariant
                j <= i < v@.len(),
                s == named_pairs(v@),
                forall|a: int, b: int| 0 <= a < i && 0 <= b < i && a != b ==> #[trigger] s[a].0 != #[trigger] s[b].0,
                forall|b: int| 0 <= b < j ==> #[trigger] s[b].0 != s[i as int].0,
            decreases i - j,
        {
            assert(s[i as int] == (v@[i as int].name_of(), v@[i as int]@));
            assert(s[j as int] == (v@[j as int].name_of(), v@[j as int]@));
            if v[j].key().eq(v[i].key()) {
                assert(s[j as int].0 == s[i as int].0);
                return false;
            }
            j = j + 1;
        }
        i = i + 1;
    }
    true
}

/// Whether every value of a stored list sits under its own name.
pub fn stored_under_own_names<T: Named>(entries: &Vec<(String, T)>) -> (r: bool)
    ensures
        r == forall|i: int| 0 <= i < entries@.len() ==> (#[trigger] entries@[i]).0@ == entries@[i].1.name_of(),
{
    let mut i: usize = 0;
    while i < entries.len()
        invariant
            i <= entries@.len(),
            forall|j: int| 0 <= j < i ==> (#[trigger] entries@[j]).0@ == entries@[j].1.name_of(),
        decreases entries@.len() - i,
    {
        if !entries[i].0.eq(entries[i].1.key()) {
            return false;
        }
        i = i + 1;
    }
    true
}

/// No two pairs share a key.
pub open spec fn keys_unique<V>(s: Seq<(Seq<char>, V)>) -> bool {
    forall|i: int, j: int|
        0 <= i < s.len() && 0 <= j < s.len() && i != j ==> #[trigger] s[i].0 != #[trigger] s[j].0
}

/// The map that the pairs describe; a later pair wins over an earlier one.
pub open spec fn to_map<V>(s: Seq<(Seq<char>, V)>) -> Map<Seq<char>, V>
    decreases s.len(),
{
    if s.len() == 0 {
        Map::empty()
    } else {
        to_map(s.drop_last()).insert(s.last().0, s.last().1)
    }
}

/// A key is in the map exactly when some pair carries it.
pub proof fn lemma_to_map_domain<V>(s: Seq<(Seq<char>, V)>, k: Seq<char>)
    ensures
        to_map(s).contains_key(k) <==> exists|i: int| 0 <= i < s.len() && (#[trigger] s[i]).0 == k,
    decreases s.len(),
{
    if s.len() > 0 {
        let p = s.drop_last();
        lemma_to_map_domain(p, k);
        if to_map(s).contains_key(k) {
            if k == s.last().0 {
                assert(s[s.len() - 1].0 == k);
            } else {
                let i = choose|i: int| 0 <= i < p.len() && (#[trigger] p[i]).0 == k;
                assert(s[i] == p[i]);
            }
        }
        if exists|i: int| 0 <= i < s.len() && (#[trigger] s[i]).0 == k {
            let i = choose|i: int| 0 <= i < s.len() && (#[trigger] s[i]).0 == k;
            if i < s.len() - 1 {
                assert(p[i] == s[i]);
            }
        }
    }
}

/// With distinct keys, each pair's value is what the map holds under its key.
pub proof fn lemma_to_map_value<V>(s: Seq<(Seq<char>, V)>, i: int)
    requires
        keys_unique(s),
        0 <= i < s.len(),
    ensures
        to_map(s).contains_key(s[i].0),
        to_map(s)[s[i].0] == s[i].1,
    decreases s.len(),
{
    let p = s.drop_last();
    if i < s.len() - 1 {
        assert(keys_unique(p)) by {
            assert forall|a: int, b: int|
                0 <= a < p.len() && 0 <= b < p.len() && a != b implies #[trigger] p[a].0
                != #[trigger] p[b].0 by {
                assert(p[a] == s[a] && p[b] == s[b]);
            }
        }
        lemma_to_map_value(p, i);
        assert(p[i] == s[i]);
        assert(s[i].0 != s[s.len() - 1].0);
    }
}

/// Appending a pair under a new key inserts it into the map.
pub proof fn lemma_push<V>(s: Seq<(Seq<char>, V)>, x: (Seq<char>, V))
    requires
        keys_unique(s),
        !to_map(s).contains_key(x.0),
    ensures
        keys_unique(s.push(x)),
        to_map(s.push(x)) == to_map(s).insert(x.0, x.1),
{
    let t = s.push(x);
    assert(t.drop_last() =~= s);
    assert forall|a: int, b: int|
        0 <= a < t.len() && 0 <= b < t.len() && a != b implies #[trigger] t[a].0
        != #[trigger] t[b].0 by {
        if a == s.len() {
            lemma_to_map_domain(s, x.0);
            assert(t[b] == s[b]);
        } else if b == s.len() {
            lemma_to_map_domain(s, x.0);
            assert(t[a] == s[a]);
        } else {
            assert(t[a] == s[a] && t[b] == s[b]);
        }
    }
}

/// Replacing the pair at `i` by one under the same key replaces the value.
pub proof fn lemma_update<V>(s: Seq<(Seq<char>, V)>, i: int, x: (Seq<char>, V))
    requires
        keys_unique(s),
        0 <= i < s.len(),
        x.0 == s[i].0,
    ensures
        keys_unique(s.update(i, x)),
        to_map(s.update(i, x)) == to_map(s).insert(x.0, x.1),
{
    let t = s.update(i, x);
    assert forall|a: int, b: int|
        0 <= a < t.len() && 0 <= b < t.len() && a != b implies #[trigger] t[a].0
        != #[trigger] t[b].0 by {
        assert(t[a].0 == s[a].0 && t[b].0 == s[b].0);
    }
    let m = to_map(s).insert(x.0, x.1);
    assert forall|k: Seq<char>| #[trigger] to_map(t).contains_key(k) == m.contains_key(k) by {
        lemma_to_map_domain(s, k);
        lemma_to_map_domain(t, k);
        if to_map(t).contains_key(k) {
            let j = choose|j: int| 0 <= j < t.len() && (#[trigger] t[j]).0 == k;
            assert(s[j].0 == k);
        }
        if to_map(s).contains_key(k) {
            let j = choose|j: int| 0 <= j < s.len() && (#[trigger] s[j]).0 == k;
            assert(t[j].0 == k);
        }
        if k == x.0 {
            assert(t[i].0 == k);
        }
    }
    assert forall|k: Seq<char>| #[trigger] to_map(t).contains_key(k) implies to_map(t)[k]
        == m[k] by {
        lemma_to_map_domain(t, k);
        let j = choose|j: int| 0 <= j < t.len() && (#[trigger] t[j]).0 == k;
        lemma_to_map_value(t, j);
        if j != i {
            lemma_to_map_value(s, j);
            assert(s[j].0 != s[i].0);
        }
    }
    assert(to_map(t) =~= m);
}

/// Removing the pair at `i` removes its key from the map.
pub proof fn lemma_remove<V>(s: Seq<(Seq<char>, V)>, i: int)
    requires
        keys_unique(s),
        0 <= i < s.len(),
    ensures
        keys_unique(s.remove(i)),
        to_map(s.remove(i)) == to_map(s).remove(s[i].0),
{
    let t = s.remove(i);
    assert forall|a: int| 0 <= a < t.len() implies #[trigger] t[a] == if a < i {
        s[a]
    } else {
        s[a + 1]
    } by {}
    assert forall|a: int, b: int|
        0 <= a < t.len() && 0 <= b < t.len() && a != b implies #[trigger] t[a].0
        != #[trigger] t[b].0 by {
        let sa = if a < i { a } else { a + 1 };
        let sb = if b < i { b } else { b + 1 };
        assert(t[a] == s[sa] && t[b] == s[sb]);
    }
    let m = to_map(s).remove(s[i].0);
    assert forall|k: Seq<char>| #[trigger] to_map(t).contains_key(k) == m.contains_key(k) by {
        lemma_to_map_domain(s, k);
        lemma_to_map_domain(t, k);
        if to_map(t).contains_key(k) {
            let j = choose|j: int| 0 <= j < t.len() && (#[trigger] t[j]).0 == k;
            let sj = if j < i { j } else { j + 1 };
            assert(t[j] == s[sj]);
            assert(s[sj].0 != s[i].0);
        }
        if m.contains_key(k) {
            let j = choose|j: int| 0 <= j < s.len() && (#[trigger] s[j]).0 == k;
            assert(j != i);
            let tj = if j < i { j } else { j - 1 };
            assert(t[tj] == s[j]);
        }
    }
    assert forall|k: Seq<char>| #[trigger] to_map(t).contains_key(k) implies to_map(t)[k]
        == m[k] by {
        lemma_to_map_domain(t, k);
        let j = choose|j: int| 0 <= j < t.len() && (#[trigger] t[j]).0 == k;
        let sj = if j < i { j } else { j + 1 };
        assert(t[j] == s[sj]);
        lemma_to_map_value(t, j);
        lemma_to_map_value(s, sj);
        assert(s[sj].0 != s[i].0);
    }
    assert(to_map(t) =~= m);
}

/// With distinct keys, the map has one entry per pair.
pub proof fn lemma_to_map_len<V>(s: Seq<(Seq<char>, V)>)
    requires
        keys_unique(s),
    ensures
        to_map(s).dom().finite(),
        to_map(s).len() == s.len(),
    decreases s.len(),
{
    if s.len() > 0 {
        let p = s.drop_last();
        assert(keys_unique(p)) by {
            assert forall|a: int, b: int|
                0 <= a < p.len() && 0 <= b < p.len() && a != b implies #[trigger] p[a].0
                != #[trigger] p[b].0 by {
                assert(p[a] == s[a] && p[b] == s[b]);
            }
        }
        lemma_to_map_len(p);
        lemma_to_map_domain(p, s.last().0);
        if to_map(p).contains_key(s.last().0) {
            let i = choose|i: int| 0 <= i < p.len() && (#[trigger] p[i]).0 == s.last().0;
            assert(p[i] == s[i]);
        }
    }
}

} // verus!
