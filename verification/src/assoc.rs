use vstd::prelude::*;

verus! {

/// A list of key-value pairs in which no key occurs twice.
pub open spec fn keys_distinct<K, V>(s: Seq<(K, V)>) -> bool {
    forall|i: int, j: int|
        #![trigger s[i], s[j]]
        0 <= i < s.len() && 0 <= j < s.len() && i != j ==> s[i].0 != s[j].0
}

/// Some pair of the list has key `k`.
pub open spec fn has_key<K, V>(s: Seq<(K, V)>, k: K) -> bool {
    exists|i: int| 0 <= i < s.len() && #[trigger] s[i].0 == k
}

/// The map that a list of pairs with distinct keys stands for.
pub open spec fn assoc_map<K, V>(s: Seq<(K, V)>) -> Map<K, V> {
    Map::new(
        |k: K| has_key(s, k),
        |k: K| s[choose|i: int| 0 <= i < s.len() && #[trigger] s[i].0 == k].1,
    )
}

/// The views of a list of string pairs.
pub open spec fn str_pairs(v: Seq<(String, String)>) -> Seq<(Seq<char>, Seq<char>)> {
    v.map_values(|p: (String, String)| (p.0@, p.1@))
}

/// The map of a list of string pairs, over the strings' views.
pub open spec fn str_map(v: Seq<(String, String)>) -> Map<Seq<char>, Seq<char>> {
    assoc_map(str_pairs(v))
}

pub proof fn lemma_assoc_at<K, V>(s: Seq<(K, V)>, i: int)
    requires
        keys_distinct(s),
        0 <= i < s.len(),
    ensures
        assoc_map(s).dom().contains(s[i].0),
        assoc_map(s)[s[i].0] == s[i].1,
{
    let k = s[i].0;
    assert(has_key(s, k));
    let j = choose|j: int| 0 <= j < s.len() && #[trigger] s[j].0 == k;
    if j != i {
        assert(s[i].0 != s[j].0);
    }
}

pub proof fn lemma_assoc_full<K, V>(s: Seq<(K, V)>)
    requires
        keys_distinct(s),
    ensures
        forall|i: int| 0 <= i < s.len() ==> #[trigger] assoc_map(s).dom().contains(s[i].0)
            && assoc_map(s)[s[i].0] == s[i].1,
        forall|k: K| #[trigger] assoc_map(s).dom().contains(k) <==> has_key(s, k),
{
    assert forall|i: int| 0 <= i < s.len() implies #[trigger] assoc_map(s).dom().contains(s[i].0)
        && assoc_map(s)[s[i].0] == s[i].1 by {
        lemma_assoc_at(s, i);
    }
}

pub proof fn lemma_assoc_empty<K, V>(s: Seq<(K, V)>)
    ensures
        s.len() == 0 <==> assoc_map(s) == Map::<K, V>::empty(),
{
    if s.len() == 0 {
        assert(assoc_map(s) =~= Map::<K, V>::empty());
    } else {
        assert(has_key(s, s[0].0));
        assert(assoc_map(s).dom().contains(s[0].0));
        assert(!Map::<K, V>::empty().dom().contains(s[0].0));
    }
}

pub proof fn lemma_assoc_push<K, V>(s: Seq<(K, V)>, k: K, v: V)
    requires
        keys_distinct(s),
        !has_key(s, k),
    ensures
        keys_distinct(s.push((k, v))),
        assoc_map(s.push((k, v))) == assoc_map(s).insert(k, v),
{
    let t = s.push((k, v));
    assert forall|i: int, j: int| 0 <= i < t.len() && 0 <= j < t.len() && i != j implies #[trigger] t[i].0 != #[trigger] t[j].0 by {
        if i == s.len() {
            assert(t[j] == s[j]);
        } else if j == s.len() {
            assert(t[i] == s[i]);
        } else {
            assert(t[i] == s[i] && t[j] == s[j]);
        }
    }
    lemma_assoc_full(s);
    lemma_assoc_full(t);
    let m1 = assoc_map(t);
    let m2 = assoc_map(s).insert(k, v);
    assert forall|x: K| m1.dom().contains(x) <==> m2.dom().contains(x) by {
        if has_key(t, x) {
            let i = choose|i: int| 0 <= i < t.len() && #[trigger] t[i].0 == x;
            if i < s.len() {
                assert(t[i] == s[i]);
                assert(has_key(s, x));
            }
        }
        if has_key(s, x) {
            let i = choose|i: int| 0 <= i < s.len() && #[trigger] s[i].0 == x;
            assert(t[i] == s[i]);
            assert(has_key(t, x));
        }
        if x == k {
            assert(t[s.len() as int].0 == k);
            assert(has_key(t, x));
        }
    }
    assert forall|x: K| m1.dom().contains(x) implies m1[x] == m2[x] by {
        let i = choose|i: int| 0 <= i < t.len() && #[trigger] t[i].0 == x;
        assert(m1[t[i].0] == t[i].1);
        if i < s.len() {
            assert(t[i] == s[i]);
            assert(assoc_map(s)[s[i].0] == s[i].1);
        }
    }
    assert(m1 =~= m2);
}

pub proof fn lemma_assoc_update<K, V>(s: Seq<(K, V)>, i: int, v: V)
    requires
        keys_distinct(s),
        0 <= i < s.len(),
    ensures
        keys_distinct(s.update(i, (s[i].0, v))),
        assoc_map(s.update(i, (s[i].0, v))) == assoc_map(s).insert(s[i].0, v),
{
    let k = s[i].0;
    let t = s.update(i, (k, v));
    assert forall|p: int, q: int| 0 <= p < t.len() && 0 <= q < t.len() && p != q implies #[trigger] t[p].0 != #[trigger] t[q].0 by {
        assert(t[p].0 == s[p].0 && t[q].0 == s[q].0);
    }
    lemma_assoc_full(s);
    lemma_assoc_full(t);
    let m1 = assoc_map(t);
    let m2 = assoc_map(s).insert(k, v);
    assert forall|x: K| m1.dom().contains(x) <==> m2.dom().contains(x) by {
        if has_key(t, x) {
            let p = choose|p: int| 0 <= p < t.len() && #[trigger] t[p].0 == x;
            assert(s[p].0 == x);
            assert(has_key(s, x));
        }
        if has_key(s, x) {
            let p = choose|p: int| 0 <= p < s.len() && #[trigger] s[p].0 == x;
            assert(t[p].0 == x);
            assert(has_key(t, x));
        }
    }
    assert forall|x: K| m1.dom().contains(x) implies m1[x] == m2[x] by {
        let p = choose|p: int| 0 <= p < t.len() && #[trigger] t[p].0 == x;
        assert(m1[t[p].0] == t[p].1);
        if p != i {
            assert(t[p] == s[p]);
            assert(assoc_map(s)[s[p].0] == s[p].1);
        }
    }
    assert(m1 =~= m2);
}

/// The position of the pair with key `key`.
pub fn find_key(v: &Vec<(String, String)>, key: &str) -> (r: Option<usize>)
    ensures
        match r {
            Some(i) => i < v@.len() && v@[i as int].0@ == key@,
            None => !has_key(str_pairs(v@), key@),
        },
{
    let n = v.len();
    let wanted = String::from_str(key);
    for i in 0..n
        invariant
            n == v@.len(),
            wanted@ == key@,
            forall|j: int| 0 <= j < i ==> #[trigger] v@[j].0@ != key@,
    {
        if v[i].0 == wanted {
            return Some(i);
        }
    }
    proof {
        if has_key(str_pairs(v@), key@) {
            let j = choose|j: int| 0 <= j < str_pairs(v@).len() && #[trigger] str_pairs(v@)[j].0 == key@;
            assert(str_pairs(v@)[j].0 == v@[j].0@);
        }
    }
    None
}

/// Sets the value of `key`, adding the pair where the key is new.
pub fn insert_pair(v: &mut Vec<(String, String)>, key: String, value: String)
    requires
        keys_distinct(str_pairs(old(v)@)),
    ensures
        keys_distinct(str_pairs(final(v)@)),
        str_map(final(v)@) == str_map(old(v)@).insert(key@, value@),
{
    let ghost s = str_pairs(v@);
    match find_key(v, key.as_str()) {
        Some(i) => {
            proof {
                assert(s[i as int].0 == key@);
                lemma_assoc_update(s, i as int, value@);
            }
            let ghost vv = value@;
            v.set(i, (key, value));
            proof {
                assert(str_pairs(v@) =~= s.update(i as int, (s[i as int].0, vv)));
            }
        },
        None => {
            proof {
                lemma_assoc_push(s, key@, value@);
            }
            let ghost kv = (key@, value@);
            v.push((key, value));
            proof {
                assert(str_pairs(v@) =~= s.push(kv));
            }
        },
    }
}

} // verus!
