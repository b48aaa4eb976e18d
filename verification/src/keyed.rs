//! Collections kept as sequences of keyed entries, looked up by the first entry
//! with a given key.
use vstd::prelude::*;

verus! {

/// The value under the first entry of `s` whose key is `k`.
pub open spec fn find_key<V>(s: Seq<(Seq<char>, V)>, k: Seq<char>) -> Option<V>
    decreases s.len(),
{
    if s.len() == 0 {
        None
    } else if s[0].0 == k {
        Some(s[0].1)
    } else {
        find_key(s.drop_first(), k)
    }
}

/// Replacing the value of the first entry keyed `k` changes what `k` finds and
/// nothing else.
pub proof fn lemma_find_key_set<V>(s: Seq<(Seq<char>, V)>, i: int, k: Seq<char>, v: V, q: Seq<char>)
    requires
        0 <= i < s.len(),
        s[i].0 == k,
        forall|j: int| 0 <= j < i ==> s[j].0 != k,
    ensures
        find_key(s.update(i, (k, v)), q) == if q == k {
            Some(v)
        } else {
            find_key(s, q)
        },
    decreases i,
{
    if i == 0 {
        assert(s.update(0, (k, v)).drop_first() =~= s.drop_first());
    } else {
        assert(s.update(i, (k, v)).drop_first() =~= s.drop_first().update(i - 1, (k, v)));
        lemma_find_key_set(s.drop_first(), i - 1, k, v, q);
    }
}

/// Appending an entry for a key not present makes it findable and changes nothing
/// else.
pub proof fn lemma_find_key_push<V>(s: Seq<(Seq<char>, V)>, k: Seq<char>, v: V, q: Seq<char>)
    requires
        forall|j: int| 0 <= j < s.len() ==> s[j].0 != k,
    ensures
        find_key(s.push((k, v)), q) == if q == k {
            Some(v)
        } else {
            find_key(s, q)
        },
    decreases s.len(),
{
    if s.len() > 0 {
        assert(s.push((k, v)).drop_first() =~= s.drop_first().push((k, v)));
        lemma_find_key_push(s.drop_first(), k, v, q);
    } else {
        assert(s.push((k, v)).drop_first() =~= s);
    }
}

/// A key absent from every entry finds nothing; the first entry with it is found.
pub proof fn lemma_find_key_scan<V>(s: Seq<(Seq<char>, V)>, k: Seq<char>, i: int)
    requires
        0 <= i <= s.len(),
        forall|j: int| 0 <= j < i ==> s[j].0 != k,
    ensures
        i == s.len() ==> find_key(s, k) is None,
        i < s.len() && s[i].0 == k ==> find_key(s, k) == Some(s[i].1),
    decreases i,
{
    if i > 0 {
        lemma_find_key_scan(s.drop_first(), k, i - 1);
    } else if s.len() > 0 && i < s.len() {
    }
}


/// Removing the only entry keyed `k` makes `k` find nothing and changes nothing
/// else.
pub proof fn lemma_find_key_remove<V>(s: Seq<(Seq<char>, V)>, i: int, q: Seq<char>)
    requires
        0 <= i < s.len(),
        forall|a: int, b: int| 0 <= a < b < s.len() ==> #[trigger] s[a].0 != #[trigger] s[b].0,
    ensures
        find_key(s.remove(i), q) == if q == s[i].0 {
            None
        } else {
            find_key(s, q)
        },
    decreases s.len(),
{
    if i == 0 {
        assert(s.remove(0) =~= s.drop_first());
        if q == s[0].0 {
            lemma_find_key_scan(s.drop_first(), q, s.len() - 1);
        }
    } else {
        assert(s.remove(i).drop_first() =~= s.drop_first().remove(i - 1));
        assert forall|a: int, b: int| 0 <= a < b < s.drop_first().len() implies #[trigger] s.drop_first()[a].0
            != #[trigger] s.drop_first()[b].0 by {
            assert(s.drop_first()[a] == s[a + 1] && s.drop_first()[b] == s[b + 1]);
        }
        lemma_find_key_remove(s.drop_first(), i - 1, q);
        assert(s.remove(i)[0] == s[0]);
    }
}

} // verus!
