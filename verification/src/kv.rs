use vstd::prelude::*;

verus! {

/// Spec-level model shared by the keyed stores: a sequence of
/// key/value entries viewed as a finite map.  The stores keep their
/// keys unique, so the map loses nothing.
pub open spec fn entries_to_map<V>(s: Seq<(Seq<char>, V)>) -> Map<Seq<char>, V>
    decreases s.len(),
{
    if s.len() == 0 {
        Map::empty()
    } else {
        entries_to_map(s.drop_last()).insert(s.last().0, s.last().1)
    }
}

/// No two entries share a key.
pub open spec fn keys_unique<V>(s: Seq<(Seq<char>, V)>) -> bool {
    forall|i: int, j: int| 0 <= i < j < s.len() ==> s[i].0 != s[j].0
}

/// A key that no entry carries is absent from the map.
pub proof fn lemma_absent_key<V>(s: Seq<(Seq<char>, V)>, k: Seq<char>)
    requires
        forall|i: int| 0 <= i < s.len() ==> s[i].0 != k,
    ensures
        !entries_to_map(s).contains_key(k),
    decreases s.len(),
{
    if s.len() > 0 {
        lemma_absent_key(s.drop_last(), k);
    }
}

/// An entry's key is in the map, bound to that entry's value, as long
/// as the keys are unique.
pub proof fn lemma_present_key<V>(s: Seq<(Seq<char>, V)>, i: int)
    requires
        keys_unique(s),
        0 <= i < s.len(),
    ensures
        entries_to_map(s).contains_key(s[i].0),
        entries_to_map(s)[s[i].0] == s[i].1,
    decreases s.len(),
{
    if i < s.len() - 1 {
        lemma_present_key(s.drop_last(), i);
    }
}

/// Appending an entry with a fresh key inserts it into the map.
pub proof fn lemma_push_entry<V>(s: Seq<(Seq<char>, V)>, k: Seq<char>, v: V)
    ensures
        entries_to_map(s.push((k, v))) == entries_to_map(s).insert(k, v),
{
    assert(s.push((k, v)).drop_last() =~= s);
}

/// Removing an entry keeps the remaining keys unique.
pub proof fn lemma_remove_keeps_unique<V>(s: Seq<(Seq<char>, V)>, i: int)
    requires
        keys_unique(s),
        0 <= i < s.len(),
    ensures
        keys_unique(s.remove(i)),
{
    s.remove_ensures(i);
    assert forall|a: int, b: int|
        0 <= a < b < s.remove(i).len() implies s.remove(i)[a].0 != s.remove(i)[b].0 by {
        let a0 = if a < i { a } else { a + 1 };
        let b0 = if b < i { b } else { b + 1 };
        assert(s.remove(i)[a] == s[a0]);
        assert(s.remove(i)[b] == s[b0]);
    }
}

/// Removing the entry that carries a key removes that key from the
/// map, as long as the keys are unique.
pub proof fn lemma_remove_entry<V>(s: Seq<(Seq<char>, V)>, i: int)
    requires
        keys_unique(s),
        0 <= i < s.len(),
    ensures
        entries_to_map(s.remove(i)) =~= entries_to_map(s).remove(s[i].0),
    decreases s.len(),
{
    let k = s[i].0;
    if i == s.len() - 1 {
        assert(s.remove(i) =~= s.drop_last());
        assert(forall|j: int| 0 <= j < s.drop_last().len() ==> s.drop_last()[j].0 != k);
        lemma_absent_key(s.drop_last(), k);
        assert(entries_to_map(s.drop_last()).insert(k, s[i].1).remove(k)
            =~= entries_to_map(s.drop_last()));
    } else {
        lemma_remove_entry(s.drop_last(), i);
        assert(s.remove(i).drop_last() =~= s.drop_last().remove(i));
        assert(s.remove(i).last() == s.last());
        assert(entries_to_map(s.remove(i))
            == entries_to_map(s.drop_last().remove(i)).insert(s.last().0, s.last().1));
        assert(s.last().0 != k);
        assert(entries_to_map(s.drop_last()).remove(k).insert(s.last().0, s.last().1)
            =~= entries_to_map(s.drop_last()).insert(s.last().0, s.last().1).remove(k));
    }
}

} // verus!
