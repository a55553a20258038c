//! The mathematics of a sequence of pairs that is read as a map with an order:
//! the first component of a pair is its key.

use vstd::prelude::*;

verus! {

/// The texts of one entry: pairs of a language tag and the text in that language.
pub type VariantsView = Seq<(Seq<char>, Seq<char>)>;

/// A whole table: pairs of an entry's identifier and its texts.
pub type TableView = Seq<(Seq<char>, VariantsView)>;

/// Some pair of `rows` has the key `key`.
pub open spec fn has_key<V>(rows: Seq<(Seq<char>, V)>, key: Seq<char>) -> bool {
    exists|i: int| 0 <= i < rows.len() && (#[trigger] rows[i]).0 == key
}

/// An index at which `rows` holds `key`; the only one where the keys are unique.
pub open spec fn index_of_key<V>(rows: Seq<(Seq<char>, V)>, key: Seq<char>) -> int {
    choose|i: int| 0 <= i < rows.len() && (#[trigger] rows[i]).0 == key
}

/// No key occurs in two pairs.
pub open spec fn unique_keys<V>(rows: Seq<(Seq<char>, V)>) -> bool {
    forall|i: int, j: int|
        0 <= i < j < rows.len() ==> (#[trigger] rows[i]).0 != (#[trigger] rows[j]).0
}

/// `rows` after `value` was stored under `key`: a key that is present keeps
/// its place and gets the new value, a new key goes to the end.
pub open spec fn put<V>(rows: Seq<(Seq<char>, V)>, key: Seq<char>, value: V) -> Seq<
    (Seq<char>, V),
> {
    if has_key(rows, key) {
        rows.update(index_of_key(rows, key), (key, value))
    } else {
        rows.push((key, value))
    }
}

/// With unique keys, the index of a key is the one place where it stands.
pub proof fn lemma_index_of_key<V>(rows: Seq<(Seq<char>, V)>, i: int)
    requires
        unique_keys(rows),
        0 <= i < rows.len(),
    ensures
        has_key(rows, rows[i].0),
        index_of_key(rows, rows[i].0) == i,
{
    let key = rows[i].0;
    let c = index_of_key(rows, key);
    assert(0 <= c < rows.len() && rows[c].0 == key);
    if c < i {
        assert(rows[c].0 != rows[i].0);
    } else if i < c {
        assert(rows[i].0 != rows[c].0);
    }
}

/// Storing a value keeps the keys unique, and changes the length by at most
/// one.
pub proof fn lemma_put_unique<V>(rows: Seq<(Seq<char>, V)>, key: Seq<char>, value: V)
    requires
        unique_keys(rows),
    ensures
        unique_keys(put(rows, key, value)),
        has_key(put(rows, key, value), key),
        has_key(rows, key) ==> put(rows, key, value).len() == rows.len(),
        !has_key(rows, key) ==> put(rows, key, value).len() == rows.len() + 1,
{
    let after = put(rows, key, value);
    if has_key(rows, key) {
        let c = index_of_key(rows, key);
        assert(after[c].0 == key);
        assert forall|i: int, j: int| 0 <= i < j < after.len() implies (#[trigger] after[i]).0
                != (#[trigger] after[j]).0 by {
            assert(rows[i].0 != rows[j].0);
            if i == c {
                assert(rows[c].0 != rows[j].0);
            }
            if j == c {
                assert(rows[i].0 != rows[c].0);
            }
        }
    } else {
        assert(after[rows.len() as int].0 == key);
        assert forall|i: int, j: int| 0 <= i < j < after.len() implies (#[trigger] after[i]).0
                != (#[trigger] after[j]).0 by {
            if j < rows.len() {
                assert(rows[i].0 != rows[j].0);
            } else {
                assert(rows[i].0 != key);
            }
        }
    }
}

/// The rows that result from storing the pairs one after the other, from the
/// first to the last, in rows that were empty.
pub open spec fn stored<V>(pairs: Seq<(Seq<char>, V)>) -> Seq<(Seq<char>, V)>
    decreases pairs.len(),
{
    if pairs.len() == 0 {
        Seq::empty()
    } else {
        put(stored(pairs.drop_last()), pairs.last().0, pairs.last().1)
    }
}

/// What was stored has each key once, whatever the pairs were.
pub proof fn lemma_stored_unique_keys<V>(pairs: Seq<(Seq<char>, V)>)
    ensures
        unique_keys(stored(pairs)),
        stored(pairs).len() <= pairs.len(),
    decreases pairs.len(),
{
    if pairs.len() > 0 {
        lemma_stored_unique_keys(pairs.drop_last());
        lemma_put_unique(stored(pairs.drop_last()), pairs.last().0, pairs.last().1);
    }
}

/// Pairs whose keys are unique are stored as they are: none is dropped, none
/// changes its place.
pub proof fn lemma_stored_keeps_unique<V>(pairs: Seq<(Seq<char>, V)>)
    requires
        unique_keys(pairs),
    ensures
        stored(pairs) == pairs,
    decreases pairs.len(),
{
    if pairs.len() == 0 {
        assert(stored(pairs) =~= pairs);
    } else {
        let front = pairs.drop_last();
        assert(unique_keys(front)) by {
            assert forall|i: int, j: int| 0 <= i < j < front.len() implies (#[trigger] front[i]).0
                != (#[trigger] front[j]).0 by {
                assert(pairs[i].0 != pairs[j].0);
            }
        }
        lemma_stored_keeps_unique(front);
        assert(!has_key(front, pairs.last().0)) by {
            if has_key(front, pairs.last().0) {
                let c = index_of_key(front, pairs.last().0);
                assert(pairs[c].0 != pairs[pairs.len() - 1].0);
            }
        }
        assert(front.push(pairs.last()) =~= pairs);
    }
}

/// Every value in what was stored is the value of one of the pairs.
pub proof fn lemma_stored_values<V>(pairs: Seq<(Seq<char>, V)>, i: int)
    requires
        0 <= i < stored(pairs).len(),
    ensures
        exists|k: int| 0 <= k < pairs.len() && #[trigger] pairs[k] == stored(pairs)[i],
    decreases pairs.len(),
{
    if pairs.len() > 0 {
        let front = pairs.drop_last();
        let last = pairs.len() - 1;
        if has_key(stored(front), pairs.last().0) {
            let c = index_of_key(stored(front), pairs.last().0);
            if i == c {
                assert(pairs[last] == stored(pairs)[i]);
            } else {
                lemma_stored_values(front, i);
                let k = choose|k: int| 0 <= k < front.len() && #[trigger] front[k] == stored(front)[i];
                assert(pairs[k] == stored(pairs)[i]);
            }
        } else {
            if i == stored(front).len() {
                assert(pairs[last] == stored(pairs)[i]);
            } else {
                lemma_stored_values(front, i);
                let k = choose|k: int| 0 <= k < front.len() && #[trigger] front[k] == stored(front)[i];
                assert(pairs[k] == stored(pairs)[i]);
            }
        }
    }
}

} // verus!
