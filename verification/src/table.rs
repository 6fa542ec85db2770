//! Rows that are found by a textual key, and the map that they stand for.

use vstd::prelude::*;

verus! {

/// A row with a key.
pub trait Keyed: View {
    spec fn key(&self) -> Seq<char>;
}

/// Whether some row has the key.
pub open spec fn holds_key<T: Keyed>(rows: Seq<T>, key: Seq<char>) -> bool {
    exists|i: int| 0 <= i < rows.len() && #[trigger] rows[i].key() == key
}

/// The place of a row with the key, where there is one.
pub open spec fn index_of<T: Keyed>(rows: Seq<T>, key: Seq<char>) -> int {
    choose|i: int| 0 <= i < rows.len() && #[trigger] rows[i].key() == key
}

/// Whether no key occurs in two rows.
pub open spec fn distinct_keys<T: Keyed>(rows: Seq<T>) -> bool {
    forall|i: int, j: int|
        0 <= i < j < rows.len() ==> #[trigger] rows[i].key() != #[trigger] rows[j].key()
}

/// The map from each key among the rows to the view of its row.
pub open spec fn as_map<T: Keyed>(rows: Seq<T>) -> Map<Seq<char>, T::V> {
    Map::new(|k: Seq<char>| holds_key(rows, k), |k: Seq<char>| rows[index_of(rows, k)]@)
}

/// Each row is found under its own key.
pub proof fn lemma_row_in_map<T: Keyed>(rows: Seq<T>, i: int)
    requires
        distinct_keys(rows),
        0 <= i < rows.len(),
    ensures
        as_map(rows).contains_key(rows[i].key()),
        as_map(rows)[rows[i].key()] == rows[i]@,
        index_of(rows, rows[i].key()) == i,
{
    let k = rows[i].key();
    assert(holds_key(rows, k));
    let j = index_of(rows, k);
    assert(0 <= j < rows.len() && rows[j].key() == k);
    if j < i {
        assert(rows[j].key() != rows[i].key());
    } else if i < j {
        assert(rows[i].key() != rows[j].key());
    }
}

/// A new row under a fresh key adds one entry to the map.
pub proof fn lemma_push_row<T: Keyed>(rows: Seq<T>, row: T)
    requires
        distinct_keys(rows),
        !holds_key(rows, row.key()),
    ensures
        distinct_keys(rows.push(row)),
        as_map(rows.push(row)) == as_map(rows).insert(row.key(), row@),
{
    let longer = rows.push(row);
    assert forall|i: int, j: int| 0 <= i < j < longer.len() implies #[trigger] longer[i].key()
        != #[trigger] longer[j].key() by {
        if j < rows.len() {
            assert(rows[i].key() != rows[j].key());
        } else {
            assert(rows[i].key() == longer[i].key());
        }
    }
    let left = as_map(longer);
    let right = as_map(rows).insert(row.key(), row@);
    assert forall|k: Seq<char>| left.contains_key(k) <==> right.contains_key(k) by {
        if holds_key(longer, k) {
            let i = index_of(longer, k);
            if i < rows.len() {
                assert(rows[i].key() == k);
            }
        }
        if holds_key(rows, k) {
            let i = index_of(rows, k);
            assert(longer[i].key() == k);
        }
        if k == row.key() {
            assert(longer[rows.len() as int].key() == k);
        }
    }
    assert forall|k: Seq<char>| left.contains_key(k) implies left[k] == right[k] by {
        let i = index_of(longer, k);
        lemma_row_in_map(longer, i);
        if i < rows.len() {
            assert(rows[i].key() == k);
            lemma_row_in_map(rows, i);
        }
    }
    assert(left =~= right);
}

/// Taking a row out takes its entry out of the map.
pub proof fn lemma_remove_row<T: Keyed>(rows: Seq<T>, at: int)
    requires
        distinct_keys(rows),
        0 <= at < rows.len(),
    ensures
        distinct_keys(rows.remove(at)),
        as_map(rows.remove(at)) == as_map(rows).remove(rows[at].key()),
{
    let shorter = rows.remove(at);
    let origin = |i: int| if i < at { i } else { i + 1 };
    assert forall|i: int| 0 <= i < shorter.len() implies shorter[i] == rows[origin(i)] by {}
    assert forall|i: int, j: int| 0 <= i < j < shorter.len() implies #[trigger] shorter[i].key()
        != #[trigger] shorter[j].key() by {
        assert(rows[origin(i)].key() != rows[origin(j)].key());
    }
    let left = as_map(shorter);
    let right = as_map(rows).remove(rows[at].key());
    assert forall|k: Seq<char>| left.contains_key(k) <==> right.contains_key(k) by {
        if holds_key(shorter, k) {
            let i = index_of(shorter, k);
            let o = origin(i);
            assert(rows[o].key() == k);
            if o < at {
                assert(rows[o].key() != rows[at].key());
            } else {
                assert(rows[at].key() != rows[o].key());
            }
        }
        if holds_key(rows, k) && k != rows[at].key() {
            let o = index_of(rows, k);
            let i = if o < at { o } else { o - 1 };
            assert(shorter[i].key() == k);
        }
    }
    assert forall|k: Seq<char>| left.contains_key(k) implies left[k] == right[k] by {
        let i = index_of(shorter, k);
        lemma_row_in_map(shorter, i);
        lemma_row_in_map(rows, origin(i));
    }
    assert(left =~= right);
}

/// Putting a row in the place of one with the same key replaces its entry.
pub proof fn lemma_replace_row<T: Keyed>(rows: Seq<T>, at: int, row: T)
    requires
        distinct_keys(rows),
        0 <= at < rows.len(),
        rows[at].key() == row.key(),
    ensures
        distinct_keys(rows.update(at, row)),
        as_map(rows.update(at, row)) == as_map(rows).insert(row.key(), row@),
{
    let changed = rows.update(at, row);
    assert forall|i: int| 0 <= i < rows.len() implies #[trigger] changed[i].key()
        == rows[i].key() by {}
    assert forall|i: int, j: int| 0 <= i < j < changed.len() implies #[trigger] changed[i].key()
        != #[trigger] changed[j].key() by {
        assert(rows[i].key() != rows[j].key());
    }
    let left = as_map(changed);
    let right = as_map(rows).insert(row.key(), row@);
    assert forall|k: Seq<char>| left.contains_key(k) <==> right.contains_key(k) by {
        if holds_key(changed, k) {
            let i = index_of(changed, k);
            assert(rows[i].key() == k);
        }
        if holds_key(rows, k) {
            let i = index_of(rows, k);
            assert(changed[i].key() == k);
        }
        if k == row.key() {
            assert(changed[at].key() == k);
        }
    }
    assert forall|k: Seq<char>| left.contains_key(k) implies left[k] == right[k] by {
        let i = index_of(changed, k);
        lemma_row_in_map(changed, i);
        lemma_row_in_map(rows, i);
    }
    assert(left =~= right);
}

/// The entries of a map whose values pass a test.
pub open spec fn kept<V>(entries: Map<Seq<char>, V>, keep: spec_fn(V) -> bool) -> Map<
    Seq<char>,
    V,
> {
    Map::new(|k: Seq<char>| entries.contains_key(k) && keep(entries[k]), |k: Seq<char>| entries[k])
}

/// Taking out a row that fails the test changes nothing among the entries that pass.
pub proof fn lemma_remove_failing_row<T: Keyed>(rows: Seq<T>, at: int, keep: spec_fn(T::V) -> bool)
    requires
        distinct_keys(rows),
        0 <= at < rows.len(),
        !keep(rows[at]@),
    ensures
        distinct_keys(rows.remove(at)),
        kept(as_map(rows.remove(at)), keep) == kept(as_map(rows), keep),
{
    lemma_remove_row(rows, at);
    lemma_row_in_map(rows, at);
    assert(kept(as_map(rows).remove(rows[at].key()), keep) =~= kept(as_map(rows), keep));
}

/// Where every row passes the test, every entry does.
pub proof fn lemma_all_rows_kept<T: Keyed>(rows: Seq<T>, keep: spec_fn(T::V) -> bool)
    requires
        distinct_keys(rows),
        forall|i: int| 0 <= i < rows.len() ==> keep(#[trigger] rows[i]@),
    ensures
        kept(as_map(rows), keep) == as_map(rows),
{
    assert forall|k: Seq<char>| as_map(rows).contains_key(k) implies keep(as_map(rows)[k]) by {
        let i = index_of(rows, k);
        assert(keep(rows[i]@));
    }
    assert(kept(as_map(rows), keep) =~= as_map(rows));
}

} // verus!
