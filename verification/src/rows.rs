use vstd::prelude::*;

verus! {

/// The values of the rows that were read without error, in the order of the rows.
pub open spec fn ok_values<T, E>(rows: Seq<Result<T, E>>) -> Seq<T>
    decreases rows.len(),
{
    if rows.len() == 0 {
        Seq::empty()
    } else {
        let rest = ok_values(rows.drop_last());
        match rows.last() {
            Ok(v) => rest.push(v),
            Err(_) => rest,
        }
    }
}

/// Keeps the rows that were read without error and drops the others,
/// keeping the order of the rows.
pub fn keep_ok_rows<T, E>(rows: Vec<Result<T, E>>) -> (kept: Vec<T>)
    ensures
        kept@ == ok_values(rows@),
        kept@.len() <= rows@.len(),
        forall|i: int| 0 <= i < rows@.len() && #[trigger] rows@[i] is Ok ==> kept@.contains(rows@[i]->Ok_0),
        forall|k: int|
            0 <= k < kept@.len() ==> exists|i: int|
                0 <= i < rows@.len() && #[trigger] rows@[i] == Ok::<T, E>(#[trigger] kept@[k]),
{
    proof {
        lemma_ok_values_members(rows@);
        lemma_ok_values_len(rows@);
    }
    let ghost all = rows@;
    let total: usize = rows.len();
    let mut rows = rows;
    let mut kept: Vec<T> = Vec::new();
    let mut done: usize = 0;
    while rows.len() > 0
        invariant
            done + rows@.len() == all.len(),
            all.len() == total,
            rows@ == all.subrange(done as int, all.len() as int),
            kept@ == ok_values(all.take(done as int)),
        decreases rows@.len(),
    {
        let row = rows.remove(0);
        proof {
            assert(all.take(done + 1).drop_last() =~= all.take(done as int));
            assert(all.take(done + 1).last() == row);
        }
        match row {
            Ok(v) => kept.push(v),
            Err(_) => {},
        }
        done = done + 1;
        assert(rows@ =~= all.subrange(done as int, all.len() as int));
    }
    assert(all.take(done as int) =~= all);
    kept
}

/// Dropping unreadable rows never adds rows, and keeps every row when all of
/// them were read.
pub proof fn lemma_ok_values_len<T, E>(rows: Seq<Result<T, E>>)
    ensures
        ok_values(rows).len() <= rows.len(),
        (forall|i: int| 0 <= i < rows.len() ==> #[trigger] rows[i] is Ok) ==> ok_values(rows)
            == rows.map_values(|r: Result<T, E>| r->Ok_0),
    decreases rows.len(),
{
    if rows.len() > 0 {
        lemma_ok_values_len(rows.drop_last());
        if forall|i: int| 0 <= i < rows.len() ==> #[trigger] rows[i] is Ok {
            assert forall|i: int| 0 <= i < rows.drop_last().len() implies #[trigger] rows.drop_last()[i] is Ok by {
                assert(rows.drop_last()[i] == rows[i]);
            }
            assert(rows[rows.len() - 1] is Ok);
            assert(ok_values(rows) =~= rows.map_values(|r: Result<T, E>| r->Ok_0));
        }
    }
}

/// Reading rows in two batches keeps what reading them at once keeps: the
/// readable rows of `a + b` are those of `a` followed by those of `b`.
pub proof fn lemma_ok_values_append<T, E>(a: Seq<Result<T, E>>, b: Seq<Result<T, E>>)
    ensures
        ok_values(a + b) == ok_values(a) + ok_values(b),
    decreases b.len(),
{
    if b.len() == 0 {
        assert(a + b =~= a);
        assert(ok_values(a) + ok_values(b) =~= ok_values(a));
    } else {
        lemma_ok_values_append(a, b.drop_last());
        assert((a + b).drop_last() =~= a + b.drop_last());
        assert((a + b).last() == b.last());
        match b.last() {
            Ok(v) => {
                assert(ok_values(a) + ok_values(b) =~= (ok_values(a) + ok_values(b.drop_last())).push(v));
            },
            Err(_) => {},
        }
    }
}

/// A readable row is kept as its value; an unreadable one is dropped.
pub proof fn lemma_ok_values_single<T, E>(v: T, e: E)
    ensures
        ok_values(seq![Ok::<T, E>(v)]) == seq![v],
        ok_values(seq![Err::<T, E>(e)]) == Seq::<T>::empty(),
{
    let s1 = seq![Ok::<T, E>(v)];
    let s2 = seq![Err::<T, E>(e)];
    assert(s1.drop_last() =~= Seq::<Result<T, E>>::empty());
    assert(s2.drop_last() =~= Seq::<Result<T, E>>::empty());
    assert(ok_values(Seq::<Result<T, E>>::empty()) == Seq::<T>::empty());
    assert(s1.last() == Ok::<T, E>(v));
    assert(s2.last() == Err::<T, E>(e));
    assert(ok_values(s1) == ok_values(s1.drop_last()).push(v));
    assert(Seq::<T>::empty().push(v) =~= seq![v]);
}

/// An unreadable row, wherever it stands, changes nothing about the rows kept:
/// dropping it before or between other rows keeps the same values.
pub proof fn lemma_unreadable_row_dropped<T, E>(before: Seq<Result<T, E>>, e: E, after: Seq<Result<T, E>>)
    ensures
        ok_values(before + seq![Err::<T, E>(e)] + after) == ok_values(before + after),
        ok_values(seq![Err::<T, E>(e)] + after) == ok_values(after),
{
    lemma_ok_values_append(before + seq![Err::<T, E>(e)], after);
    lemma_ok_values_append(before, seq![Err::<T, E>(e)]);
    lemma_ok_values_append(before, after);
    lemma_ok_values_append(seq![Err::<T, E>(e)], after);
    lemma_ok_values_single(arbitrary::<T>(), e);
    assert(ok_values(before) + Seq::<T>::empty() =~= ok_values(before));
    assert(Seq::<T>::empty() + ok_values(after) =~= ok_values(after));
}

/// Every readable row is kept, and every kept value comes from a readable row.
pub proof fn lemma_ok_values_members<T, E>(rows: Seq<Result<T, E>>)
    ensures
        forall|i: int| 0 <= i < rows.len() && #[trigger] rows[i] is Ok ==> ok_values(rows).contains(rows[i]->Ok_0),
        forall|k: int|
            0 <= k < ok_values(rows).len() ==> exists|i: int|
                0 <= i < rows.len() && #[trigger] rows[i] == Ok::<T, E>(#[trigger] ok_values(rows)[k]),
    decreases rows.len(),
{
    if rows.len() > 0 {
        let r = rows.drop_last();
        lemma_ok_values_members(r);
        assert forall|i: int| 0 <= i < rows.len() && #[trigger] rows[i] is Ok implies ok_values(rows).contains(
            rows[i]->Ok_0,
        ) by {
            if i < rows.len() - 1 {
                assert(r[i] == rows[i]);
                let k = choose|k: int| 0 <= k < ok_values(r).len() && ok_values(r)[k] == r[i]->Ok_0;
                assert(ok_values(rows)[k] == ok_values(r)[k]);
            } else {
                assert(ok_values(rows).last() == rows[i]->Ok_0);
            }
        }
        assert forall|k: int| 0 <= k < ok_values(rows).len() implies exists|i: int|
            0 <= i < rows.len() && #[trigger] rows[i] == Ok::<T, E>(#[trigger] ok_values(rows)[k]) by {
            if k < ok_values(r).len() {
                assert(ok_values(rows)[k] == ok_values(r)[k]);
                let i = choose|i: int| 0 <= i < r.len() && #[trigger] r[i] == Ok::<T, E>(ok_values(r)[k]);
                assert(rows[i] == r[i]);
            } else {
                assert(rows[rows.len() - 1] == Ok::<T, E>(ok_values(rows)[k]));
            }
        }
    }
}

/// Whether a count of teams with some name means that such a team exists.
pub fn team_exists(count: u64) -> (exists: bool)
    ensures
        exists == (count != 0),
{
    count != 0
}

/// Whether a lookup found a row.
pub fn row_found<T>(row: &Option<T>) -> (found: bool)
    ensures
        found == row is Some,
{
    row.is_some()
}

} // verus!
