use vstd::prelude::*;
use vstd::multiset::Multiset;

use crate::models::TransactionModel;

verus! {

/// The day order of two records: days ascending, and a record without a day
/// comes after every record that has one.
pub open spec fn day_le(a: Option<u8>, b: Option<u8>) -> bool {
    match (a, b) {
        (Some(x), Some(y)) => x <= y,
        (Some(_), None) => true,
        (None, Some(_)) => false,
        (None, None) => true,
    }
}

fn day_le_exec(a: Option<u8>, b: Option<u8>) -> (r: bool)
    ensures
        r == day_le(a, b),
{
    match (a, b) {
        (Some(x), Some(y)) => x <= y,
        (Some(_), None) => true,
        (None, Some(_)) => false,
        (None, None) => true,
    }
}

/// Where a later record lands among already sorted earlier ones: after every
/// record whose day is less than or equal to its own, before the rest.
pub open spec fn insert_by_day(t: TransactionModel, s: Seq<TransactionModel>) -> Seq<
    TransactionModel,
>
    decreases s.len(),
{
    if s.len() == 0 {
        seq![t]
    } else if day_le(s[0].day, t.day) {
        seq![s[0]] + insert_by_day(t, s.drop_first())
    } else {
        seq![t] + s
    }
}

/// The stable day sort: records are taken in their given order and each is
/// placed after all earlier records whose day is less than or equal to its
/// own, so records sharing a day keep their relative order.
pub open spec fn sort_by_day(s: Seq<TransactionModel>) -> Seq<TransactionModel>
    decreases s.len(),
{
    if s.len() == 0 {
        Seq::empty()
    } else {
        insert_by_day(s.last(), sort_by_day(s.drop_last()))
    }
}

/// Whether a sequence is ordered by the day order.
pub open spec fn sorted_by_day(s: Seq<TransactionModel>) -> bool {
    forall|i: int, j: int| 0 <= i < j < s.len() ==> day_le(#[trigger] s[i].day, #[trigger] s[j].day)
}

/// The predicate holding the records of one particular day.
pub open spec fn day_pred(d: Option<u8>) -> spec_fn(TransactionModel) -> bool {
    |x: TransactionModel| x.day == d
}

proof fn lemma_insert_by_day_sorted(t: TransactionModel, s: Seq<TransactionModel>)
    requires
        sorted_by_day(s),
    ensures
        sorted_by_day(insert_by_day(t, s)),
        insert_by_day(t, s).len() == s.len() + 1,
        forall|x: TransactionModel|
            #[trigger] insert_by_day(t, s).contains(x) ==> (x == t || s.contains(x)),
    decreases s.len(),
{
    let r = insert_by_day(t, s);
    if s.len() == 0 {
        assert(forall|x: TransactionModel| r.contains(x) ==> x == t);
    } else if day_le(s[0].day, t.day) {
        let d = s.drop_first();
        assert(sorted_by_day(d)) by {
            assert(forall|i: int| 0 <= i < d.len() ==> #[trigger] d[i] == s[i + 1]);
        }
        lemma_insert_by_day_sorted(t, d);
        let ri = insert_by_day(t, d);
        assert(r == seq![s[0]] + ri);
        assert(r[0] == s[0]);
        assert(forall|j: int| 0 <= j < ri.len() ==> #[trigger] r[j + 1] == ri[j]);
        assert forall|j: int| 1 <= j < r.len() implies day_le(r[0].day, r[j].day) by {
            assert(ri.contains(r[j])) by {
                assert(r[j] == ri[j - 1]);
            }
            if r[j] == t {
            } else {
                assert(d.contains(r[j]));
                let k = choose|k: int| 0 <= k < d.len() && d[k] == r[j];
                assert(s[k + 1] == r[j]);
                assert(day_le(s[0].day, s[k + 1].day));
            }
        }
        assert forall|i: int, j: int| 0 <= i < j < r.len() implies day_le(
            r[i].day,
            r[j].day,
        ) by {
            if i >= 1 {
                assert(r[i] == ri[i - 1] && r[j] == ri[j - 1]);
            }
        }
        assert forall|x: TransactionModel| #[trigger] r.contains(x) implies (x == t
            || s.contains(x)) by {
            let j = choose|j: int| 0 <= j < r.len() && r[j] == x;
            if j == 0 {
                assert(s.contains(x)) by {
                    assert(s[0] == x);
                }
            } else {
                assert(ri.contains(x)) by {
                    assert(ri[j - 1] == x);
                }
                if x != t {
                    assert(d.contains(x));
                    let k = choose|k: int| 0 <= k < d.len() && d[k] == x;
                    assert(s[k + 1] == x);
                }
            }
        }
    } else {
        assert(r == seq![t] + s);
        assert(day_le(t.day, s[0].day));
        assert forall|i: int, j: int| 0 <= i < j < r.len() implies day_le(
            r[i].day,
            r[j].day,
        ) by {
            if i == 0 {
                assert(r[j] == s[j - 1]);
                if j - 1 > 0 {
                    assert(day_le(s[0].day, s[j - 1].day));
                }
            } else {
                assert(r[i] == s[i - 1] && r[j] == s[j - 1]);
            }
        }
        assert forall|x: TransactionModel| #[trigger] r.contains(x) implies (x == t
            || s.contains(x)) by {
            let j = choose|j: int| 0 <= j < r.len() && r[j] == x;
            if j > 0 {
                assert(s[j - 1] == x);
            }
        }
    }
}

proof fn lemma_insert_by_day_multiset(t: TransactionModel, s: Seq<TransactionModel>)
    ensures
        insert_by_day(t, s).to_multiset() =~= s.to_multiset().insert(t),
    decreases s.len(),
{
    broadcast use vstd::seq_lib::group_seq_properties;

    let r = insert_by_day(t, s);
    if s.len() == 0 {
        assert(seq![t] =~= Seq::<TransactionModel>::empty().push(t));
        vstd::seq_lib::to_multiset_build(Seq::<TransactionModel>::empty(), t);
        assert(s.to_multiset() =~= Multiset::<TransactionModel>::empty());
    } else if day_le(s[0].day, t.day) {
        let d = s.drop_first();
        lemma_insert_by_day_multiset(t, d);
        vstd::seq_lib::lemma_multiset_commutative(seq![s[0]], insert_by_day(t, d));
        vstd::seq_lib::lemma_multiset_commutative(seq![s[0]], d);
        assert(s =~= seq![s[0]] + d);
    } else {
        vstd::seq_lib::lemma_multiset_commutative(seq![t], s);
        assert(seq![t].to_multiset() =~= Multiset::<TransactionModel>::empty().insert(t)) by {
            assert(seq![t] =~= Seq::<TransactionModel>::empty().push(t));
            vstd::seq_lib::to_multiset_build(Seq::<TransactionModel>::empty(), t);
        }
    }
}

proof fn lemma_insert_by_day_filter(t: TransactionModel, s: Seq<TransactionModel>, d: Option<u8>)
    requires
        sorted_by_day(s),
    ensures
        insert_by_day(t, s).filter(day_pred(d)) == if t.day == d {
            s.filter(day_pred(d)).push(t)
        } else {
            s.filter(day_pred(d))
        },
    decreases s.len(),
{
    let p = day_pred(d);
    let r = insert_by_day(t, s);
    if s.len() == 0 {
        assert(seq![t] =~= Seq::<TransactionModel>::empty().push(t));
        Seq::<TransactionModel>::empty().lemma_filter_push(t, p);
        assert(Seq::<TransactionModel>::empty().filter(p) =~= Seq::<
            TransactionModel,
        >::empty()) by {
            reveal(Seq::filter);
        }
        assert(s.filter(p) =~= Seq::<TransactionModel>::empty()) by {
            reveal(Seq::filter);
        }
    } else if day_le(s[0].day, t.day) {
        let rest = s.drop_first();
        assert(sorted_by_day(rest)) by {
            assert(forall|i: int| 0 <= i < rest.len() ==> #[trigger] rest[i] == s[i + 1]);
        }
        lemma_insert_by_day_filter(t, rest, d);
        Seq::<TransactionModel>::filter_distributes_over_add(
            seq![s[0]],
            insert_by_day(t, rest),
            p,
        );
        Seq::<TransactionModel>::filter_distributes_over_add(seq![s[0]], rest, p);
        assert(s =~= seq![s[0]] + rest);
        if t.day == d {
            assert(seq![s[0]].filter(p) + rest.filter(p).push(t) =~= (seq![s[0]].filter(p)
                + rest.filter(p)).push(t));
        }
    } else {
        assert(r == seq![t] + s);
        Seq::<TransactionModel>::filter_distributes_over_add(seq![t], s, p);
        if t.day == d {
            // every record of s has a strictly later day slot than t, so none
            // shares t's day
            assert forall|i: int| 0 <= i < s.len() implies !p(#[trigger] s[i]) by {
                if i > 0 {
                    assert(day_le(s[0].day, s[i].day));
                }
                if s[i].day == t.day {
                    assert(day_le(s[0].day, t.day));
                }
            }
            assert(s.all(|x: TransactionModel| !p(x))) by {
                reveal(Seq::all);
                assert(forall|i: int| 0 <= i < s.len() ==> !p(#[trigger] s[i]));
            }
            s.lemma_all_neg_filter_empty(p);
            assert(seq![t].filter(p) =~= seq![t]) by {
                assert(seq![t] =~= Seq::<TransactionModel>::empty().push(t));
                Seq::<TransactionModel>::empty().lemma_filter_push(t, p);
                assert(Seq::<TransactionModel>::empty().filter(p) =~= Seq::<
                    TransactionModel,
                >::empty()) by {
                    reveal(Seq::filter);
                }
            }
            assert(r.filter(p) =~= s.filter(p).push(t));
        } else {
            assert(seq![t].filter(p) =~= Seq::<TransactionModel>::empty()) by {
                assert(seq![t] =~= Seq::<TransactionModel>::empty().push(t));
                Seq::<TransactionModel>::empty().lemma_filter_push(t, p);
                assert(Seq::<TransactionModel>::empty().filter(p) =~= Seq::<
                    TransactionModel,
                >::empty()) by {
                    reveal(Seq::filter);
                }
            }
            assert(r.filter(p) =~= s.filter(p));
        }
    }
}

/// The day sort leaves a sequence ordered by the day order, and of the same
/// length.
pub proof fn lemma_sort_by_day_sorted(s: Seq<TransactionModel>)
    ensures
        sorted_by_day(sort_by_day(s)),
        sort_by_day(s).len() == s.len(),
    decreases s.len(),
{
    if s.len() > 0 {
        lemma_sort_by_day_sorted(s.drop_last());
        lemma_insert_by_day_sorted(s.last(), sort_by_day(s.drop_last()));
    }
}

/// The day sort is a permutation: it neither loses, adds nor duplicates a
/// record.
pub proof fn lemma_sort_by_day_permutes(s: Seq<TransactionModel>)
    ensures
        sort_by_day(s).to_multiset() =~= s.to_multiset(),
    decreases s.len(),
{
    broadcast use vstd::seq_lib::group_seq_properties;

    if s.len() > 0 {
        lemma_sort_by_day_permutes(s.drop_last());
        lemma_insert_by_day_multiset(s.last(), sort_by_day(s.drop_last()));
        vstd::seq_lib::to_multiset_build(s.drop_last(), s.last());
        assert(s.drop_last().push(s.last()) =~= s);
    }
}

/// The day sort is stable: for every day slot, the records of that slot come
/// out in the order they went in.
pub proof fn lemma_sort_by_day_stable(s: Seq<TransactionModel>, d: Option<u8>)
    ensures
        sort_by_day(s).filter(day_pred(d)) == s.filter(day_pred(d)),
    decreases s.len(),
{
    let p = day_pred(d);
    if s.len() == 0 {
        assert(sort_by_day(s) =~= s);
    } else {
        let rest = s.drop_last();
        let t = s.last();
        lemma_sort_by_day_stable(rest, d);
        lemma_sort_by_day_sorted(rest);
        lemma_insert_by_day_filter(t, sort_by_day(rest), d);
        rest.lemma_filter_push(t, p);
        assert(rest.push(t) =~= s);
    }
}

fn insert_sorted(out: &mut Vec<TransactionModel>, t: TransactionModel)
    ensures
        final(out)@ == insert_by_day(t, old(out)@),
{
    let ghost s = out@;
    let mut pos: usize = 0;
    while pos < out.len() && day_le_exec(out[pos].day, t.day)
        invariant
            s == out@,
            pos <= out.len(),
            forall|k: int| 0 <= k < pos ==> day_le(#[trigger] s[k].day, t.day),
        decreases out.len() - pos,
    {
        pos += 1;
    }
    out.insert(pos, t);
    proof {
        lemma_insert_by_day_at_pos(t, s, pos as int);
        assert(s.insert(pos as int, t) =~= s.subrange(0, pos as int) + seq![t] + s.subrange(
            pos as int,
            s.len() as int,
        ));
    }
}

proof fn lemma_insert_by_day_at_pos(t: TransactionModel, s: Seq<TransactionModel>, pos: int)
    requires
        0 <= pos <= s.len(),
        forall|k: int| 0 <= k < pos ==> day_le(#[trigger] s[k].day, t.day),
        pos < s.len() ==> !day_le(s[pos].day, t.day),
    ensures
        insert_by_day(t, s) == s.subrange(0, pos) + seq![t] + s.subrange(pos, s.len() as int),
    decreases pos,
{
    if pos == 0 {
        if s.len() == 0 {
            assert(insert_by_day(t, s) =~= s.subrange(0, 0) + seq![t] + s.subrange(
                0,
                s.len() as int,
            ));
        } else {
            assert(!day_le(s[0].day, t.day));
            assert(insert_by_day(t, s) == seq![t] + s);
            assert(seq![t] + s =~= s.subrange(0, 0) + seq![t] + s.subrange(0, s.len() as int));
        }
    } else {
        assert(day_le(s[0].day, t.day));
        let rest = s.drop_first();
        assert(forall|k: int| 0 <= k < rest.len() ==> #[trigger] rest[k] == s[k + 1]);
        lemma_insert_by_day_at_pos(t, rest, pos - 1);
        assert(insert_by_day(t, s) == seq![s[0]] + insert_by_day(t, rest));
        assert(seq![s[0]] + (rest.subrange(0, pos - 1) + seq![t] + rest.subrange(
            pos - 1,
            rest.len() as int,
        )) =~= s.subrange(0, pos) + seq![t] + s.subrange(pos, s.len() as int));
    }
}

/// Orders the records of one category table by ascending day, records without
/// a day after all the rest, records of equal standing kept in their given
/// order.
pub fn sort(transactions: &mut Vec<TransactionModel>)
    ensures
        final(transactions)@ == sort_by_day(old(transactions)@),
{
    let ghost input = transactions@;
    let mut out: Vec<TransactionModel> = Vec::new();
    let ghost mut k: int = 0;
    while transactions.len() > 0
        invariant
            0 <= k <= input.len(),
            transactions@ == input.subrange(k, input.len() as int),
            out@ == sort_by_day(input.subrange(0, k)),
        decreases transactions.len(),
    {
        let ghost before = transactions@;
        let t = transactions.remove(0);
        proof {
            assert(t == before[0]);
            assert(before[0] == input[k]);
            assert(transactions@ =~= input.subrange(k + 1, input.len() as int));
        }
        insert_sorted(&mut out, t);
        proof {
            let prefix = input.subrange(0, k);
            let next = input.subrange(0, k + 1);
            assert(next.drop_last() =~= prefix);
            assert(next.last() == input[k]);
            assert(out@ == insert_by_day(input[k], sort_by_day(prefix)));
            assert(sort_by_day(next) == insert_by_day(next.last(), sort_by_day(next.drop_last())));
            k = k + 1;
        }
    }
    proof {
        assert(input.subrange(0, k) =~= input);
    }
    *transactions = out;
}

} // verus!
