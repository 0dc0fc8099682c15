//! What holds of every pruning pass.

use vstd::prelude::*;
use crate::date::Date;
use crate::order::{count_before, first_places, lemma_places_cover, members, orders};
use crate::retention::{
    ahead, ahead_count, dates_of, doomed, doomed_marks, entry_date, files_to_delete_spec,
    files_to_keep_spec, pick, rank, expired, RetentionPolicy,
};

verus! {

/// The positions whose mark is `false`, in rising order.
pub open spec fn kept_positions(marks: Seq<bool>) -> Seq<int>
    decreases marks.len(),
{
    if marks.len() == 0 {
        Seq::empty()
    } else {
        let rest = kept_positions(marks.drop_last());
        if !marks.last() {
            rest.push(marks.len() - 1)
        } else {
            rest
        }
    }
}

proof fn lemma_kept<A>(s: Seq<A>, marks: Seq<bool>)
    requires
        s.len() == marks.len(),
    ensures
        pick(s, marks, false).len() == kept_positions(marks).len(),
        forall|k: int|
            0 <= k < kept_positions(marks).len() ==> {
                let i = #[trigger] kept_positions(marks)[k];
                0 <= i < marks.len() && !marks[i] && pick(s, marks, false)[k] == s[i]
            },
        forall|a: int, b: int|
            0 <= a < b < kept_positions(marks).len() ==> kept_positions(marks)[a]
                < kept_positions(marks)[b],
    decreases s.len(),
{
    if s.len() > 0 {
        lemma_kept(s.drop_last(), marks.drop_last());
    }
}

proof fn lemma_pick_none<A>(s: Seq<A>, marks: Seq<bool>)
    requires
        s.len() == marks.len(),
        forall|i: int| 0 <= i < marks.len() ==> !marks[i],
    ensures
        pick(s, marks, true) == Seq::<A>::empty(),
    decreases s.len(),
{
    if s.len() > 0 {
        lemma_pick_none(s.drop_last(), marks.drop_last());
    }
}

proof fn lemma_ahead_count_grows(dates: Seq<Option<Date>>, date: Date, pos: int, a: int, b: int)
    requires
        a <= b,
    ensures
        ahead_count(dates, date, pos, a) <= ahead_count(dates, date, pos, b),
    decreases b - a,
{
    if a < b {
        lemma_ahead_count_grows(dates, date, pos, a, b - 1);
    }
}

/// Taking entries away moves no entry that stays further from the front.
proof fn lemma_rank_after_removal(
    dates: Seq<Option<Date>>,
    marks: Seq<bool>,
    date: Date,
    k: int,
    m: int,
)
    requires
        dates.len() == marks.len(),
        0 <= k < kept_positions(marks).len(),
        0 <= m <= kept_positions(marks).len(),
    ensures
        ahead_count(pick(dates, marks, false), date, k, m) <= ahead_count(
            dates,
            date,
            kept_positions(marks)[k],
            if m == 0 {
                0
            } else {
                kept_positions(marks)[m - 1] + 1
            },
        ),
    decreases m,
{
    let kept = kept_positions(marks);
    let s = pick(dates, marks, false);
    lemma_kept(dates, marks);
    if m > 0 {
        lemma_rank_after_removal(dates, marks, date, k, m - 1);
        let before = if m == 1 {
            0
        } else {
            kept[m - 2] + 1
        };
        lemma_ahead_count_grows(dates, date, kept[k], before, kept[m - 1]);
        assert(s[m - 1] == dates[kept[m - 1]]);
        if ahead(s, m - 1, date, k) {
            assert(ahead(dates, kept[m - 1], date, kept[k]));
        }
    }
}

/// A second pass over what a first pass has left marks nothing.
proof fn lemma_survivors_stay(
    dates: Seq<Option<Date>>,
    today: Date,
    policy: RetentionPolicy,
    keep: Option<nat>,
    k: int,
)
    requires
        0 <= k < pick(dates, doomed_marks(dates, today, policy, keep), false).len(),
    ensures
        !doomed(
            pick(dates, doomed_marks(dates, today, policy, keep), false),
            k,
            today,
            policy,
            keep,
        ),
{
    let marks = doomed_marks(dates, today, policy, keep);
    let s = pick(dates, marks, false);
    let kept = kept_positions(marks);
    lemma_kept(dates, marks);
    let i = kept[k];
    assert(s[k] == dates[i]);
    assert(!doomed(dates, i, today, policy, keep));
    match s[k] {
        Some(d) => {
            lemma_rank_after_removal(dates, marks, d, k, s.len() as int);
            lemma_ahead_count_grows(dates, d, i, kept[s.len() - 1] + 1, dates.len() as int);
            assert(rank(s, k) <= rank(dates, i));
        },
        None => {},
    }
}

proof fn lemma_dates_of_kept(names: Seq<Seq<char>>, name: Seq<char>, marks: Seq<bool>)
    requires
        names.len() == marks.len(),
    ensures
        dates_of(pick(names, marks, false), name) == pick(dates_of(names, name), marks, false),
    decreases names.len(),
{
    let dates = dates_of(names, name);
    if names.len() > 0 {
        lemma_dates_of_kept(names.drop_last(), name, marks.drop_last());
        assert(dates.drop_last() =~= dates_of(names.drop_last(), name));
        let rest = pick(names.drop_last(), marks.drop_last(), false);
        if !marks.last() {
            assert(dates_of(rest.push(names.last()), name) =~= dates_of(rest, name).push(
                entry_date(names.last(), name),
            ));
        }
    } else {
        assert(dates_of(pick(names, marks, false), name) =~= pick(dates, marks, false));
    }
}

/// Pruning is idempotent: of the files that one pass leaves in place, a
/// second pass on the same day with the same limit and floor deletes
/// none.
pub proof fn lemma_second_pass_deletes_nothing(
    names: Seq<Seq<char>>,
    name: Seq<char>,
    today: Date,
    policy: RetentionPolicy,
    keep: Option<nat>,
)
    ensures
        files_to_delete_spec(
            files_to_keep_spec(names, name, today, policy, keep),
            name,
            today,
            policy,
            keep,
        ) == Seq::<Seq<char>>::empty(),
{
    let dates = dates_of(names, name);
    let marks = doomed_marks(dates, today, policy, keep);
    let left = files_to_keep_spec(names, name, today, policy, keep);
    lemma_dates_of_kept(names, name, marks);
    let left_dates = dates_of(left, name);
    assert(left_dates == pick(dates, marks, false));
    let again = doomed_marks(left_dates, today, policy, keep);
    assert forall|k: int| 0 <= k < again.len() implies !again[k] by {
        lemma_survivors_stay(dates, today, policy, keep, k);
    }
    lemma_pick_none(left, again);
}


/// Entry `j` comes before entry `i` among the dated entries, the most
/// recent first.
pub open spec fn comes_before(dates: Seq<Option<Date>>) -> spec_fn(int, int) -> bool {
    |j: int, i: int|
        0 <= j < dates.len() && 0 <= i < dates.len() && dates[i] is Some && ahead(
            dates,
            j,
            dates[i].unwrap(),
            i,
        )
}

/// Entry `i` has a date.
pub open spec fn is_dated(dates: Seq<Option<Date>>) -> spec_fn(int) -> bool {
    |i: int| 0 <= i < dates.len() && dates[i] is Some
}

proof fn lemma_rank_is_place(dates: Seq<Option<Date>>, i: int, upto: int)
    requires
        0 <= i < dates.len(),
        dates[i] is Some,
        0 <= upto <= dates.len(),
    ensures
        ahead_count(dates, dates[i].unwrap(), i, upto) == count_before(
            comes_before(dates),
            i,
            upto,
        ),
    decreases upto,
{
    if upto > 0 {
        lemma_rank_is_place(dates, i, upto - 1);
    }
}

/// The dated entries that a pass leaves in place where the floor alone
/// protects them.
pub open spec fn kept_by_floor(
    dates: Seq<Option<Date>>,
    today: Date,
    policy: RetentionPolicy,
    keep: nat,
) -> Set<int> {
    Set::new(
        |i: int|
            0 <= i < dates.len() && dates[i] is Some && !doomed(
                dates,
                i,
                today,
                policy,
                Some(keep),
            ),
    )
}

/// The floor holds against the age limit: where every dated entry is
/// older than the limit, exactly the `keep` most recent of them stay, or
/// all of them where there are no more than `keep`.
pub proof fn lemma_floor_keeps_most_recent(
    dates: Seq<Option<Date>>,
    today: Date,
    policy: RetentionPolicy,
    keep: nat,
)
    requires
        forall|i: int|
            0 <= i < dates.len() ==> (#[trigger] dates[i] matches Some(d) ==> expired(
                d,
                today,
                policy,
            )),
    ensures
        kept_by_floor(dates, today, policy, keep).finite(),
        kept_by_floor(dates, today, policy, keep).len() == if keep <= members(
            is_dated(dates),
            dates.len() as int,
        ).len() {
            keep
        } else {
            members(is_dated(dates), dates.len() as int).len()
        },
        forall|i: int|
            0 <= i < dates.len() && dates[i] is Some ==> (kept_by_floor(
                dates,
                today,
                policy,
                keep,
            ).contains(i) <==> rank(dates, i) < keep),
{
    let n = dates.len() as int;
    let before = comes_before(dates);
    let dom = is_dated(dates);
    assert(orders(before, dom, n));
    lemma_places_cover(before, dom, n, keep as int);
    assert forall|i: int| 0 <= i < n && dates[i] is Some implies rank(dates, i) == count_before(
        before,
        i,
        n,
    ) by {
        lemma_rank_is_place(dates, i, n);
    }
    assert(kept_by_floor(dates, today, policy, keep) =~= first_places(before, dom, n, keep as int));
}

} // verus!
