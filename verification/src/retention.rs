//! Pruning of old backups: which files of a directory listing are to be
//! deleted under an age limit and a floor of backups that are always
//! kept.

use vstd::prelude::*;
use crate::date::Date;
use crate::naming::{embedded_date, embedded_date_spec};
use crate::text::{all_digits, capped_value, chars_of, has_prefix, read_decimal, views};

verus! {

/// Unit of an age limit.
#[derive(Clone, Copy, Debug, PartialEq, Eq, Structural)]
pub enum RetentionUnit {
    Days,
    Weeks,
    Months,
}

/// An age limit: backups older than `amount` units may be deleted.
#[derive(Clone, Copy, Debug, PartialEq, Eq, Structural)]
pub struct RetentionPolicy {
    pub amount: u64,
    pub unit: RetentionUnit,
}

/// Why a text is no age limit.
#[derive(Clone, Copy, Debug, PartialEq, Eq, Structural)]
pub enum PolicyError {
    /// The text is empty.
    Empty,
    /// The last character is none of `d`, `w`, `m`.
    InvalidUnit,
    /// What stands before the unit is not a run of one or more digits.
    InvalidAmount,
}

/// The unit that a character stands for.
pub open spec fn unit_of(c: char) -> Option<RetentionUnit> {
    if c == 'd' {
        Some(RetentionUnit::Days)
    } else if c == 'w' {
        Some(RetentionUnit::Weeks)
    } else if c == 'm' {
        Some(RetentionUnit::Months)
    } else {
        None
    }
}

/// Texts of the form digits, then one of `d`, `w`, `m`.
pub open spec fn is_policy_text(s: Seq<char>) -> bool {
    s.len() >= 2 && all_digits(s.drop_last()) && unit_of(s.last()) is Some
}

/// The age limit that a text of that form denotes. An amount beyond
/// `u64::MAX` is held as `u64::MAX`.
pub open spec fn policy_of(s: Seq<char>) -> RetentionPolicy {
    RetentionPolicy { amount: capped_value(s.drop_last()), unit: unit_of(s.last()).unwrap() }
}

/// What parsing a text as an age limit gives.
pub open spec fn parse_policy_spec(s: Seq<char>) -> Result<RetentionPolicy, PolicyError> {
    if s.len() == 0 {
        Err(PolicyError::Empty)
    } else if unit_of(s.last()) is None {
        Err(PolicyError::InvalidUnit)
    } else if s.len() == 1 || !all_digits(s.drop_last()) {
        Err(PolicyError::InvalidAmount)
    } else {
        Ok(policy_of(s))
    }
}

impl RetentionUnit {
    /// Days in one unit: a week has 7, a month counts as 30.
    pub open spec fn days_spec(self) -> int {
        match self {
            RetentionUnit::Days => 1,
            RetentionUnit::Weeks => 7,
            RetentionUnit::Months => 30,
        }
    }

    /// Days in one unit: a week has 7, a month counts as 30.
    pub fn days(&self) -> (n: u64)
        ensures
            n == self.days_spec(),
    {
        match self {
            RetentionUnit::Days => 1,
            RetentionUnit::Weeks => 7,
            RetentionUnit::Months => 30,
        }
    }
}

impl RetentionPolicy {
    /// The age in days beyond which a backup may be deleted.
    pub open spec fn threshold_days(self) -> int {
        self.amount * self.unit.days_spec()
    }

    /// Reads an age limit such as `7d`, `2w` or `1m`.
    pub fn parse(input: &str) -> (r: Result<RetentionPolicy, PolicyError>)
        ensures
            r == parse_policy_spec(input@),
            r is Ok <==> is_policy_text(input@),
    {
        let v = chars_of(input);
        if v.len() == 0 {
            return Err(PolicyError::Empty);
        }
        let last = v[v.len() - 1];
        let unit = if last == 'd' {
            RetentionUnit::Days
        } else if last == 'w' {
            RetentionUnit::Weeks
        } else if last == 'm' {
            RetentionUnit::Months
        } else {
            return Err(PolicyError::InvalidUnit);
        };
        if v.len() == 1 {
            return Err(PolicyError::InvalidAmount);
        }
        assert(v@.subrange(0, v.len() - 1) =~= v@.drop_last());
        match read_decimal(&v, 0, v.len() - 1) {
            Some(amount) => Ok(RetentionPolicy { amount, unit }),
            None => Err(PolicyError::InvalidAmount),
        }
    }

    /// Whether a backup made on `date` is older than the limit on `today`.
    pub fn is_expired(&self, date: &Date, today: &Date) -> (b: bool)
        requires
            date.is_valid(),
            today.is_valid(),
        ensures
            b == expired(*date, *today, *self),
    {
        let elapsed = today.days_since(date);
        if elapsed <= 0 {
            return false;
        }
        let days = self.unit.days();
        assert(self.amount * days <= u64::MAX * 30) by (nonlinear_arith)
            requires
                self.amount <= u64::MAX,
                days <= 30,
        ;
        let threshold: u128 = self.amount as u128 * days as u128;
        elapsed as u128 > threshold
    }
}

/// A backup made on `date` is older than the limit on `today`: more whole
/// days have passed than the limit allows.
pub open spec fn expired(date: Date, today: Date, policy: RetentionPolicy) -> bool {
    today.day_number() - date.day_number() > policy.threshold_days()
}

/// The date of a file of backup `name`: that of the first date token in
/// its name. A file whose name does not begin with `name`, or holds no
/// date of the calendar, has none.
pub open spec fn entry_date(file_name: Seq<char>, name: Seq<char>) -> Option<Date> {
    if name.is_prefix_of(file_name) {
        embedded_date_spec(file_name)
    } else {
        None
    }
}

/// The dates of the files of a listing.
pub open spec fn dates_of(names: Seq<Seq<char>>, name: Seq<char>) -> Seq<Option<Date>> {
    names.map_values(|f: Seq<char>| entry_date(f, name))
}

/// Entry `j` comes before an entry of date `date` at position `pos` when
/// the dated entries are put in order, the most recent first and those of
/// one day in the order of the listing.
pub open spec fn ahead(dates: Seq<Option<Date>>, j: int, date: Date, pos: int) -> bool {
    match dates[j] {
        Some(dj) => dj.day_number() > date.day_number() || (dj.day_number() == date.day_number()
            && j < pos),
        None => false,
    }
}

/// How many of the entries before `upto` come before an entry of date
/// `date` at position `pos`.
pub open spec fn ahead_count(dates: Seq<Option<Date>>, date: Date, pos: int, upto: int) -> nat
    decreases upto,
{
    if upto <= 0 {
        0
    } else {
        ahead_count(dates, date, pos, upto - 1) + if ahead(dates, upto - 1, date, pos) {
            1nat
        } else {
            0nat
        }
    }
}

/// Place of the dated entry `i` among the dated entries, the most recent
/// first, counted from 0.
pub open spec fn rank(dates: Seq<Option<Date>>, i: int) -> nat {
    ahead_count(dates, dates[i].unwrap(), i, dates.len() as int)
}

/// Entry `i` is to be deleted: it has a date, is older than the limit,
/// and is not among the `keep` most recent dated entries.
pub open spec fn doomed(
    dates: Seq<Option<Date>>,
    i: int,
    today: Date,
    policy: RetentionPolicy,
    keep: Option<nat>,
) -> bool {
    match dates[i] {
        Some(d) => expired(d, today, policy) && match keep {
            Some(k) => rank(dates, i) >= k,
            None => true,
        },
        None => false,
    }
}

/// The marks of all entries, see [`doomed`].
pub open spec fn doomed_marks(
    dates: Seq<Option<Date>>,
    today: Date,
    policy: RetentionPolicy,
    keep: Option<nat>,
) -> Seq<bool> {
    Seq::new(dates.len(), |i: int| doomed(dates, i, today, policy, keep))
}

/// The items of `s` whose mark is `want`, in order.
pub open spec fn pick<A>(s: Seq<A>, marks: Seq<bool>, want: bool) -> Seq<A>
    decreases s.len(),
{
    if s.len() == 0 {
        Seq::empty()
    } else {
        let rest = pick(s.drop_last(), marks.drop_last(), want);
        if marks.last() == want {
            rest.push(s.last())
        } else {
            rest
        }
    }
}

/// The floor as a number.
pub open spec fn keep_spec(always_keep: Option<usize>) -> Option<nat> {
    match always_keep {
        Some(k) => Some(k as nat),
        None => None,
    }
}

/// The names of the files of `names` that are to be deleted.
pub open spec fn files_to_delete_spec(
    names: Seq<Seq<char>>,
    name: Seq<char>,
    today: Date,
    policy: RetentionPolicy,
    keep: Option<nat>,
) -> Seq<Seq<char>> {
    pick(names, doomed_marks(dates_of(names, name), today, policy, keep), true)
}

/// The names of the files of `names` that stay.
pub open spec fn files_to_keep_spec(
    names: Seq<Seq<char>>,
    name: Seq<char>,
    today: Date,
    policy: RetentionPolicy,
    keep: Option<nat>,
) -> Seq<Seq<char>> {
    pick(names, doomed_marks(dates_of(names, name), today, policy, keep), false)
}

/// All dates of `dates` are valid.
pub open spec fn all_valid(dates: Seq<Option<Date>>) -> bool {
    forall|i: int| 0 <= i < dates.len() ==> (#[trigger] dates[i] matches Some(d) ==> d.is_valid())
}

/// The date of each file of `listing` as a file of backup `name`, see
/// [`entry_date`].
pub fn entry_dates(listing: &Vec<String>, name: &str) -> (dates: Vec<Option<Date>>)
    ensures
        dates@ == dates_of(views(listing@), name@),
        all_valid(dates@),
{
    let prefix = chars_of(name);
    let mut dates: Vec<Option<Date>> = Vec::new();
    let mut i: usize = 0;
    while i < listing.len()
        invariant
            i <= listing.len(),
            prefix@ == name@,
            dates@ == dates_of(views(listing@), name@).take(i as int),
            all_valid(dates@),
        decreases listing.len() - i,
    {
        let entry = chars_of(listing[i].as_str());
        let date = if has_prefix(&entry, &prefix) {
            embedded_date(listing[i].as_str())
        } else {
            None
        };
        dates.push(date);
        assert(dates@ =~= dates_of(views(listing@), name@).take(i + 1));
        i += 1;
    }
    assert(dates@ =~= dates_of(views(listing@), name@));
    dates
}

/// Age in days of each dated entry on `today`.
fn ages_of(dates: &Vec<Option<Date>>, today: &Date) -> (ages: Vec<Option<i64>>)
    requires
        today.is_valid(),
        all_valid(dates@),
    ensures
        ages.len() == dates.len(),
        forall|i: int|
            0 <= i < dates.len() ==> match #[trigger] dates[i] {
                Some(d) => ages[i] == Some((today.day_number() - d.day_number()) as i64) && i64::MIN
                    <= today.day_number() - d.day_number() <= i64::MAX,
                None => ages[i] is None,
            },
{
    let mut ages: Vec<Option<i64>> = Vec::new();
    let mut i: usize = 0;
    while i < dates.len()
        invariant
            i <= dates.len(),
            today.is_valid(),
            all_valid(dates@),
            ages.len() == i,
            forall|k: int|
                0 <= k < i ==> match #[trigger] dates[k] {
                    Some(d) => ages[k] == Some((today.day_number() - d.day_number()) as i64)
                        && i64::MIN <= today.day_number() - d.day_number() <= i64::MAX,
                    None => ages[k] is None,
                },
        decreases dates.len() - i,
    {
        let age = match &dates[i] {
            Some(d) => Some(today.days_since(d)),
            None => None,
        };
        ages.push(age);
        i += 1;
    }
    ages
}

/// For each entry whether it is to be deleted, see [`doomed`].
pub fn plan_deletions(
    dates: &Vec<Option<Date>>,
    today: &Date,
    policy: &RetentionPolicy,
    always_keep: Option<usize>,
) -> (marks: Vec<bool>)
    requires
        today.is_valid(),
        all_valid(dates@),
    ensures
        marks@ == doomed_marks(dates@, *today, *policy, keep_spec(always_keep)),
{
    let ages = ages_of(dates, today);
    let n = dates.len();
    let mut marks: Vec<bool> = Vec::new();
    let mut i: usize = 0;
    while i < n
        invariant
            i <= n,
            n == dates.len(),
            ages.len() == n,
            today.is_valid(),
            all_valid(dates@),
            forall|k: int|
                0 <= k < dates.len() ==> match #[trigger] dates[k] {
                    Some(d) => ages[k] == Some((today.day_number() - d.day_number()) as i64)
                        && i64::MIN <= today.day_number() - d.day_number() <= i64::MAX,
                    None => ages[k] is None,
                },
            marks.len() == i,
            forall|k: int|
                0 <= k < i ==> marks[k] == doomed(
                    dates@,
                    k,
                    *today,
                    *policy,
                    keep_spec(always_keep),
                ),
        decreases n - i,
    {
        let mark = match &dates[i] {
            None => false,
            Some(d) => {
                if !policy.is_expired(d, today) {
                    false
                } else {
                    match always_keep {
                        None => true,
                        Some(keep) => {
                            let age = ages[i].unwrap();
                            let mut ahead_of: usize = 0;
                            let mut j: usize = 0;
                            while j < n
                                invariant
                                    j <= n,
                                    i < n,
                                    n == dates.len(),
                                    ages.len() == n,
                                    dates[i as int] == Some(*d),
                                    ages[i as int] == Some(age),
                                    forall|k: int|
                                        0 <= k < dates.len() ==> match #[trigger] dates[k] {
                                            Some(d) => ages[k] == Some(
                                                (today.day_number() - d.day_number()) as i64,
                                            ) && i64::MIN <= today.day_number() - d.day_number()
                                                <= i64::MAX,
                                            None => ages[k] is None,
                                        },
                                    ahead_of <= j,
                                    ahead_of == ahead_count(dates@, *d, i as int, j as int),
                                decreases n - j,
                            {
                                let before = match ages[j] {
                                    Some(other) => other < age || (other == age && j < i),
                                    None => false,
                                };
                                assert(before == ahead(dates@, j as int, *d, i as int)) by {
                                    let dj = dates[j as int];
                                };
                                if before {
                                    ahead_of += 1;
                                }
                                j += 1;
                            }
                            ahead_of >= keep
                        },
                    }
                }
            },
        };
        marks.push(mark);
        i += 1;
    }
    assert(marks@ =~= doomed_marks(dates@, *today, *policy, keep_spec(always_keep)));
    marks
}

/// The names of the files of `listing` that are to be deleted, in the
/// order of the listing: the files of backup `name` that carry a date, are
/// older than the limit on `today`, and are not among the `always_keep`
/// most recent of them.
pub fn files_to_delete(
    listing: &Vec<String>,
    name: &str,
    today: &Date,
    policy: &RetentionPolicy,
    always_keep: Option<usize>,
) -> (doomed: Vec<String>)
    requires
        today.is_valid(),
    ensures
        views(doomed@) == files_to_delete_spec(
            views(listing@),
            name@,
            *today,
            *policy,
            keep_spec(always_keep),
        ),
{
    let dates = entry_dates(listing, name);
    let marks = plan_deletions(&dates, today, policy, always_keep);
    let mut doomed: Vec<String> = Vec::new();
    let mut i: usize = 0;
    assert(views(listing@).take(0) =~= Seq::<Seq<char>>::empty());
    assert(marks@.take(0) =~= Seq::<bool>::empty());
    while i < listing.len()
        invariant
            i <= listing.len(),
            marks.len() == listing.len(),
            views(doomed@) == pick(views(listing@).take(i as int), marks@.take(i as int), true),
        decreases listing.len() - i,
    {
        proof {
            let s = views(listing@).take(i + 1);
            let m = marks@.take(i + 1);
            assert(s.drop_last() =~= views(listing@).take(i as int));
            assert(m.drop_last() =~= marks@.take(i as int));
        }
        if marks[i] {
            let ghost before = views(doomed@);
            doomed.push(listing[i].clone());
            assert(views(doomed@) =~= before.push(listing@[i as int]@));
        }
        i += 1;
    }
    assert(views(listing@).take(listing.len() as int) =~= views(listing@));
    assert(marks@.take(listing.len() as int) =~= marks@);
    doomed
}

} // verus!
