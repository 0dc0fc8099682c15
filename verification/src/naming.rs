//! File names of backups: the date token they carry, how it is found
//! again in a name, and the sequence number that tells apart the backups
//! of one day.

use vstd::prelude::*;
use crate::date::{is_calendar_date, year_digits, Date};
use crate::format::BackupFormat;
use crate::text::{chars_of, decimal, decimal_value, digit_char, has_prefix, is_digit, is_digit_char, lemma_decimal, push_decimal, push_range, value_of_digit, views};
use vstd::string::*;

verus! {

/// The `w` characters of `s` from `i` on are digits.
pub open spec fn digits_at(s: Seq<char>, i: int, w: int) -> bool {
    0 <= i && i + w <= s.len() && forall|k: int| i <= k < i + w ==> is_digit(#[trigger] s[k])
}

/// At `i` stands a month of `m` digits, `-`, a day of `d` digits, `-` and
/// a year of four digits.
pub open spec fn shape_at(s: Seq<char>, i: int, m: int, d: int) -> bool {
    &&& 0 <= i
    &&& i + m + d + 6 <= s.len()
    &&& digits_at(s, i, m)
    &&& s[i + m] == '-'
    &&& digits_at(s, i + m + 1, d)
    &&& s[i + m + d + 1] == '-'
    &&& digits_at(s, i + m + d + 2, 4)
}

/// The widths of month and day of the date token that starts at `i`:
/// one or two digits each, the longer one preferred.
pub open spec fn token_widths(s: Seq<char>, i: int) -> Option<(int, int)> {
    if shape_at(s, i, 2, 2) {
        Some((2int, 2int))
    } else if shape_at(s, i, 2, 1) {
        Some((2int, 1int))
    } else if shape_at(s, i, 1, 2) {
        Some((1int, 2int))
    } else if shape_at(s, i, 1, 1) {
        Some((1int, 1int))
    } else {
        None
    }
}

/// Length of the date token that starts at `i`, if one does.
pub open spec fn token_len_at(s: Seq<char>, i: int) -> Option<int> {
    match token_widths(s, i) {
        Some((m, d)) => Some(m + d + 6),
        None => None,
    }
}

/// The least position from `from` on at which a date token starts;
/// `s.len()` if there is none.
pub open spec fn first_token_from(s: Seq<char>, from: int) -> int
    decreases s.len() - from,
{
    if from >= s.len() {
        s.len() as int
    } else if token_len_at(s, from) is Some {
        from
    } else {
        first_token_from(s, from + 1)
    }
}

/// The first date token of `s`; empty if `s` holds none.
pub open spec fn date_token_of(s: Seq<char>) -> Seq<char> {
    let i = first_token_from(s, 0);
    match token_len_at(s, i) {
        Some(l) => s.subrange(i, i + l),
        None => Seq::empty(),
    }
}

/// The date that the token at `i` denotes, if the calendar has it.
pub open spec fn token_date(s: Seq<char>, i: int) -> Option<Date> {
    match token_widths(s, i) {
        Some((m, d)) => {
            let month = decimal_value(s.subrange(i, i + m));
            let day = decimal_value(s.subrange(i + m + 1, i + m + 1 + d));
            let year = decimal_value(s.subrange(i + m + d + 2, i + m + d + 6));
            if is_calendar_date(year as int, month as int, day as int) {
                Some(Date { year: year as u32, month: month as u32, day: day as u32 })
            } else {
                None
            }
        },
        None => None,
    }
}

/// The date that the first date token of `s` denotes.
pub open spec fn embedded_date_spec(s: Seq<char>) -> Option<Date> {
    token_date(s, first_token_from(s, 0))
}

/// What all files of backup `name` made on `date` begin with.
pub open spec fn day_prefix_spec(name: Seq<char>, date: Date) -> Seq<char> {
    name + seq!['-'] + date.stamp_spec()
}

/// Name of the payload archive.
pub open spec fn payload_name_spec(name: Seq<char>, date: Date, format: BackupFormat) -> Seq<char> {
    day_prefix_spec(name, date) + seq!['.'] + format.extension_spec()
}

/// Name of the text file that holds the payload's digest.
pub open spec fn hash_name_spec(name: Seq<char>, date: Date) -> Seq<char> {
    day_prefix_spec(name, date) + "_hash.txt"@
}

/// Name of the bundle with sequence number `seq`.
pub open spec fn bundle_name_spec(
    name: Seq<char>,
    date: Date,
    seq: nat,
    format: BackupFormat,
) -> Seq<char> {
    day_prefix_spec(name, date) + seq!['-'] + decimal(seq) + "-bundle."@ + format.extension_spec()
}

/// How many of `names` begin with `prefix`.
pub open spec fn count_with_prefix(names: Seq<Seq<char>>, prefix: Seq<char>) -> nat
    decreases names.len(),
{
    if names.len() == 0 {
        0
    } else {
        count_with_prefix(names.drop_last(), prefix) + if prefix.is_prefix_of(names.last()) {
            1nat
        } else {
            0nat
        }
    }
}

/// The sequence number of the next bundle of `name` on `date`, given the
/// names of the files in the backup directory.
pub open spec fn next_sequence_spec(names: Seq<Seq<char>>, name: Seq<char>, date: Date) -> nat {
    1 + count_with_prefix(names, day_prefix_spec(name, date))
}

/// Ten to the power `k`.
pub open spec fn pow10(k: nat) -> nat
    decreases k,
{
    if k == 0 {
        1
    } else {
        10 * pow10((k - 1) as nat)
    }
}

fn digits_here(v: &Vec<char>, i: usize, w: usize) -> (b: bool)
    requires
        w <= 4,
    ensures
        b == digits_at(v@, i as int, w as int),
{
    if i > v.len() || w > v.len() - i {
        return false;
    }
    let mut k: usize = 0;
    while k < w
        invariant
            k <= w,
            i + w <= v.len(),
            digits_at(v@, i as int, k as int),
        decreases w - k,
    {
        if !is_digit_char(v[i + k]) {
            return false;
        }
        k += 1;
    }
    true
}

fn field_here(v: &Vec<char>, i: usize) -> (r: Option<usize>)
    requires
        i < v.len(),
    ensures
        r matches Some(w) ==> 1 <= w <= 2 && digits_at(v@, i as int, w as int) && i + w < v.len()
            && v@[i + w] == '-',
        r is None ==> forall|w: int|
            1 <= w <= 2 ==> !(digits_at(v@, i as int, w) && i + w < v.len() && v@[i + w] == '-'),
{
    if !is_digit_char(v[i]) {
        return None;
    }
    if i + 1 >= v.len() {
        return None;
    }
    if v[i + 1] == '-' {
        return Some(1);
    }
    if !is_digit_char(v[i + 1]) {
        return None;
    }
    if i + 2 >= v.len() {
        return None;
    }
    if v[i + 2] == '-' {
        assert(digits_at(v@, i as int, 2));
        Some(2)
    } else {
        None
    }
}

/// The widths of month and day of the date token at `i`, see
/// [`token_widths`].
fn widths_here(v: &Vec<char>, i: usize) -> (r: Option<(usize, usize)>)
    ensures
        match r {
            Some((m, d)) => token_widths(v@, i as int) == Some((m as int, d as int)),
            None => token_widths(v@, i as int) is None,
        },
{
    if i >= v.len() {
        return None;
    }
    match field_here(v, i) {
        None => None,
        Some(m) => {
            let j = i + m + 1;
            if j >= v.len() {
                return None;
            }
            match field_here(v, j) {
                None => None,
                Some(d) => {
                    if digits_here(v, j + d + 1, 4) {
                        Some((m, d))
                    } else {
                        None
                    }
                },
            }
        },
    }
}

/// The number written by the `w` digits at `i`.
fn number_here(v: &Vec<char>, i: usize, w: usize) -> (n: u32)
    requires
        w <= 4,
        digits_at(v@, i as int, w as int),
    ensures
        n == decimal_value(v@.subrange(i as int, i + w)),
        n < 10000,
{
    let mut n: u32 = 0;
    let mut k: usize = 0;
    proof {
        assert(v@.subrange(i as int, i as int) =~= Seq::<char>::empty());
        reveal_with_fuel(pow10, 5);
    }
    while k < w
        invariant
            k <= w <= 4,
            i + w <= v.len(),
            digits_at(v@, i as int, w as int),
            n == decimal_value(v@.subrange(i as int, i + k)),
            n < pow10(k as nat),
            pow10(4) == 10000,
            pow10(w as nat) <= 10000,
        decreases w - k,
    {
        let c = v[i + k];
        let d = value_of_digit(c);
        proof {
            let t = v@.subrange(i as int, i + k + 1);
            assert(t.drop_last() =~= v@.subrange(i as int, i + k));
            assert(t.last() == c);
            lemma_pow10_monotonic((k + 1) as nat, w as nat);
        }
        n = n * 10 + d as u32;
        k += 1;
    }
    proof {
        lemma_pow10_monotonic(w as nat, 4);
    }
    n
}

proof fn lemma_pow10_monotonic(a: nat, b: nat)
    requires
        a <= b,
    ensures
        pow10(a) <= pow10(b),
        pow10(a) >= 1,
    decreases b,
{
    if a < b {
        lemma_pow10_monotonic(a, (b - 1) as nat);
    } else if a > 0 {
        lemma_pow10_monotonic((a - 1) as nat, (a - 1) as nat);
    }
}

/// Position of the first date token of `v`, with the widths of its month
/// and day.
fn find_token(v: &Vec<char>) -> (r: Option<(usize, usize, usize)>)
    ensures
        match r {
            Some((i, m, d)) => i == first_token_from(v@, 0) && i < v.len() && token_widths(
                v@,
                i as int,
            ) == Some((m as int, d as int)),
            None => first_token_from(v@, 0) == v.len() && token_widths(v@, v.len() as int) is None,
        },
{
    let mut i: usize = 0;
    while i < v.len()
        invariant
            i <= v.len(),
            first_token_from(v@, 0) == first_token_from(v@, i as int),
        decreases v.len() - i,
    {
        match widths_here(v, i) {
            Some((m, d)) => {
                return Some((i, m, d));
            },
            None => {},
        }
        i += 1;
    }
    None
}

/// The first date token in `file_name`: one or two digits, `-`, one or
/// two digits, `-`, four digits. The digits are those of ASCII, `0` to
/// `9`; decimal digits of other scripts make no token. Empty where the
/// name holds none.
pub fn extract_date_from_file_name(file_name: &String) -> (token: String)
    ensures
        token@ == date_token_of(file_name@),
{
    let v = chars_of(file_name.as_str());
    let mut token = String::new();
    match find_token(&v) {
        Some((i, m, d)) => {
            push_range(&mut token, &v, i, i + m + d + 6);
        },
        None => {},
    }
    token
}

/// The date that the first date token in `file_name` denotes. A token is
/// made of ASCII digits, `0` to `9`, as in
/// [`extract_date_from_file_name`]. `None` where the name holds no token
/// or the calendar has no such day.
pub fn embedded_date(file_name: &str) -> (r: Option<Date>)
    ensures
        r == embedded_date_spec(file_name@),
        r matches Some(d) ==> d.is_valid(),
{
    let v = chars_of(file_name);
    match find_token(&v) {
        Some((i, m, d)) => {
            let month = number_here(&v, i, m);
            let day = number_here(&v, i + m + 1, d);
            let year = number_here(&v, i + m + d + 2, 4);
            Date::from_parts(year as i32, month, day)
        },
        None => None,
    }
}


/// What all files of backup `name` made on `date` begin with: the name,
/// `-` and the date's stamp.
pub fn day_prefix(name: &str, date: &Date) -> (s: String)
    requires
        date.is_valid(),
    ensures
        s@ == day_prefix_spec(name@, *date),
{
    let mut s = name.to_owned();
    s.push('-');
    let stamp = date.stamp();
    s.append(stamp.as_str());
    s
}

/// Name of the payload archive of backup `name` made on `date`.
pub fn payload_file_name(name: &str, date: &Date, format: BackupFormat) -> (s: String)
    requires
        date.is_valid(),
    ensures
        s@ == payload_name_spec(name@, *date, format),
{
    let mut s = day_prefix(name, date);
    s.push('.');
    s.append(format.extension());
    s
}

/// Name of the text file that holds the digest of the payload archive.
pub fn hash_file_name(name: &str, date: &Date) -> (s: String)
    requires
        date.is_valid(),
    ensures
        s@ == hash_name_spec(name@, *date),
{
    let mut s = day_prefix(name, date);
    s.append("_hash.txt");
    s
}

/// Name of the bundle of backup `name` made on `date` with sequence
/// number `seq`.
pub fn bundle_file_name(name: &str, date: &Date, seq: u64, format: BackupFormat) -> (s: String)
    requires
        date.is_valid(),
    ensures
        s@ == bundle_name_spec(name@, *date, seq as nat, format),
{
    let mut s = day_prefix(name, date);
    s.push('-');
    push_decimal(&mut s, seq);
    s.append("-bundle.");
    s.append(format.extension());
    s
}

/// The sequence number for the next bundle of backup `name` on `date`:
/// one more than the number of files in `listing` whose names begin with
/// the name, `-` and the date's stamp.
pub fn next_sequence_number(listing: &Vec<String>, name: &str, date: &Date) -> (seq: u64)
    requires
        date.is_valid(),
        listing.len() < u64::MAX,
    ensures
        seq == next_sequence_spec(views(listing@), name@, *date),
{
    let prefix_string = day_prefix(name, date);
    let prefix = chars_of(prefix_string.as_str());
    let mut count: u64 = 0;
    let mut i: usize = 0;
    assert(views(listing@).take(0) =~= Seq::<Seq<char>>::empty());
    while i < listing.len()
        invariant
            i <= listing.len() < u64::MAX,
            count <= i,
            count == count_with_prefix(views(listing@).take(i as int), prefix@),
        decreases listing.len() - i,
    {
        let entry = chars_of(listing[i].as_str());
        proof {
            let t = views(listing@).take(i + 1);
            assert(t.drop_last() =~= views(listing@).take(i as int));
            assert(t.last() == entry@);
        }
        if has_prefix(&entry, &prefix) {
            count += 1;
        }
        i += 1;
    }
    assert(views(listing@).take(listing.len() as int) =~= views(listing@));
    count + 1
}

/// No date token starts anywhere in `name`.
pub open spec fn token_free(name: Seq<char>) -> bool {
    forall|i: int| 0 <= i < name.len() ==> (#[trigger] token_len_at(name, i)) is None
}

proof fn lemma_stamp_shape(date: Date)
    requires
        date.is_valid(),
    ensures
        1 <= decimal(date.month as nat).len() <= 2,
        1 <= decimal(date.day as nat).len() <= 2,
        date.stamp_spec().len() == decimal(date.month as nat).len() + decimal(
            date.day as nat,
        ).len() + 6,
        shape_at(
            date.stamp_spec(),
            0,
            decimal(date.month as nat).len() as int,
            decimal(date.day as nat).len() as int,
        ),
{
    lemma_decimal(date.month as nat);
    lemma_decimal(date.day as nat);
    let year = date.year as int;
    let tens = year / 10;
    let hundreds = tens / 10;
    let thousands = hundreds / 10;
    assert(is_digit(digit_char(thousands % 10)));
    assert(is_digit(digit_char(hundreds % 10)));
    assert(is_digit(digit_char(tens % 10)));
    assert(is_digit(digit_char(year % 10)));
}

proof fn lemma_no_shape_before(
    p: Seq<char>,
    st: Seq<char>,
    rest: Seq<char>,
    mw: int,
    dw: int,
    i: int,
    m: int,
    d: int,
)
    requires
        token_free(p),
        1 <= mw <= 2,
        1 <= dw <= 2,
        st.len() == mw + dw + 6,
        shape_at(st, 0, mw, dw),
        0 <= i <= p.len(),
        1 <= m <= 2,
        1 <= d <= 2,
    ensures
        !shape_at(p + seq!['-'] + st + rest, i, m, d),
{
    let f = p + seq!['-'] + st + rest;
    let n = p.len() as int;
    if shape_at(f, i, m, d) {
        assert(f[n] == '-');
        assert(forall|k: int| 0 <= k < n ==> f[k] == p[k]);
        assert(forall|k: int| 0 <= k < st.len() ==> f[n + 1 + k] == st[k]);
        if i + m + d + 6 <= n {
            assert(shape_at(p, i, m, d));
            assert(token_len_at(p, i) is Some);
        } else {
            assert(!is_digit(f[n]));
            if n == i + m + d + 1 {
                assert(st[mw] == '-');
                assert(f[n + 1 + mw] == st[mw]);
                assert(is_digit(f[n + 1 + mw]));
            } else {
                assert(n == i + m);
                if d < mw {
                    assert(is_digit(st[d]));
                    assert(f[n + 1 + d] == st[d]);
                } else if d > mw {
                    assert(f[n + 1 + mw] == st[mw]);
                    assert(is_digit(f[n + 1 + mw]));
                } else {
                    assert(st[mw + 1 + dw] == '-');
                    assert(f[n + 1 + mw + 1 + dw] == st[mw + 1 + dw]);
                    assert(is_digit(f[n + 1 + mw + 1 + dw]));
                }
            }
        }
    }
}

/// The first date token is the leftmost: no date token starts before
/// it, and one starts at it unless there is none at all.
pub proof fn lemma_first_token_is_leftmost(s: Seq<char>, from: int)
    requires
        0 <= from <= s.len(),
    ensures
        from <= first_token_from(s, from) <= s.len(),
        forall|k: int|
            from <= k < first_token_from(s, from) ==> (#[trigger] token_len_at(s, k)) is None,
        first_token_from(s, from) < s.len() ==> token_len_at(s, first_token_from(s, from)) is Some,
    decreases s.len() - from,
{
    if from < s.len() && token_len_at(s, from) is None {
        lemma_first_token_is_leftmost(s, from + 1);
    }
}

proof fn lemma_first_token_is(f: Seq<char>, from: int, target: int)
    requires
        0 <= from <= target < f.len(),
        forall|k: int| from <= k < target ==> (#[trigger] token_len_at(f, k)) is None,
        token_len_at(f, target) is Some,
    ensures
        first_token_from(f, from) == target,
    decreases target - from,
{
    if from < target {
        lemma_first_token_is(f, from + 1, target);
    }
}

proof fn lemma_year_value(year: int)
    requires
        0 <= year <= 9999,
    ensures
        decimal_value(year_digits(year)) == year,
{
    let tens = year / 10;
    let hundreds = tens / 10;
    let thousands = hundreds / 10;
    let s = year_digits(year);
    let s3 = s.drop_last();
    let s2 = s3.drop_last();
    let s1 = s2.drop_last();
    assert(s1.drop_last() =~= Seq::<char>::empty());
    assert(decimal_value(s1.drop_last()) == 0);
    assert(thousands < 10);
    assert(decimal_value(s1) == thousands);
    assert(decimal_value(s2) == hundreds);
    assert(decimal_value(s3) == tens);
    assert(decimal_value(s) == year);
}

/// A file name made of a name without date token, `-`, a date's stamp
/// and anything after it gives that date back: its first date token is
/// the stamp, and the token denotes the date.
pub proof fn lemma_date_round_trip(name: Seq<char>, date: Date, rest: Seq<char>)
    requires
        token_free(name),
        date.is_valid(),
    ensures
        date_token_of(day_prefix_spec(name, date) + rest) == date.stamp_spec(),
        embedded_date_spec(day_prefix_spec(name, date) + rest) == Some(date),
{
    let st = date.stamp_spec();
    let ms = decimal(date.month as nat);
    let ds = decimal(date.day as nat);
    let mw = ms.len() as int;
    let dw = ds.len() as int;
    let f = name + seq!['-'] + st + rest;
    let n = name.len() as int;
    lemma_stamp_shape(date);
    lemma_decimal(date.month as nat);
    lemma_decimal(date.day as nat);
    lemma_year_value(date.year as int);
    assert(forall|k: int| 0 <= k < st.len() ==> f[n + 1 + k] == st[k]);
    assert(shape_at(f, n + 1, mw, dw));
    assert(token_widths(f, n + 1) == Some((mw, dw))) by {
        if mw == 1 {
            assert(f[n + 1 + 1] == st[1]);
        }
        if dw == 1 {
            assert(f[n + 1 + mw + 1 + 1] == st[mw + 1 + 1]);
        }
    }
    assert forall|k: int| 0 <= k < n + 1 implies (#[trigger] token_len_at(f, k)) is None by {
        lemma_no_shape_before(name, st, rest, mw, dw, k, 2, 2);
        lemma_no_shape_before(name, st, rest, mw, dw, k, 2, 1);
        lemma_no_shape_before(name, st, rest, mw, dw, k, 1, 2);
        lemma_no_shape_before(name, st, rest, mw, dw, k, 1, 1);
    }
    lemma_first_token_is(f, 0, n + 1);
    assert(f.subrange(n + 1, n + 1 + mw + dw + 6) =~= st);
    assert(f.subrange(n + 1, n + 1 + mw) =~= ms);
    assert(f.subrange(n + 1 + mw + 1, n + 1 + mw + 1 + dw) =~= ds);
    assert(f.subrange(n + 1 + mw + dw + 2, n + 1 + mw + dw + 6) =~= year_digits(date.year as int));
}

/// The name of a bundle gives back the date it was made on: extracting
/// the date token from the name yields the date's stamp, for every name
/// without date token, every valid date, sequence number and format.
pub proof fn lemma_bundle_name_round_trip(
    name: Seq<char>,
    date: Date,
    seq: nat,
    format: BackupFormat,
)
    requires
        token_free(name),
        date.is_valid(),
    ensures
        date_token_of(bundle_name_spec(name, date, seq, format)) == date.stamp_spec(),
        embedded_date_spec(bundle_name_spec(name, date, seq, format)) == Some(date),
{
    let rest = seq!['-'] + decimal(seq) + "-bundle."@ + format.extension_spec();
    lemma_date_round_trip(name, date, rest);
    assert(bundle_name_spec(name, date, seq, format) =~= day_prefix_spec(name, date) + rest);
}

/// Once a bundle has been added to the directory, the next sequence
/// number is one more: bundles of one name made on one day are numbered
/// 1, 2, 3, ... in the order in which they are made.
pub proof fn lemma_sequence_advances(
    names: Seq<Seq<char>>,
    name: Seq<char>,
    date: Date,
    seq: nat,
    format: BackupFormat,
)
    ensures
        next_sequence_spec(Seq::empty(), name, date) == 1,
        next_sequence_spec(names.push(bundle_name_spec(name, date, seq, format)), name, date)
            == next_sequence_spec(names, name, date) + 1,
{
    let b = bundle_name_spec(name, date, seq, format);
    let prefix = day_prefix_spec(name, date);
    assert(names.push(b).drop_last() =~= names);
    assert(b.subrange(0, prefix.len() as int) =~= prefix);
}

/// Bundles of one name, date and format with different sequence numbers
/// have different names.
pub proof fn lemma_bundle_names_differ(
    name: Seq<char>,
    date: Date,
    a: nat,
    b: nat,
    format: BackupFormat,
)
    requires
        a != b,
    ensures
        bundle_name_spec(name, date, a, format) != bundle_name_spec(name, date, b, format),
{
    let na = bundle_name_spec(name, date, a, format);
    let nb = bundle_name_spec(name, date, b, format);
    let head = day_prefix_spec(name, date) + seq!['-'];
    let tail = "-bundle."@ + format.extension_spec();
    lemma_decimal(a);
    lemma_decimal(b);
    if na == nb {
        assert(na =~= head + decimal(a) + tail);
        assert(nb =~= head + decimal(b) + tail);
        assert(decimal(a).len() == decimal(b).len());
        assert(decimal(a) =~= na.subrange(head.len() as int, (head.len() + decimal(a).len()) as int));
        assert(decimal(b) =~= nb.subrange(head.len() as int, (head.len() + decimal(b).len()) as int));
    }
}

} // verus!
