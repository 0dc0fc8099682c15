//! Character-level helpers shared by the naming, parsing and command
//! building code.

use vstd::prelude::*;
use vstd::std_specs::iter::IteratorSpec;
use vstd::string::*;

verus! {

/// `String::push` of std appends one character to the string.
pub assume_specification[ String::push ](s: &mut String, c: char)
    ensures
        final(s)@ == old(s)@.push(c),
;

/// The characters of `s`, in order.
pub fn chars_of(s: &str) -> (v: Vec<char>)
    ensures
        v@ == s@,
{
    let mut v: Vec<char> = Vec::new();
    let it = s.chars();
    for c in iter: it
        invariant
            v@ == s@.take(iter.index() as int),
            iter.seq() == s@,
    {
        v.push(c);
    }
    v
}

/// Appends the characters `v[from..to]` to `out`.
pub fn push_range(out: &mut String, v: &Vec<char>, from: usize, to: usize)
    requires
        from <= to <= v.len(),
    ensures
        final(out)@ == old(out)@ + v@.subrange(from as int, to as int),
{
    let mut i: usize = from;
    while i < to
        invariant
            from <= i <= to <= v.len(),
            out@ == old(out)@ + v@.subrange(from as int, i as int),
        decreases to - i,
    {
        out.push(v[i]);
        i += 1;
    }
}

/// The string made of the characters of `v`, in order.
pub fn string_of(v: &Vec<char>) -> (s: String)
    ensures
        s@ == v@,
{
    let mut s = String::new();
    push_range(&mut s, v, 0, v.len());
    assert(v@.subrange(0, v.len() as int) == v@);
    s
}

/// The views of a sequence of strings.
pub open spec fn views(v: Seq<String>) -> Seq<Seq<char>> {
    v.map_values(|s: String| s@)
}

/// An ASCII decimal digit.
pub open spec fn is_digit(c: char) -> bool {
    '0' <= c && c <= '9'
}

/// Whether `c` is an ASCII decimal digit.
pub fn is_digit_char(c: char) -> (b: bool)
    ensures
        b == is_digit(c),
{
    '0' <= c && c <= '9'
}

/// Every character of `s` is an ASCII decimal digit.
pub open spec fn all_digits(s: Seq<char>) -> bool {
    forall|i: int| 0 <= i < s.len() ==> is_digit(#[trigger] s[i])
}

/// The digit character that stands for `d`, for `0 <= d <= 9`.
pub open spec fn digit_char(d: int) -> char {
    (d + 48) as char
}

/// The number a digit character stands for.
pub open spec fn digit_value(c: char) -> int {
    c as int - 48
}

/// Decimal notation of `n`, without leading zeros.
pub open spec fn decimal(n: nat) -> Seq<char>
    decreases n,
{
    if n < 10 {
        seq![digit_char(n as int)]
    } else {
        decimal(n / 10).push(digit_char((n % 10) as int))
    }
}

/// The number that a sequence of digits denotes in base ten.
pub open spec fn decimal_value(s: Seq<char>) -> nat
    decreases s.len(),
{
    if s.len() == 0 {
        0
    } else {
        (decimal_value(s.drop_last()) * 10 + digit_value(s.last())) as nat
    }
}

/// The digit character for `d`.
pub fn digit_of(d: u8) -> (c: char)
    requires
        d < 10,
    ensures
        c == digit_char(d as int),
        is_digit(c),
        digit_value(c) == d,
{
    (d + 48) as char
}

/// The value of the digit `c`.
pub fn value_of_digit(c: char) -> (d: u8)
    requires
        is_digit(c),
    ensures
        d == digit_value(c),
        d < 10,
{
    (c as u32 - 48) as u8
}

/// Decimal notation consists of digits only, has at least one of them, and
/// denotes the number it was made from.
pub proof fn lemma_decimal(n: nat)
    ensures
        all_digits(decimal(n)),
        decimal(n).len() >= 1,
        decimal_value(decimal(n)) == n,
        n < 10 ==> decimal(n).len() == 1,
        10 <= n < 100 ==> decimal(n).len() == 2,
    decreases n,
{
    if n < 10 {
        let s = decimal(n);
        assert(s.drop_last() =~= Seq::<char>::empty());
        assert(decimal_value(s.drop_last()) == 0);
    } else {
        lemma_decimal(n / 10);
        let s = decimal(n);
        assert(s.drop_last() =~= decimal(n / 10));
        if n < 100 {
            assert(n / 10 < 10);
        }
    }
}

/// Appends the decimal notation of `n` to `out`.
pub fn push_decimal(out: &mut String, n: u64)
    ensures
        final(out)@ == old(out)@ + decimal(n as nat),
    decreases n,
{
    if n >= 10 {
        push_decimal(out, n / 10);
    }
    let d: u8 = (n % 10) as u8;
    out.push(digit_of(d));
    assert(final(out)@ == old(out)@ + decimal(n as nat)) by {
        if n >= 10 {
            assert(old(out)@ + decimal(n as nat) =~= (old(out)@ + decimal((n / 10) as nat)).push(
                digit_char((n % 10) as int),
            ));
        } else {
            assert(old(out)@ + decimal(n as nat) =~= old(out)@.push(digit_char(n as int)));
        }
    }
}


/// The pieces of `s` between the occurrences of `sep`. A text without
/// `sep` is one piece; an empty text is one empty piece.
pub open spec fn split_on(s: Seq<char>, sep: char) -> Seq<Seq<char>>
    decreases s.len(),
{
    if s.len() == 0 {
        seq![Seq::empty()]
    } else {
        let before = split_on(s.drop_last(), sep);
        if s.last() == sep {
            before.push(Seq::empty())
        } else {
            before.drop_last().push(before.last().push(s.last()))
        }
    }
}

/// Splitting gives at least one piece.
pub proof fn lemma_split_on_len(s: Seq<char>, sep: char)
    ensures
        split_on(s, sep).len() >= 1,
    decreases s.len(),
{
    if s.len() > 0 {
        lemma_split_on_len(s.drop_last(), sep);
    }
}

/// The pieces of `s` between the occurrences of `sep`, see [`split_on`].
pub fn split(s: &str, sep: char) -> (parts: Vec<String>)
    ensures
        views(parts@) == split_on(s@, sep),
{
    let v = chars_of(s);
    let mut parts: Vec<String> = Vec::new();
    let mut current = String::new();
    let mut i: usize = 0;
    assert(v@.take(0) =~= Seq::<char>::empty());
    assert(views(parts@).push(current@) =~= split_on(v@.take(0), sep));
    while i < v.len()
        invariant
            i <= v.len(),
            views(parts@).push(current@) == split_on(v@.take(i as int), sep),
        decreases v.len() - i,
    {
        let c = v[i];
        proof {
            let t = v@.take(i + 1);
            assert(t.drop_last() =~= v@.take(i as int));
            assert(t.last() == c);
            assert(views(parts@).push(current@).drop_last() =~= views(parts@));
        }
        let ghost before = views(parts@);
        let ghost piece = current@;
        if c == sep {
            parts.push(current);
            current = String::new();
            assert(views(parts@) =~= before.push(piece));
        } else {
            current.push(c);
        }
        i += 1;
    }
    assert(v@.take(v.len() as int) =~= v@);
    let ghost before = views(parts@);
    let ghost piece = current@;
    parts.push(current);
    assert(views(parts@) =~= before.push(piece));
    parts
}

/// Appends clones of `items` to `out`.
pub fn extend_with(out: &mut Vec<String>, items: &Vec<String>)
    ensures
        views(final(out)@) == views(old(out)@) + views(items@),
{
    let mut i: usize = 0;
    assert(views(out@) =~= views(old(out)@) + views(items@).take(0));
    while i < items.len()
        invariant
            i <= items.len(),
            views(out@) == views(old(out)@) + views(items@).take(i as int),
        decreases items.len() - i,
    {
        let ghost before = views(out@);
        out.push(items[i].clone());
        assert(views(out@) =~= before.push(items@[i as int]@));
        assert(views(out@) =~= views(old(out)@) + views(items@).take(i + 1));
        i += 1;
    }
    assert(views(items@).take(items.len() as int) =~= views(items@));
}

/// Each of `items` with `prefix` before it.
pub open spec fn prefixed(prefix: Seq<char>, items: Seq<Seq<char>>) -> Seq<Seq<char>> {
    items.map_values(|p: Seq<char>| prefix + p)
}

/// Appends each of `items` with `prefix` before it to `out`.
pub fn extend_prefixed(out: &mut Vec<String>, prefix: &str, items: &Vec<String>)
    ensures
        views(final(out)@) == views(old(out)@) + prefixed(prefix@, views(items@)),
{
    let mut i: usize = 0;
    assert(views(out@) =~= views(old(out)@) + prefixed(prefix@, views(items@)).take(0));
    while i < items.len()
        invariant
            i <= items.len(),
            views(out@) == views(old(out)@) + prefixed(prefix@, views(items@)).take(i as int),
        decreases items.len() - i,
    {
        let ghost before = views(out@);
        let mut arg = prefix.to_owned();
        arg.append(items[i].as_str());
        out.push(arg);
        assert(views(out@) =~= before.push(prefix@ + items@[i as int]@));
        assert(views(out@) =~= views(old(out)@) + prefixed(prefix@, views(items@)).take(i + 1));
        i += 1;
    }
    assert(prefixed(prefix@, views(items@)).take(items.len() as int) =~= prefixed(
        prefix@,
        views(items@),
    ));
}

/// Appends a copy of `arg` to `out`.
pub fn push_arg(out: &mut Vec<String>, arg: &str)
    ensures
        views(final(out)@) == views(old(out)@).push(arg@),
{
    let ghost before = views(out@);
    out.push(arg.to_owned());
    assert(views(out@) =~= before.push(arg@));
}


/// The number that the digits `s` denote, held at `u64::MAX` where it is
/// larger.
pub open spec fn capped_value(s: Seq<char>) -> u64 {
    if decimal_value(s) > u64::MAX {
        u64::MAX
    } else {
        decimal_value(s) as u64
    }
}

/// Reads `v[from..to]` as a decimal number: `None` unless it is one or
/// more digits; a number beyond `u64::MAX` is given as `u64::MAX`.
pub fn read_decimal(v: &Vec<char>, from: usize, to: usize) -> (r: Option<u64>)
    requires
        from <= to <= v.len(),
    ensures
        r is Some <==> from < to && all_digits(v@.subrange(from as int, to as int)),
        r matches Some(n) ==> n == capped_value(v@.subrange(from as int, to as int)),
{
    if from == to {
        return None;
    }
    let ghost digits = v@.subrange(from as int, to as int);
    let mut amount: u64 = 0;
    let mut k: usize = from;
    assert(digits.take(0) =~= Seq::<char>::empty());
    while k < to
        invariant
            from <= k <= to <= v.len(),
            digits == v@.subrange(from as int, to as int),
            all_digits(digits.take(k - from)),
            amount == capped_value(digits.take(k - from)),
        decreases to - k,
    {
        let c = v[k];
        if !is_digit_char(c) {
            assert(!is_digit(digits[k - from]));
            return None;
        }
        let d = value_of_digit(c);
        proof {
            let t = digits.take(k - from + 1);
            assert(t.drop_last() =~= digits.take(k - from));
            assert(t.last() == c);
        }
        let wide: u128 = amount as u128 * 10 + d as u128;
        if wide > u64::MAX as u128 {
            amount = u64::MAX;
        } else {
            amount = wide as u64;
        }
        k += 1;
    }
    assert(digits.take(to - from) =~= digits);
    Some(amount)
}


/// `c` in lower case, if it is a capital letter of ASCII.
pub open spec fn lower_ascii_char(c: char) -> char {
    if 'A' <= c && c <= 'Z' {
        ((c as u32) + 32) as char
    } else {
        c
    }
}

/// `s` with the capital letters of ASCII in lower case.
pub open spec fn lower_ascii(s: Seq<char>) -> Seq<char> {
    s.map_values(|c: char| lower_ascii_char(c))
}

/// `c` in lower case, see [`lower_ascii_char`].
pub fn to_lower_ascii(c: char) -> (l: char)
    ensures
        l == lower_ascii_char(c),
{
    if 'A' <= c && c <= 'Z' {
        ((c as u32 + 32) as u8) as char
    } else {
        c
    }
}

/// Whether two texts are the same but for the case of the letters of
/// ASCII.
pub fn eq_ignore_ascii_case(a: &str, b: &str) -> (same: bool)
    ensures
        same == (lower_ascii(a@) == lower_ascii(b@)),
{
    let x = chars_of(a);
    let y = chars_of(b);
    if x.len() != y.len() {
        assert(lower_ascii(a@).len() != lower_ascii(b@).len());
        return false;
    }
    let mut i: usize = 0;
    while i < x.len()
        invariant
            i <= x.len(),
            x.len() == y.len(),
            x@ == a@,
            y@ == b@,
            forall|k: int| 0 <= k < i ==> lower_ascii_char(x@[k]) == lower_ascii_char(y@[k]),
        decreases x.len() - i,
    {
        if to_lower_ascii(x[i]) != to_lower_ascii(y[i]) {
            assert(lower_ascii(a@)[i as int] != lower_ascii(b@)[i as int]);
            return false;
        }
        i += 1;
    }
    assert(lower_ascii(a@) =~= lower_ascii(b@));
    true
}

/// `needle` stands in `s` at position `i`.
pub open spec fn occurs_at(s: Seq<char>, needle: Seq<char>, i: int) -> bool {
    0 <= i && i + needle.len() <= s.len() && s.subrange(i, i + needle.len()) == needle
}

/// `needle` stands somewhere in `s`.
pub open spec fn contains_text(s: Seq<char>, needle: Seq<char>) -> bool {
    exists|i: int| occurs_at(s, needle, i)
}

/// Whether `needle` stands somewhere in `s`.
pub fn contains(s: &str, needle: &str) -> (found: bool)
    ensures
        found == contains_text(s@, needle@),
{
    let v = chars_of(s);
    let n = chars_of(needle);
    if n.len() > v.len() {
        return false;
    }
    let mut i: usize = 0;
    while i <= v.len() - n.len()
        invariant
            n.len() <= v.len(),
            i <= v.len() - n.len() + 1,
            v@ == s@,
            n@ == needle@,
            forall|k: int| 0 <= k < i ==> !occurs_at(v@, n@, k),
        decreases v.len() - n.len() + 1 - i,
    {
        let mut j: usize = 0;
        while j < n.len() && v[i + j] == n[j]
            invariant
                j <= n.len(),
                i + n.len() <= v.len(),
                v@.subrange(i as int, i + j) =~= n@.take(j as int),
            decreases n.len() - j,
        {
            assert(v@.subrange(i as int, i + j + 1) =~= v@.subrange(i as int, i + j).push(
                v@[i + j],
            ));
            assert(n@.take(j + 1) =~= n@.take(j as int).push(n@[j as int]));
            j += 1;
        }
        if j == n.len() {
            assert(n@.take(j as int) =~= n@);
            assert(occurs_at(v@, n@, i as int));
            return true;
        }
        assert(!occurs_at(v@, n@, i as int)) by {
            if occurs_at(v@, n@, i as int) {
                assert(v@.subrange(i as int, i + n.len())[j as int] == n@[j as int]);
            }
        }
        i += 1;
    }
    false
}

/// `s` in lower case as Unicode has it, which is what `str::to_lowercase`
/// of std gives.
pub uninterp spec fn unicode_lowercase(s: Seq<char>) -> Seq<char>;

/// `str::to_lowercase` of std: the text in lower case, by the rules of
/// Unicode.
#[verifier::external_body]
pub(crate) fn to_lowercase(s: &str) -> (lower: String)
    ensures
        lower@ == unicode_lowercase(s@),
{
    s.to_lowercase()
}


/// The number up to `max` that a text denotes the way `str::parse` reads
/// unsigned numbers: one or more digits, with or without a `+` before
/// them.
pub open spec fn unsigned_spec(s: Seq<char>, max: u64) -> Option<u64> {
    let digits = if s.len() > 0 && s[0] == '+' {
        s.subrange(1, s.len() as int)
    } else {
        s
    };
    if digits.len() > 0 && all_digits(digits) && decimal_value(digits) <= max {
        Some(decimal_value(digits) as u64)
    } else {
        None
    }
}

/// Reads an unsigned number up to `max`, see [`unsigned_spec`].
pub fn parse_unsigned(text: &str, max: u64) -> (number: Option<u64>)
    requires
        max < u64::MAX,
    ensures
        number == unsigned_spec(text@, max),
{
    let v = chars_of(text);
    let from: usize = if v.len() > 0 && v[0] == '+' {
        1
    } else {
        0
    };
    assert(v@.subrange(0, v.len() as int) =~= v@);
    match read_decimal(&v, from, v.len()) {
        Some(n) => if n <= max {
            Some(n)
        } else {
            None
        },
        None => None,
    }
}


/// The two texts are the same but for the case of the letters of ASCII.
pub open spec fn same_word(a: Seq<char>, b: Seq<char>) -> bool {
    lower_ascii(a) == lower_ascii(b)
}


/// The white space of ASCII.
pub open spec fn is_space(c: char) -> bool {
    c == ' ' || c == '\t' || c == '\n' || c == '\r' || c == '\x0b' || c == '\x0c'
}

/// Whether `c` is white space of ASCII.
pub fn is_space_char(c: char) -> (b: bool)
    ensures
        b == is_space(c),
{
    c == ' ' || c == '\t' || c == '\n' || c == '\r' || c == '\x0b' || c == '\x0c'
}


/// `s` without the white space of ASCII at its ends.
pub open spec fn trimmed(s: Seq<char>) -> Seq<char>
    decreases s.len(),
{
    if s.len() > 0 && is_space(s[0]) {
        trimmed(s.drop_first())
    } else if s.len() > 0 && is_space(s.last()) {
        trimmed(s.drop_last())
    } else {
        s
    }
}


/// `s` without the white space of ASCII at its ends, see [`trimmed`].
pub fn trim(s: &str) -> (t: String)
    ensures
        t@ == trimmed(s@),
{
    let v = chars_of(s);
    let mut from: usize = 0;
    assert(v@.subrange(0, v.len() as int) =~= v@);
    while from < v.len() && is_space_char(v[from])
        invariant
            from <= v.len(),
            trimmed(v@) == trimmed(v@.subrange(from as int, v.len() as int)),
        decreases v.len() - from,
    {
        proof {
            let t = v@.subrange(from as int, v.len() as int);
            assert(t.drop_first() =~= v@.subrange(from + 1, v.len() as int));
        }
        from += 1;
    }
    let mut to: usize = v.len();
    while to > from && is_space_char(v[to - 1])
        invariant
            from <= to <= v.len(),
            from < v.len() ==> !is_space(v@[from as int]),
            trimmed(v@) == trimmed(v@.subrange(from as int, to as int)),
        decreases to - from,
    {
        proof {
            let t = v@.subrange(from as int, to as int);
            assert(t.drop_last() =~= v@.subrange(from as int, to - 1));
            assert(t[0] == v@[from as int]);
        }
        to -= 1;
    }
    proof {
        let word = v@.subrange(from as int, to as int);
        if from < to {
            assert(word[0] == v@[from as int]);
            assert(word.last() == v@[to - 1]);
        }
        assert(trimmed(word) == word);
    }
    let mut t = String::new();
    push_range(&mut t, &v, from, to);
    t
}



/// `s` ends with `suffix`.
pub open spec fn is_suffix(suffix: Seq<char>, s: Seq<char>) -> bool {
    suffix.len() <= s.len() && s.subrange(s.len() - suffix.len(), s.len() as int) == suffix
}

/// Whether `v` begins with `prefix`.
pub fn has_prefix(v: &Vec<char>, prefix: &Vec<char>) -> (b: bool)
    ensures
        b == prefix@.is_prefix_of(v@),
{
    if prefix.len() > v.len() {
        return false;
    }
    let mut i: usize = 0;
    while i < prefix.len()
        invariant
            i <= prefix.len() <= v.len(),
            prefix@.take(i as int) =~= v@.take(i as int),
        decreases prefix.len() - i,
    {
        if prefix[i] != v[i] {
            assert(prefix@[i as int] != v@.subrange(0, prefix.len() as int)[i as int]);
            return false;
        }
        assert(prefix@.take(i + 1) =~= prefix@.take(i as int).push(prefix@[i as int]));
        assert(v@.take(i + 1) =~= v@.take(i as int).push(v@[i as int]));
        i += 1;
    }
    assert(prefix@.take(prefix.len() as int) =~= prefix@);
    true
}

/// Whether `s` begins with `prefix`.
pub fn starts_with(s: &str, prefix: &str) -> (b: bool)
    ensures
        b == prefix@.is_prefix_of(s@),
{
    let v = chars_of(s);
    let p = chars_of(prefix);
    has_prefix(&v, &p)
}

/// Whether `s` ends with `suffix`.
pub fn ends_with(s: &str, suffix: &str) -> (b: bool)
    ensures
        b == is_suffix(suffix@, s@),
{
    let v = chars_of(s);
    let p = chars_of(suffix);
    if p.len() > v.len() {
        return false;
    }
    let start = v.len() - p.len();
    let mut i: usize = 0;
    while i < p.len()
        invariant
            i <= p.len() <= v.len(),
            v@ == s@,
            p@ == suffix@,
            start == v.len() - p.len(),
            p@.take(i as int) =~= v@.subrange(start as int, start + i),
        decreases p.len() - i,
    {
        if p[i] != v[start + i] {
            assert(p@[i as int] != v@.subrange(start as int, v.len() as int)[i as int]);
            return false;
        }
        assert(p@.take(i + 1) =~= p@.take(i as int).push(p@[i as int]));
        assert(v@.subrange(start as int, start + i + 1) =~= v@.subrange(
            start as int,
            start + i,
        ).push(v@[start + i]));
        i += 1;
    }
    assert(p@.take(p.len() as int) =~= p@);
    true
}

/// `line` without a carriage return at its end.
pub open spec fn strip_cr(line: Seq<char>) -> Seq<char> {
    if line.len() > 0 && line.last() == '\r' {
        line.drop_last()
    } else {
        line
    }
}

/// The lines of a text. A line ends with a line feed, before which a
/// carriage return may stand; what follows the last line feed is a line
/// too unless it is empty.
pub open spec fn lines_of(s: Seq<char>) -> Seq<Seq<char>> {
    let parts = split_on(s, '\n');
    let whole = parts.drop_last().map_values(|l: Seq<char>| strip_cr(l));
    if parts.last().len() == 0 {
        whole
    } else {
        whole.push(parts.last())
    }
}

/// The lines of a text, see [`lines_of`].
pub fn lines(s: &str) -> (r: Vec<String>)
    ensures
        views(r@) == lines_of(s@),
{
    let parts = split(s, '\n');
    proof {
        lemma_split_on_len(s@, '\n');
    }
    let ghost whole = views(parts@).drop_last().map_values(|l: Seq<char>| strip_cr(l));
    let n = parts.len() - 1;
    let mut r: Vec<String> = Vec::new();
    let mut i: usize = 0;
    assert(views(r@) =~= whole.take(0));
    while i < n
        invariant
            i <= n,
            n == parts.len() - 1,
            whole == views(parts@).drop_last().map_values(|l: Seq<char>| strip_cr(l)),
            views(r@) == whole.take(i as int),
        decreases n - i,
    {
        let v = chars_of(parts[i].as_str());
        assert(views(parts@)[i as int] == v@);
        let end = if v.len() > 0 && v[v.len() - 1] == '\r' {
            v.len() - 1
        } else {
            v.len()
        };
        let mut line = String::new();
        push_range(&mut line, &v, 0, end);
        assert(line@ =~= strip_cr(v@));
        let ghost before = views(r@);
        r.push(line);
        assert(views(r@) =~= before.push(strip_cr(v@)));
        assert(views(r@) =~= whole.take(i + 1));
        i += 1;
    }
    assert(whole.take(n as int) =~= whole);
    assert(views(parts@).last() == parts@[n as int]@);
    if parts[n].as_str().unicode_len() > 0 {
        let ghost before = views(r@);
        r.push(parts[n].clone());
        assert(views(r@) =~= before.push(parts@[n as int]@));
    }
    r
}


/// Whether two texts are the same.
pub fn equal_texts(a: &str, b: &str) -> (same: bool)
    ensures
        same == (a@ == b@),
{
    let x = a.to_owned();
    let y = b.to_owned();
    x == y
}

/// Whether `name` is among `files`.
pub fn holds_name(files: &Vec<String>, name: &str) -> (found: bool)
    ensures
        found == views(files@).contains(name@),
{
    let mut i: usize = 0;
    while i < files.len()
        invariant
            i <= files.len(),
            forall|k: int| 0 <= k < i ==> views(files@)[k] != name@,
        decreases files.len() - i,
    {
        if equal_texts(files[i].as_str(), name) {
            assert(views(files@)[i as int] == name@);
            return true;
        }
        i += 1;
    }
    false
}


} // verus!
