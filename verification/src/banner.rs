//! The box of stars shown when the program starts, and the place of the
//! lines in it.

use vstd::prelude::*;

verus! {

/// `n` times the character `c`.
pub open spec fn repeated(c: char, n: nat) -> Seq<char> {
    Seq::new(n, |i: int| c)
}

/// The larger of two lengths.
pub open spec fn longer(a: int, b: int) -> int {
    if a >= b {
        a
    } else {
        b
    }
}

/// Width of the box: that of the longest of the four lines, and two
/// stars and two spaces more.
pub open spec fn width_spec(title: int, subtitle: int, version: int, developer: int) -> int {
    longer(title, longer(subtitle, longer(version, developer))) + 4
}

/// Width of the box for lines of these lengths, see [`width_spec`];
/// `None` where it does not fit.
pub fn banner_width(title: usize, subtitle: usize, version: usize, developer: usize) -> (width:
    Option<usize>)
    ensures
        width == if width_spec(title as int, subtitle as int, version as int, developer as int)
            <= usize::MAX {
            Some(
                width_spec(title as int, subtitle as int, version as int, developer as int) as usize,
            )
        } else {
            None
        },
{
    let mut longest = title;
    if subtitle > longest {
        longest = subtitle;
    }
    if version > longest {
        longest = version;
    }
    if developer > longest {
        longest = developer;
    }
    longest.checked_add(4)
}

/// Number of spaces on either side of a line of length `length` in a box
/// of width `width`: half of what the line and the two stars leave, and
/// none where they leave nothing.
pub open spec fn padding_spec(width: int, length: int) -> int {
    if length + 2 <= width {
        (width - length - 2) / 2
    } else {
        0
    }
}

/// `n` times the character `c`.
pub fn repeat(c: char, n: usize) -> (s: String)
    ensures
        s@ == repeated(c, n as nat),
{
    let mut s = String::new();
    let mut i: usize = 0;
    while i < n
        invariant
            i <= n,
            s@ == repeated(c, i as nat),
        decreases n - i,
    {
        let ghost before = s@;
        s.push(c);
        assert(s@ =~= repeated(c, (i + 1) as nat));
        i += 1;
    }
    s
}

/// The spaces on either side of a line of length `length` in a box of
/// width `width`, see [`padding_spec`].
pub fn side_padding(width: usize, length: usize) -> (spaces: String)
    ensures
        spaces@ == repeated(' ', padding_spec(width as int, length as int) as nat),
{
    if length <= width && width - length >= 2 {
        repeat(' ', (width - length - 2) / 2)
    } else {
        repeat(' ', 0)
    }
}

/// The upper and the lower edge of a box of width `width`.
pub fn border(width: usize) -> (edge: String)
    ensures
        edge@ == repeated('*', width as nat),
{
    repeat('*', width)
}

/// What stands between the stars of an empty line of a box of width
/// `width`.
pub fn blank(width: usize) -> (spaces: String)
    ensures
        spaces@ == repeated(
            ' ',
            if width >= 2 {
                (width - 2) as nat
            } else {
                0
            },
        ),
{
    if width >= 2 {
        repeat(' ', width - 2)
    } else {
        repeat(' ', 0)
    }
}

} // verus!
