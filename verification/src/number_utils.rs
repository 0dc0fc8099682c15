//! Sorting of version numbers such as `1.20` and `1.20.4`.

use vstd::prelude::*;
use vstd::string::*;
use crate::order::{count_before, lemma_place_bound, lemma_places_differ, orders};
use crate::text::{parse_unsigned, split, split_on, unsigned_spec, views};

verus! {

/// Which version numbers a list holds.
#[derive(Clone, Copy, Debug, PartialEq, Eq, Structural)]
pub enum VersionShape {
    /// Major and minor number.
    OneDecimal,
    /// Major, minor and patch number.
    TwoDecimals,
    /// Major and minor number, with or without a patch number.
    OneOrTwoDecimals,
}

/// Major, minor and patch number of a version.
pub type VersionKey = (u32, u32, Option<u32>);

/// The number that a part of a version denotes.
pub open spec fn part_spec(s: Seq<char>) -> Option<u32> {
    match unsigned_spec(s, 0xffff_ffff) {
        Some(n) => Some(n as u32),
        None => None,
    }
}

/// The numbers of the version `s`, its parts being separated by `.`.
/// What follows the patch number is not looked at, nor the patch number
/// itself where only major and minor number are asked for.
pub open spec fn version_key(s: Seq<char>, shape: VersionShape) -> Option<VersionKey> {
    let parts = split_on(s, '.');
    let patched = shape == VersionShape::TwoDecimals || (shape == VersionShape::OneOrTwoDecimals
        && parts.len() > 2);
    if parts.len() < 2 || (patched && parts.len() < 3) {
        None
    } else {
        match (part_spec(parts[0]), part_spec(parts[1])) {
            (Some(major), Some(minor)) => if !patched {
                Some((major, minor, None))
            } else {
                match part_spec(parts[2]) {
                    Some(patch) => Some((major, minor, Some(patch))),
                    None => None,
                }
            },
            _ => None,
        }
    }
}

/// Every item of `versions` is a version of the shape asked for.
pub open spec fn all_versions(versions: Seq<Seq<char>>, shape: VersionShape) -> bool {
    forall|i: int| 0 <= i < versions.len() ==> (#[trigger] version_key(versions[i], shape)) is Some
}

/// The patch number as it counts in the order: a version without one
/// comes before every version with one.
pub open spec fn patch_rank(patch: Option<u32>) -> int {
    match patch {
        Some(p) => p + 1,
        None => 0,
    }
}

/// Version `a` is lower than version `b`: by the major number, then the
/// minor number, then the patch number.
pub open spec fn key_below(a: VersionKey, b: VersionKey) -> bool {
    a.0 < b.0 || (a.0 == b.0 && (a.1 < b.1 || (a.1 == b.1 && patch_rank(a.2) < patch_rank(b.2))))
}

/// Item `j` comes before item `i` once the versions are in rising order:
/// it is lower, or as high and earlier in the list.
pub open spec fn version_before(versions: Seq<Seq<char>>, shape: VersionShape) -> spec_fn(
    int,
    int,
) -> bool {
    |j: int, i: int|
        0 <= j < versions.len() && 0 <= i < versions.len() && {
            let a = version_key(versions[j], shape).unwrap();
            let b = version_key(versions[i], shape).unwrap();
            key_below(a, b) || (!key_below(b, a) && j < i)
        }
}

/// The place of item `i` once the versions are in rising order: the
/// number of items that come before it.
pub open spec fn place_of(versions: Seq<Seq<char>>, shape: VersionShape, i: int) -> int {
    count_before(version_before(versions, shape), i, versions.len() as int) as int
}

/// `sorted` holds the items of `versions` in rising order, those of one
/// height in the order they had.
pub open spec fn is_sorted_form(
    sorted: Seq<Seq<char>>,
    versions: Seq<Seq<char>>,
    shape: VersionShape,
) -> bool {
    &&& sorted.len() == versions.len()
    &&& forall|i: int|
        0 <= i < versions.len() ==> 0 <= #[trigger] place_of(versions, shape, i) < versions.len()
            && sorted[place_of(versions, shape, i)] == versions[i]
}

/// `sorted` holds the items of `versions` in falling order: the rising
/// order read from its end.
pub open spec fn is_reverse_sorted_form(
    sorted: Seq<Seq<char>>,
    versions: Seq<Seq<char>>,
    shape: VersionShape,
) -> bool {
    &&& sorted.len() == versions.len()
    &&& forall|i: int|
        0 <= i < versions.len() ==> 0 <= #[trigger] place_of(versions, shape, i) < versions.len()
            && sorted[versions.len() - 1 - place_of(versions, shape, i)] == versions[i]
}

/// Reads one part of a version.
fn parse_part(text: &str) -> (r: Option<u32>)
    ensures
        r == part_spec(text@),
{
    match parse_unsigned(text, 0xffff_ffff) {
        Some(n) => Some(n as u32),
        None => None,
    }
}

/// The numbers of a version, see [`version_key`].
pub fn parse_version(version: &str, shape: VersionShape) -> (key: Option<VersionKey>)
    ensures
        key == version_key(version@, shape),
{
    let parts = split(version, '.');
    let patched = match shape {
        VersionShape::OneDecimal => false,
        VersionShape::TwoDecimals => true,
        VersionShape::OneOrTwoDecimals => parts.len() > 2,
    };
    if parts.len() < 2 || (patched && parts.len() < 3) {
        return None;
    }
    assert(views(parts@)[0] == parts@[0]@);
    assert(views(parts@)[1] == parts@[1]@);
    match (parse_part(parts[0].as_str()), parse_part(parts[1].as_str())) {
        (Some(major), Some(minor)) => {
            if !patched {
                Some((major, minor, None))
            } else {
                assert(views(parts@)[2] == parts@[2]@);
                match parse_part(parts[2].as_str()) {
                    Some(patch) => Some((major, minor, Some(patch))),
                    None => None,
                }
            }
        },
        _ => None,
    }
}

/// The numbers of every item of `versions`; `None` unless every item is a
/// version of the shape asked for.
pub fn parse_versions(versions: &Vec<String>, shape: VersionShape) -> (keys: Option<
    Vec<VersionKey>,
>)
    ensures
        keys is Some <==> all_versions(views(versions@), shape),
        keys matches Some(k) ==> k.len() == versions.len() && forall|i: int|
            0 <= i < k.len() ==> Some(#[trigger] k[i]) == version_key(views(versions@)[i], shape),
{
    let mut keys: Vec<VersionKey> = Vec::new();
    let mut i: usize = 0;
    while i < versions.len()
        invariant
            i <= versions.len(),
            keys.len() == i,
            forall|k: int|
                0 <= k < i ==> Some(#[trigger] keys[k]) == version_key(views(versions@)[k], shape),
        decreases versions.len() - i,
    {
        assert(views(versions@)[i as int] == versions@[i as int]@);
        match parse_version(versions[i].as_str(), shape) {
            Some(key) => {
                keys.push(key);
            },
            None => {
                assert(version_key(views(versions@)[i as int], shape) is None);
                return None;
            },
        }
        i += 1;
    }
    assert forall|k: int| 0 <= k < versions.len() implies (#[trigger] version_key(
        views(versions@)[k],
        shape,
    )) is Some by {
        assert(Some(keys[k]) == version_key(views(versions@)[k], shape));
    }
    Some(keys)
}

/// Whether version `a` is lower than version `b`, see [`key_below`].
fn is_below(a: &VersionKey, b: &VersionKey) -> (below: bool)
    ensures
        below == key_below(*a, *b),
{
    if a.0 != b.0 {
        return a.0 < b.0;
    }
    if a.1 != b.1 {
        return a.1 < b.1;
    }
    match (a.2, b.2) {
        (None, None) => false,
        (None, Some(_)) => true,
        (Some(_), None) => false,
        (Some(x), Some(y)) => x < y,
    }
}

proof fn lemma_version_order(versions: Seq<Seq<char>>, shape: VersionShape)
    ensures
        orders(version_before(versions, shape), |i: int| true, versions.len() as int),
{
}

/// Puts `versions` in rising order when `rising`, else in falling order.
fn sort_versions(versions: &mut Vec<String>, shape: VersionShape, rising: bool)
    requires
        all_versions(views(old(versions)@), shape),
    ensures
        rising ==> is_sorted_form(views(final(versions)@), views(old(versions)@), shape),
        !rising ==> is_reverse_sorted_form(views(final(versions)@), views(old(versions)@), shape),
{
    let n = versions.len();
    let keys = match parse_versions(versions, shape) {
        Some(keys) => keys,
        None => {
            return ;
        },
    };
    let ghost names = views(versions@);
    let ghost before = version_before(names, shape);
    proof {
        lemma_version_order(names, shape);
    }
    let mut sorted: Vec<String> = Vec::new();
    let mut k: usize = 0;
    while k < n
        invariant
            k <= n,
            sorted.len() == k,
        decreases n - k,
    {
        sorted.push(String::new());
        k += 1;
    }
    let mut i: usize = 0;
    while i < n
        invariant
            i <= n,
            n == versions.len(),
            keys.len() == n,
            sorted.len() == n,
            names == views(versions@),
            before == version_before(names, shape),
            orders(before, |i: int| true, n as int),
            forall|k: int|
                0 <= k < n ==> Some(#[trigger] keys[k]) == version_key(names[k], shape),
            forall|k: int|
                0 <= k < i ==> {
                    let p = #[trigger] place_of(names, shape, k);
                    0 <= p < n && views(sorted@)[if rising {
                        p
                    } else {
                        n - 1 - p
                    }] == names[k]
                },
        decreases n - i,
    {
        let mut place: usize = 0;
        let mut j: usize = 0;
        while j < n
            invariant
                j <= n,
                i < n,
                keys.len() == n,
                n == names.len(),
                before == version_before(names, shape),
                forall|k: int|
                    0 <= k < n ==> Some(#[trigger] keys[k]) == version_key(names[k], shape),
                place <= j,
                place == count_before(before, i as int, j as int),
            decreases n - j,
        {
            let ahead = is_below(&keys[j], &keys[i]) || (!is_below(&keys[i], &keys[j]) && j < i);
            assert(ahead == before(j as int, i as int)) by {
                assert(Some(keys[j as int]) == version_key(names[j as int], shape));
                assert(Some(keys[i as int]) == version_key(names[i as int], shape));
            }
            if ahead {
                place += 1;
            }
            j += 1;
        }
        proof {
            lemma_place_bound(before, |i: int| true, n as int, i as int);
            assert forall|k: int| 0 <= k < i implies place_of(names, shape, k) != place by {
                lemma_places_differ(before, |i: int| true, n as int, k, i as int);
            }
        }
        let slot = if rising {
            place
        } else {
            n - 1 - place
        };
        let ghost earlier = views(sorted@);
        sorted.set(slot, versions[i].clone());
        assert(views(sorted@) =~= earlier.update(slot as int, names[i as int]));
        i += 1;
    }
    *versions = sorted;
}

/// Whether every item of `versions` has a major and a minor number, and
/// a patch number too where it has a third part. Only such lists can be
/// sorted.
pub fn is_version_list(versions: &Vec<String>) -> (ok: bool)
    ensures
        ok == all_versions(views(versions@), VersionShape::OneOrTwoDecimals),
{
    parse_versions(versions, VersionShape::OneOrTwoDecimals).is_some()
}

/// Sorts versions with or without patch number from the lowest to the
/// highest. A version without patch number comes before the same version
/// with one; versions of the same height keep their order.
pub fn sort_versions_one_decimal_and_two_decimal_lowest_to_highest(versions: &mut Vec<String>)
    requires
        all_versions(views(old(versions)@), VersionShape::OneOrTwoDecimals),
    ensures
        is_sorted_form(
            views(final(versions)@),
            views(old(versions)@),
            VersionShape::OneOrTwoDecimals,
        ),
{
    sort_versions(versions, VersionShape::OneOrTwoDecimals, true);
}

/// Sorts versions with or without patch number from the highest to the
/// lowest: the rising order read from its end.
pub fn sort_versions_one_decimal_and_two_decimal_highest_to_lowest(versions: &mut Vec<String>)
    requires
        all_versions(views(old(versions)@), VersionShape::OneOrTwoDecimals),
    ensures
        is_reverse_sorted_form(
            views(final(versions)@),
            views(old(versions)@),
            VersionShape::OneOrTwoDecimals,
        ),
{
    sort_versions(versions, VersionShape::OneOrTwoDecimals, false);
}

/// Sorts versions by major and minor number from the lowest to the
/// highest.
pub fn sort_versions_one_decimal_lowest_to_highest(versions: &mut Vec<String>)
    requires
        all_versions(views(old(versions)@), VersionShape::OneDecimal),
    ensures
        is_sorted_form(views(final(versions)@), views(old(versions)@), VersionShape::OneDecimal),
{
    sort_versions(versions, VersionShape::OneDecimal, true);
}

/// Sorts versions by major and minor number from the highest to the
/// lowest.
pub fn sort_versions_one_decimal_highest_to_lowest(versions: &mut Vec<String>)
    requires
        all_versions(views(old(versions)@), VersionShape::OneDecimal),
    ensures
        is_reverse_sorted_form(
            views(final(versions)@),
            views(old(versions)@),
            VersionShape::OneDecimal,
        ),
{
    sort_versions(versions, VersionShape::OneDecimal, false);
}

/// Sorts versions by major, minor and patch number from the lowest to
/// the highest.
pub fn sort_versions_two_decimal_lowest_to_highest(versions: &mut Vec<String>)
    requires
        all_versions(views(old(versions)@), VersionShape::TwoDecimals),
    ensures
        is_sorted_form(views(final(versions)@), views(old(versions)@), VersionShape::TwoDecimals),
{
    sort_versions(versions, VersionShape::TwoDecimals, true);
}

/// Sorts versions by major, minor and patch number from the highest to
/// the lowest.
pub fn sort_versions_two_decimal_highest_to_lowest(versions: &mut Vec<String>)
    requires
        all_versions(views(old(versions)@), VersionShape::TwoDecimals),
    ensures
        is_reverse_sorted_form(
            views(final(versions)@),
            views(old(versions)@),
            VersionShape::TwoDecimals,
        ),
{
    sort_versions(versions, VersionShape::TwoDecimals, false);
}

} // verus!
