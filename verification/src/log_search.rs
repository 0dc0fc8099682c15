//! A search through the logs of the last days.

use vstd::prelude::*;
use vstd::string::*;
use crate::command::option_view;
use crate::text::{contains, contains_text, holds_name, push_decimal, views};

verus! {

/// What to search for, where, and how far back.
#[derive(Clone, Debug, PartialEq, Eq)]
pub struct LogSearch {
    pub days_back: u64,
    pub to_search: String,
    pub logs_dir: String,
}

/// Name of the log number `index` of the day `day`, as it lies unpacked.
pub open spec fn log_name_spec(day: Seq<char>, index: nat) -> Seq<char> {
    day + seq!['-'] + crate::text::decimal(index) + ".log"@
}

impl LogSearch {
    pub fn new(days_back: u64, to_search: String, logs_dir: String) -> (search: LogSearch)
        ensures
            search.days_back == days_back,
            search.to_search == to_search,
            search.logs_dir == logs_dir,
    {
        LogSearch { days_back, to_search, logs_dir }
    }

    /// Names of the log number `index` of the day `day`: unpacked, and
    /// packed with gzip.
    pub fn log_file_names(day: &str, index: u64) -> (names: (String, String))
        ensures
            names.0@ == log_name_spec(day@, index as nat),
            names.1@ == log_name_spec(day@, index as nat) + ".gz"@,
    {
        let mut plain = day.to_owned();
        plain.push('-');
        push_decimal(&mut plain, index);
        plain.append(".log");
        let mut packed = plain.clone();
        packed.append(".gz");
        (plain, packed)
    }

    /// The time span of the search in seconds; `None` where it does not
    /// fit.
    pub fn span_seconds(&self) -> (seconds: Option<u64>)
        ensures
            seconds == if self.days_back * 86400 <= u64::MAX {
                Some((self.days_back * 86400) as u64)
            } else {
                None
            },
    {
        self.days_back.checked_mul(86400)
    }
}


/// What a search has found so far in a log.
pub struct Found {
    /// The lines found, each with its number counted from 0.
    pub context: Seq<(nat, Seq<char>)>,
    /// The lines that were taken as lines before a match.
    pub seen_before: Seq<Seq<char>>,
    /// The lines that were taken as lines after a match.
    pub seen_after: Seq<Seq<char>>,
    /// Number of the last line that held the text looked for.
    pub last: nat,
}

/// The lines of a log as texts; `None` for a line that could not be read.
pub open spec fn line_views(lines: Seq<Option<String>>) -> Seq<Option<Seq<char>>> {
    lines.map_values(|l: Option<String>| option_view(l))
}

/// The lines found as numbers and texts.
pub open spec fn found_views(found: Seq<(usize, String)>) -> Seq<(nat, Seq<char>)> {
    found.map_values(|f: (usize, String)| (f.0 as nat, f.1@))
}

/// The lines taken for the numbers `k`, `k - 1`, ..., `low` before a
/// match, the log being read on from line `pos`: for each number as many
/// lines are passed over, the next one is taken under that number unless
/// its text was taken before, and reading goes on behind it. The taking
/// ends where the log does or a line cannot be read. Gives the texts
/// taken so far and the lines taken, the last first.
pub open spec fn context_before(
    lines: Seq<Option<Seq<char>>>,
    k: int,
    low: int,
    pos: int,
    seen: Seq<Seq<char>>,
    taken: Seq<(nat, Seq<char>)>,
) -> (Seq<Seq<char>>, Seq<(nat, Seq<char>)>)
    decreases k - low + 1,
{
    if k < low || low < 0 || pos < 0 {
        (seen, taken)
    } else if pos + k < lines.len() && lines[pos + k] is Some {
        let text = lines[pos + k].unwrap();
        if seen.contains(text) {
            context_before(lines, k - 1, low, pos + k + 1, seen, taken)
        } else {
            context_before(lines, k - 1, low, pos + k + 1, seen.push(text), taken.push((k as nat, text)))
        }
    } else {
        (seen, taken)
    }
}

/// What has been found once line `i` has been looked at, `so_far` having
/// been found in the lines before it.
///
/// A line that holds `needle` is found, and before it the lines that
/// [`context_before`] takes for the `before` numbers below its own, in
/// rising order, where there are that many numbers. A line without
/// `needle` is found where a match has been found before it, no more than
/// `after` lines back, and its text was not taken as a line after a match
/// before.
pub open spec fn looked_at(
    lines: Seq<Option<Seq<char>>>,
    needle: Seq<char>,
    before: u64,
    after: u64,
    so_far: Found,
    i: int,
) -> Found {
    match lines[i] {
        None => so_far,
        Some(text) => if contains_text(text, needle) {
            let (seen, taken) = if 1 <= before <= i {
                context_before(lines, i - 1, i - before, 0, so_far.seen_before, Seq::empty())
            } else {
                (so_far.seen_before, Seq::empty())
            };
            Found {
                context: (so_far.context + taken.reverse()).push((i as nat, text)),
                seen_before: seen,
                seen_after: so_far.seen_after,
                last: i as nat,
            }
        } else if so_far.context.len() > 0 && i - so_far.last <= after && !so_far.seen_after.contains(
            text,
        ) {
            Found {
                context: so_far.context.push((i as nat, text)),
                seen_before: so_far.seen_before,
                seen_after: so_far.seen_after.push(text),
                last: so_far.last,
            }
        } else {
            so_far
        },
    }
}

/// What has been found in the first `upto` lines.
pub open spec fn found_in(
    lines: Seq<Option<Seq<char>>>,
    needle: Seq<char>,
    before: u64,
    after: u64,
    upto: int,
) -> Found
    decreases upto,
{
    if upto <= 0 {
        Found { context: Seq::empty(), seen_before: Seq::empty(), seen_after: Seq::empty(), last: 0 }
    } else {
        looked_at(lines, needle, before, after, found_in(lines, needle, before, after, upto - 1), upto - 1)
    }
}

impl LogSearch {
    /// The lines of a log that hold the text looked for, with up to
    /// `lines_before` lines before and `lines_after` lines after each, see
    /// [`looked_at`]. Each line comes with its number, counted from 0.
    /// `lines` holds the lines of the log, `None` for one that could not
    /// be read.
    pub fn context(&self, lines: &Vec<Option<String>>, lines_before: u64, lines_after: u64) -> (found:
        Vec<(usize, String)>)
        ensures
            found_views(found@) == found_in(
                line_views(lines@),
                self.to_search@,
                lines_before,
                lines_after,
                lines.len() as int,
            ).context,
    {
        let ghost all = line_views(lines@);
        let mut context: Vec<(usize, String)> = Vec::new();
        let mut seen_before: Vec<String> = Vec::new();
        let mut seen_after: Vec<String> = Vec::new();
        let mut last: usize = 0;
        let mut i: usize = 0;
        assert(found_views(context@) =~= Seq::<(nat, Seq<char>)>::empty());
        assert(views(seen_before@) =~= Seq::<Seq<char>>::empty());
        assert(views(seen_after@) =~= Seq::<Seq<char>>::empty());
        while i < lines.len()
            invariant
                i <= lines.len(),
                all == line_views(lines@),
                last <= i,
                found_in(all, self.to_search@, lines_before, lines_after, i as int) == (Found {
                    context: found_views(context@),
                    seen_before: views(seen_before@),
                    seen_after: views(seen_after@),
                    last: last as nat,
                }),
            decreases lines.len() - i,
        {
            assert(all[i as int] == option_view(lines@[i as int]));
            match &lines[i] {
                None => {},
                Some(line) => {
                    if contains(line.as_str(), self.to_search.as_str()) {
                        let mut taken: Vec<(usize, String)> = Vec::new();
                        assert(found_views(taken@) =~= Seq::<(nat, Seq<char>)>::empty());
                        if lines_before >= 1 && lines_before <= i as u64 {
                            let low: usize = i - lines_before as usize;
                            let mut k: usize = i;
                            let mut pos: usize = 0;
                            let mut going = true;
                            let ghost start = views(seen_before@);
                            while k > low && going
                                invariant
                                    low <= k <= i < lines.len(),
                                    all == line_views(lines@),
                                    pos <= lines.len(),
                                    context_before(
                                        all,
                                        i - 1,
                                        low as int,
                                        0,
                                        start,
                                        Seq::empty(),
                                    ) == if going {
                                        context_before(
                                            all,
                                            k - 1,
                                            low as int,
                                            pos as int,
                                            views(seen_before@),
                                            found_views(taken@),
                                        )
                                    } else {
                                        (views(seen_before@), found_views(taken@))
                                    },
                                decreases k - low + if going {
                                    1int
                                } else {
                                    0int
                                },
                            {
                                let number = k - 1;
                                if number >= lines.len() - pos {
                                    going = false;
                                } else {
                                    let at = pos + number;
                                    assert(all[at as int] == option_view(lines@[at as int]));
                                    match &lines[at] {
                                        None => {
                                            going = false;
                                        },
                                        Some(text) => {
                                            if !holds_name(&seen_before, text.as_str()) {
                                                let ghost seen = views(seen_before@);
                                                let ghost so_far = found_views(taken@);
                                                seen_before.push(text.clone());
                                                taken.push((number, text.clone()));
                                                assert(views(seen_before@) =~= seen.push(text@));
                                                assert(found_views(taken@) =~= so_far.push(
                                                    (number as nat, text@),
                                                ));
                                            }
                                            pos = at + 1;
                                            k -= 1;
                                        },
                                    }
                                }
                            }
                            assert(context_before(all, i - 1, low as int, 0, start, Seq::empty()) == (
                                views(seen_before@),
                                found_views(taken@),
                            ));
                        }
                        let ghost earlier = found_views(context@);
                        let ghost fresh = found_views(taken@);
                        let mut j: usize = taken.len();
                        assert(fresh.reverse().take(0) =~= Seq::<(nat, Seq<char>)>::empty());
                        assert(found_views(context@) =~= earlier + fresh.reverse().take(0));
                        while j > 0
                            invariant
                                j <= taken.len(),
                                fresh == found_views(taken@),
                                found_views(context@) == earlier + fresh.reverse().take(
                                    taken.len() - j,
                                ),
                            decreases j,
                        {
                            j -= 1;
                            let ghost shown = found_views(context@);
                            context.push((taken[j].0, taken[j].1.clone()));
                            assert(found_views(context@) =~= shown.push(fresh[j as int]));
                            assert(fresh.reverse()[taken.len() - 1 - j] == fresh[j as int]);
                            assert(found_views(context@) =~= earlier + fresh.reverse().take(
                                taken.len() - j,
                            ));
                        }
                        assert(fresh.reverse().take(taken.len() as int) =~= fresh.reverse());
                        let ghost shown = found_views(context@);
                        context.push((i, line.clone()));
                        assert(found_views(context@) =~= shown.push((i as nat, line@)));
                        last = i;
                    } else if context.len() > 0 && (i - last) as u64 <= lines_after && !holds_name(
                        &seen_after,
                        line.as_str(),
                    ) {
                        let ghost shown = found_views(context@);
                        let ghost seen = views(seen_after@);
                        context.push((i, line.clone()));
                        seen_after.push(line.clone());
                        assert(found_views(context@) =~= shown.push((i as nat, line@)));
                        assert(views(seen_after@) =~= seen.push(line@));
                    }
                },
            }
            i += 1;
        }
        context
    }
}

} // verus!
