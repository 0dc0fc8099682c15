//! The options given on the command line, as plain values.

use vstd::prelude::*;
use vstd::string::*;

use crate::text::equal_texts;

verus! {

/// The options of the subcommand that runs: those with a value, and the
/// switches that are set.
#[derive(Clone, Debug, PartialEq, Eq)]
pub struct ArgValues {
    /// Name and value of each option that has a value.
    pub values: Vec<(String, String)>,
    /// Names of the switches that are set.
    pub flags: Vec<String>,
}

/// The value of the first of `values` named `flag`.
pub open spec fn value_of(values: Seq<(String, String)>, flag: Seq<char>) -> Option<Seq<char>>
    decreases values.len(),
{
    if values.len() == 0 {
        None
    } else if values[0].0@ == flag {
        Some(values[0].1@)
    } else {
        value_of(values.drop_first(), flag)
    }
}

/// One of `flags` is `flag`.
pub open spec fn is_set(flags: Seq<String>, flag: Seq<char>) -> bool {
    exists|i: int| 0 <= i < flags.len() && (#[trigger] flags[i])@ == flag
}

/// The value of the option `flag`, or `fallback` where the option was not
/// given or no subcommand runs.
pub fn clap_get_one_or_fallback(args: Option<&ArgValues>, flag: &str, fallback: &str) -> (value:
    String)
    ensures
        value@ == match args {
            Some(a) => match value_of(a.values@, flag@) {
                Some(v) => v,
                None => fallback@,
            },
            None => fallback@,
        },
{
    match args {
        Some(a) => {
            let mut i: usize = 0;
            assert(a.values@.subrange(0, a.values@.len() as int) =~= a.values@);
            while i < a.values.len()
                invariant
                    args == Some(a),
                    i <= a.values.len(),
                    value_of(a.values@, flag@) == value_of(
                        a.values@.subrange(i as int, a.values@.len() as int),
                        flag@,
                    ),
                decreases a.values.len() - i,
            {
                let ghost rest = a.values@.subrange(i as int, a.values@.len() as int);
                assert(rest[0] == a.values@[i as int]);
                assert(rest.drop_first() =~= a.values@.subrange(i + 1, a.values@.len() as int));
                if equal_texts(a.values[i].0.as_str(), flag) {
                    let value = a.values[i].1.clone();
                    assert(rest[0].0@ == flag@);
                    assert(value_of(rest, flag@) == Some(value@));
                    return value;
                }
                i += 1;
            }
            fallback.to_owned()
        },
        None => fallback.to_owned(),
    }
}

/// Whether the switch `flag` is set; `false` where no subcommand runs.
pub fn clap_get_flag_or_false(args: Option<&ArgValues>, flag: &str) -> (set: bool)
    ensures
        set == match args {
            Some(a) => is_set(a.flags@, flag@),
            None => false,
        },
{
    match args {
        Some(a) => {
            let mut i: usize = 0;
            while i < a.flags.len()
                invariant
                    args == Some(a),
                    i <= a.flags.len(),
                    forall|k: int| 0 <= k < i ==> (#[trigger] a.flags@[k])@ != flag@,
                decreases a.flags.len() - i,
            {
                if equal_texts(a.flags[i].as_str(), flag) {
                    assert(a.flags@[i as int]@ == flag@);
                    return true;
                }
                i += 1;
            }
            false
        },
        None => false,
    }
}


/// The channel asked for, or `fallback` where none is.
pub fn get_channel_or_fallback(args: Option<&ArgValues>, fallback: &String) -> (channel: String)
    ensures
        channel@ == match args {
            Some(a) => match value_of(a.values@, "channel"@) {
                Some(v) => v,
                None => fallback@,
            },
            None => fallback@,
        },
{
    clap_get_one_or_fallback(args, "channel", fallback.as_str())
}

} // verus!
