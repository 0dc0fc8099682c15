//! The temporary directories of the tool: one for each running instance
//! under a common base, removed when the instance ends or after a day.

use vstd::prelude::*;
use vstd::string::*;
use crate::text::views;

verus! {

/// Seconds after which the directory of an instance is taken to be left
/// over.
pub const MAX_AGE_SECONDS: u64 = 86400;

/// A directory of an instance under the common base.
#[derive(Clone, Debug, PartialEq, Eq)]
pub struct InstanceDir {
    pub path: String,
    /// Seconds since the directory was last changed, where that is known
    /// and not in the future.
    pub age_seconds: Option<u64>,
}

/// The directory is older than a day.
pub open spec fn is_left_over(dir: InstanceDir) -> bool {
    dir.age_seconds matches Some(age) && age > MAX_AGE_SECONDS
}

/// The paths of those of `dirs` that are older than a day.
pub open spec fn left_over(dirs: Seq<InstanceDir>) -> Seq<Seq<char>>
    decreases dirs.len(),
{
    if dirs.len() == 0 {
        Seq::empty()
    } else if is_left_over(dirs.last()) {
        left_over(dirs.drop_last()).push(dirs.last().path@)
    } else {
        left_over(dirs.drop_last())
    }
}

/// The directories to remove when an instance ends: its own, if it has
/// made one, then those of `others` that are older than a day.
pub fn cleanup(own: Option<&str>, others: &Vec<InstanceDir>) -> (doomed: Vec<String>)
    ensures
        views(doomed@) == match own {
            Some(d) => seq![d@],
            None => Seq::empty(),
        } + left_over(others@),
{
    let mut doomed: Vec<String> = Vec::new();
    match own {
        Some(d) => {
            doomed.push(d.to_owned());
        },
        None => {},
    }
    let ghost head = views(doomed@);
    assert(head =~= match own {
        Some(d) => seq![d@],
        None => Seq::empty(),
    });
    let mut i: usize = 0;
    assert(others@.take(0) =~= Seq::<InstanceDir>::empty());
    assert(views(doomed@) =~= head + left_over(others@.take(0)));
    while i < others.len()
        invariant
            i <= others.len(),
            views(doomed@) == head + left_over(others@.take(i as int)),
        decreases others.len() - i,
    {
        let ghost before = views(doomed@);
        assert(others@.take(i + 1).drop_last() =~= others@.take(i as int));
        let old = match others[i].age_seconds {
            Some(age) => age > MAX_AGE_SECONDS,
            None => false,
        };
        if old {
            doomed.push(others[i].path.clone());
            assert(views(doomed@) =~= before.push(others@[i as int].path@));
        }
        assert(views(doomed@) =~= head + left_over(others@.take(i + 1)));
        i += 1;
    }
    assert(others@.take(others.len() as int) =~= others@);
    doomed
}

/// A new random UUID (version 4) of the `uuid` crate in its hyphenated
/// form, as `Uuid::new_v4().to_string()` gives it.
#[verifier::external_body]
fn new_uuid() -> (id: String) {
    uuid::Uuid::new_v4().to_string()
}

/// Name of a temporary file made with the identifier `id`.
pub open spec fn temp_name_spec(id: Seq<char>, extension: Seq<char>) -> Seq<char> {
    "limonium-"@ + id + extension
}

/// Name of a temporary file made with the identifier `id`.
pub fn temp_file_name(id: &str, extension: &str) -> (name: String)
    ensures
        name@ == temp_name_spec(id@, extension@),
{
    let mut name = "limonium-".to_owned();
    name.append(id);
    name.append(extension);
    name
}

/// A name for a temporary file, made with a new random identifier.
pub fn random_file_name(file_extension: &String) -> (name: String)
    ensures
        exists|id: Seq<char>| name@ == temp_name_spec(id, file_extension@),
{
    let id = new_uuid();
    let name = temp_file_name(id.as_str(), file_extension.as_str());
    assert(name@ == temp_name_spec(id@, file_extension@));
    name
}

} // verus!
