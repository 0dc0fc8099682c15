//! What follows a finished bundle: pruning, the question before the
//! upload, the upload, pruning on the remote side, and the removal of
//! the local bundle.

use vstd::prelude::*;
use crate::text::{eq_ignore_ascii_case, same_word, trim, trimmed};

verus! {

/// What was asked for beside the backup itself.
#[derive(Clone, Copy, Debug, PartialEq, Eq, Structural)]
pub struct FollowUp {
    /// Prune the backup directory.
    pub prune_local: bool,
    /// Upload the bundle.
    pub upload: bool,
    /// Ask before uploading.
    pub ask_before_upload: bool,
    /// Prune the remote directory after the upload.
    pub prune_remote: bool,
    /// Delete the local bundle after the upload.
    pub delete_after_upload: bool,
}

/// A stage of the follow-up.
#[derive(Clone, Copy, Debug, PartialEq, Eq, Structural)]
pub enum Stage {
    PruneLocal,
    Confirm,
    Upload,
    PruneRemote,
    DeleteLocal,
    End,
}

impl FollowUp {
    /// The stage after local pruning, or the first where none was asked
    /// for.
    pub open spec fn after_pruning(self) -> Stage {
        if !self.upload {
            Stage::End
        } else if self.ask_before_upload {
            Stage::Confirm
        } else {
            Stage::Upload
        }
    }

    /// The stage after remote pruning, or after the upload where none was
    /// asked for.
    pub open spec fn after_remote_pruning(self) -> Stage {
        if self.delete_after_upload {
            Stage::DeleteLocal
        } else {
            Stage::End
        }
    }

    /// The stage that follows `last`, which went well or not (for the
    /// question: was answered with yes or not). `None` stands for the
    /// finished bundle.
    ///
    /// Pruning goes on to the next stage however it went. An upload that
    /// was declined or failed ends the follow-up, so that the local bundle
    /// stays.
    pub open spec fn next_stage_spec(self, last: Option<Stage>, ok: bool) -> Stage {
        match last {
            None => if self.prune_local {
                Stage::PruneLocal
            } else {
                self.after_pruning()
            },
            Some(Stage::PruneLocal) => self.after_pruning(),
            Some(Stage::Confirm) => if ok {
                Stage::Upload
            } else {
                Stage::End
            },
            Some(Stage::Upload) => if !ok {
                Stage::End
            } else if self.prune_remote {
                Stage::PruneRemote
            } else {
                self.after_remote_pruning()
            },
            Some(Stage::PruneRemote) => self.after_remote_pruning(),
            Some(Stage::DeleteLocal) => Stage::End,
            Some(Stage::End) => Stage::End,
        }
    }

    /// The stage that follows `last`, see [`FollowUp::next_stage_spec`].
    pub fn next_stage(&self, last: Option<Stage>, ok: bool) -> (next: Stage)
        ensures
            next == self.next_stage_spec(last, ok),
    {
        let after_pruning = if !self.upload {
            Stage::End
        } else if self.ask_before_upload {
            Stage::Confirm
        } else {
            Stage::Upload
        };
        let after_remote_pruning = if self.delete_after_upload {
            Stage::DeleteLocal
        } else {
            Stage::End
        };
        match last {
            None => if self.prune_local {
                Stage::PruneLocal
            } else {
                after_pruning
            },
            Some(Stage::PruneLocal) => after_pruning,
            Some(Stage::Confirm) => if ok {
                Stage::Upload
            } else {
                Stage::End
            },
            Some(Stage::Upload) => if !ok {
                Stage::End
            } else if self.prune_remote {
                Stage::PruneRemote
            } else {
                after_remote_pruning
            },
            Some(Stage::PruneRemote) => after_remote_pruning,
            Some(Stage::DeleteLocal) => Stage::End,
            Some(Stage::End) => Stage::End,
        }
    }
}

/// The local bundle is deleted only where that was asked for and the
/// bundle has been uploaded and verified; the remote side is pruned only
/// after such an upload; and nothing is uploaded that was not asked for.
pub proof fn lemma_bundle_survives_failure(plan: FollowUp, last: Option<Stage>, ok: bool)
    ensures
        plan.next_stage_spec(last, ok) == Stage::DeleteLocal ==> plan.delete_after_upload && (last
            == Some(Stage::Upload) && ok || last == Some(Stage::PruneRemote)),
        plan.next_stage_spec(last, ok) == Stage::PruneRemote ==> plan.prune_remote && last == Some(
            Stage::Upload,
        ) && ok,
        plan.next_stage_spec(last, ok) == Stage::Upload ==> (last == Some(Stage::Confirm) && ok)
            || (plan.upload && !plan.ask_before_upload),
{
}

/// The answer that a line of input gives to a question: yes for `y` or
/// `yes`, no for `n` or `no`, in capital or small letters and with white
/// space around; none for anything else.
pub open spec fn answer_spec(line: Seq<char>) -> Option<bool> {
    let word = trimmed(line);
    if same_word(word, "y"@) || same_word(word, "yes"@) {
        Some(true)
    } else if same_word(word, "n"@) || same_word(word, "no"@) {
        Some(false)
    } else {
        None
    }
}

/// The answer that a line of input gives, see [`answer_spec`]. On `None`
/// the question is asked again.
pub fn parse_answer(line: &str) -> (answer: Option<bool>)
    ensures
        answer == answer_spec(line@),
{
    let word = trim(line);
    if eq_ignore_ascii_case(word.as_str(), "y") || eq_ignore_ascii_case(word.as_str(), "yes") {
        Some(true)
    } else if eq_ignore_ascii_case(word.as_str(), "n") || eq_ignore_ascii_case(
        word.as_str(),
        "no",
    ) {
        Some(false)
    } else {
        None
    }
}

} // verus!
