//! How a verified restore takes its place.
//!
//! Publishing moves folders about one step at a time. [`Publication::next`]
//! decides, from how the last step went, which step comes next; performing the
//! steps is left to the caller.
use vstd::prelude::*;

use crate::restore::RestoreCollisionChoice;

verus! {

/// The step to perform next, or the end.
#[derive(Debug, PartialEq, Eq)]
pub enum PublishStage {
    /// Move the staging folder to the destination, where nothing lies.
    MoveIn,
    /// Check the files at the destination, which were moved in.
    CheckMovedIn,
    /// Move the destination back to the staging folder, as far as possible.
    Withdraw(String),
    /// Move what lies at the destination to the quarantine.
    Protect,
    /// Move the staging folder to the destination.
    Install,
    /// Move the quarantine back to the destination, as far as possible.
    PutBack(String),
    /// Copy what the restore lacks from the quarantine to the destination.
    Merge,
    /// Check the files at the destination.
    Check,
    /// Move the destination back to the staging folder.
    MoveAside(String),
    /// Move the quarantine back to the destination.
    GiveBack(String),
    /// Remove the quarantine.
    Discard,
    /// Published; what was there before may remain at a path.
    Done(Option<String>),
    Failed(String),
}

/// A step by its texts.
pub enum StageView {
    MoveIn,
    CheckMovedIn,
    Withdraw(Seq<char>),
    Protect,
    Install,
    PutBack(Seq<char>),
    Merge,
    Check,
    MoveAside(Seq<char>),
    GiveBack(Seq<char>),
    Discard,
    Done(Option<Seq<char>>),
    Failed(Seq<char>),
}

impl View for PublishStage {
    type V = StageView;

    open spec fn view(&self) -> StageView {
        match *self {
            PublishStage::MoveIn => StageView::MoveIn,
            PublishStage::CheckMovedIn => StageView::CheckMovedIn,
            PublishStage::Withdraw(error) => StageView::Withdraw(error@),
            PublishStage::Protect => StageView::Protect,
            PublishStage::Install => StageView::Install,
            PublishStage::PutBack(error) => StageView::PutBack(error@),
            PublishStage::Merge => StageView::Merge,
            PublishStage::Check => StageView::Check,
            PublishStage::MoveAside(error) => StageView::MoveAside(error@),
            PublishStage::GiveBack(error) => StageView::GiveBack(error@),
            PublishStage::Discard => StageView::Discard,
            PublishStage::Done(previous) => StageView::Done(crate::text::optional_view(previous)),
            PublishStage::Failed(error) => StageView::Failed(error@),
        }
    }
}

/// How a step went: the error where it failed.
pub open spec fn outcome_view(outcome: Result<(), String>) -> Option<Seq<char>> {
    match outcome {
        Ok(_) => None,
        Err(error) => Some(error@),
    }
}

/// A restore to publish.
#[derive(Debug)]
pub struct Publication {
    pub final_root: String,
    /// A free path for what lies at the destination.
    pub quarantine: String,
    pub collision: RestoreCollisionChoice,
}

fn said(start: &str, end: &str) -> (r: String)
    ensures
        r@ == start@ + end@,
{
    let mut out = start.to_owned();
    out.append(end);
    out
}

impl Publication {
    /// The first step, given whether something lies at the destination.
    pub open spec fn first_stage(self, exists: bool) -> StageView {
        if !exists {
            StageView::MoveIn
        } else if self.collision.replaces() {
            StageView::Protect
        } else {
            StageView::Failed(
                self.final_root@
                    + " appeared while the restore was being verified; nothing was overwritten"@,
            )
        }
    }

    /// The words for a replacement that failed and could not be undone.
    pub open spec fn stuck_text(self, error: Seq<char>, rollback: Seq<char>) -> Seq<char> {
        error + "; automatic rollback also failed: "@ + rollback
            + ". The previous copy remains at "@ + self.quarantine@
    }

    /// The step after a step that succeeded, or failed with an error.
    pub open spec fn stage_after(self, stage: StageView, failure: Option<Seq<char>>) -> StageView {
        match (stage, failure) {
            (StageView::MoveIn, None) => StageView::CheckMovedIn,
            (StageView::MoveIn, Some(error)) => StageView::Failed(
                "publish verified restore: "@ + error,
            ),
            (StageView::CheckMovedIn, None) => StageView::Done(None),
            (StageView::CheckMovedIn, Some(error)) => StageView::Withdraw(error),
            (StageView::Withdraw(error), _) => StageView::Failed(error),
            (StageView::Protect, None) => StageView::Install,
            (StageView::Protect, Some(error)) => StageView::Failed(
                "protect existing project before replacement: "@ + error,
            ),
            (StageView::Install, None) => if self.collision is Overwrite {
                StageView::Merge
            } else {
                StageView::Check
            },
            (StageView::Install, Some(error)) => StageView::PutBack(
                "install verified restore: "@ + error,
            ),
            (StageView::PutBack(error), _) => StageView::Failed(error),
            (StageView::Merge, None) => StageView::Check,
            (StageView::Merge, Some(error)) => StageView::MoveAside(error),
            (StageView::Check, None) => StageView::Discard,
            (StageView::Check, Some(error)) => StageView::MoveAside(error),
            (StageView::MoveAside(error), None) => StageView::GiveBack(error),
            (StageView::MoveAside(error), Some(rollback)) => StageView::Failed(
                self.stuck_text(error, "move failed restore aside: "@ + rollback),
            ),
            (StageView::GiveBack(error), None) => StageView::Failed(
                error + "; the existing project was restored unchanged"@,
            ),
            (StageView::GiveBack(error), Some(rollback)) => StageView::Failed(
                self.stuck_text(error, "put existing project back: "@ + rollback),
            ),
            (StageView::Discard, None) => StageView::Done(None),
            (StageView::Discard, Some(_)) => StageView::Done(Some(self.quarantine@)),
            (StageView::Done(previous), _) => StageView::Done(previous),
            (StageView::Failed(error), _) => StageView::Failed(error),
        }
    }

    /// The first step, given whether something lies at the destination.
    pub fn start(&self, exists: bool) -> (r: PublishStage)
        ensures
            r@ == self.first_stage(exists),
    {
        if !exists {
            return PublishStage::MoveIn;
        }
        match self.collision {
            RestoreCollisionChoice::AbortIfExists
            | RestoreCollisionChoice::Duplicate => PublishStage::Failed(
                said(
                    self.final_root.as_str(),
                    " appeared while the restore was being verified; nothing was overwritten",
                ),
            ),
            RestoreCollisionChoice::Overwrite
            | RestoreCollisionChoice::DeleteAndReplace => PublishStage::Protect,
        }
    }

    fn stuck(&self, error: &str, step: &str, rollback: &str) -> (r: PublishStage)
        ensures
            r@ == StageView::Failed(self.stuck_text(error@, step@ + rollback@)),
    {
        let mut message = said(error, "; automatic rollback also failed: ");
        message.append(said(step, rollback).as_str());
        message.append(". The previous copy remains at ");
        message.append(self.quarantine.as_str());
        PublishStage::Failed(message)
    }

    /// The step after a step, given how it went.
    pub fn next(&self, stage: PublishStage, outcome: Result<(), String>) -> (r: PublishStage)
        ensures
            r@ == self.stage_after(stage@, outcome_view(outcome)),
    {
        match (stage, outcome) {
            (PublishStage::MoveIn, Ok(())) => PublishStage::CheckMovedIn,
            (PublishStage::MoveIn, Err(error)) => PublishStage::Failed(
                said("publish verified restore: ", error.as_str()),
            ),
            (PublishStage::CheckMovedIn, Ok(())) => PublishStage::Done(None),
            (PublishStage::CheckMovedIn, Err(error)) => PublishStage::Withdraw(error),
            (PublishStage::Withdraw(error), _) => PublishStage::Failed(error),
            (PublishStage::Protect, Ok(())) => PublishStage::Install,
            (PublishStage::Protect, Err(error)) => PublishStage::Failed(
                said("protect existing project before replacement: ", error.as_str()),
            ),
            (PublishStage::Install, Ok(())) => {
                if self.collision == RestoreCollisionChoice::Overwrite {
                    PublishStage::Merge
                } else {
                    PublishStage::Check
                }
            },
            (PublishStage::Install, Err(error)) => PublishStage::PutBack(
                said("install verified restore: ", error.as_str()),
            ),
            (PublishStage::PutBack(error), _) => PublishStage::Failed(error),
            (PublishStage::Merge, Ok(())) => PublishStage::Check,
            (PublishStage::Merge, Err(error)) => PublishStage::MoveAside(error),
            (PublishStage::Check, Ok(())) => PublishStage::Discard,
            (PublishStage::Check, Err(error)) => PublishStage::MoveAside(error),
            (PublishStage::MoveAside(error), Ok(())) => PublishStage::GiveBack(error),
            (PublishStage::MoveAside(error), Err(rollback)) => self.stuck(
                error.as_str(),
                "move failed restore aside: ",
                rollback.as_str(),
            ),
            (PublishStage::GiveBack(error), Ok(())) => PublishStage::Failed(
                said(error.as_str(), "; the existing project was restored unchanged"),
            ),
            (PublishStage::GiveBack(error), Err(rollback)) => self.stuck(
                error.as_str(),
                "put existing project back: ",
                rollback.as_str(),
            ),
            (PublishStage::Discard, Ok(())) => PublishStage::Done(None),
            (PublishStage::Discard, Err(_)) => PublishStage::Done(Some(self.quarantine.clone())),
            (PublishStage::Done(previous), _) => PublishStage::Done(previous),
            (PublishStage::Failed(error), _) => PublishStage::Failed(error),
        }
    }
}

// ---------------------------------------------------------------------------
// Where the copies are
// ---------------------------------------------------------------------------

/// Where a copy of the project is.
pub enum Place {
    Staging,
    Destination,
    Quarantine,
    /// It was removed.
    Gone,
}

/// Where the copy that was there before is, and where the restored one is.
pub struct Copies {
    pub previous: Place,
    pub restored: Place,
}

/// Where the copies are after a step that succeeded: a move takes a copy from
/// one place to another, and removing the quarantine does away with the
/// previous copy. A step that failed moved nothing.
pub open spec fn copies_after(stage: StageView, copies: Copies, failure: Option<Seq<char>>) -> Copies {
    if failure is Some {
        copies
    } else {
        match stage {
            StageView::MoveIn | StageView::Install => Copies {
                restored: Place::Destination,
                ..copies
            },
            StageView::Withdraw(_) | StageView::MoveAside(_) => Copies {
                restored: Place::Staging,
                ..copies
            },
            StageView::Protect => Copies { previous: Place::Quarantine, ..copies },
            StageView::PutBack(_) | StageView::GiveBack(_) => Copies {
                previous: Place::Destination,
                ..copies
            },
            StageView::Discard => Copies { previous: Place::Gone, ..copies },
            _ => copies,
        }
    }
}

impl Publication {
    /// The step and the places of the copies after a number of steps, each of
    /// which succeeded or failed as `failures` says.
    pub open spec fn run(
        self,
        stage: StageView,
        copies: Copies,
        failures: Seq<Option<Seq<char>>>,
    ) -> (StageView, Copies)
        decreases failures.len(),
    {
        if failures.len() == 0 {
            (stage, copies)
        } else {
            let (before, places) = self.run(stage, copies, failures.drop_last());
            (
                self.stage_after(before, failures.last()),
                copies_after(before, places, failures.last()),
            )
        }
    }
}

/// Where the copies are at each step of a replacement.
pub open spec fn places_fit(stage: StageView, copies: Copies) -> bool {
    match stage {
        StageView::Protect => copies.previous is Destination && copies.restored is Staging,
        StageView::Install | StageView::PutBack(_) | StageView::GiveBack(_) => copies.previous
            is Quarantine && copies.restored is Staging,
        StageView::Merge
        | StageView::Check
        | StageView::MoveAside(_)
        | StageView::Discard => copies.previous is Quarantine && copies.restored is Destination,
        StageView::Done(None) => copies.previous is Gone && copies.restored is Destination,
        StageView::Done(Some(_)) => copies.previous is Quarantine && copies.restored is Destination,
        StageView::Failed(_) => {
            ||| copies.previous is Destination && copies.restored is Staging
            ||| copies.previous is Quarantine
        },
        StageView::MoveIn | StageView::CheckMovedIn | StageView::Withdraw(_) => false,
    }
}

/// An existing project is never lost: however the steps of its replacement go,
/// it is at the destination or in the quarantine until the restored copy has
/// been checked at the destination, and every move goes to a free place.
pub proof fn an_existing_project_is_never_lost(
    publication: Publication,
    failures: Seq<Option<Seq<char>>>,
)
    requires
        publication.collision.replaces(),
    ensures
        ({
            let start = Copies { previous: Place::Destination, restored: Place::Staging };
            let (stage, copies) = publication.run(publication.first_stage(true), start, failures);
            &&& places_fit(stage, copies)
            &&& copies.previous is Gone ==> stage is Done
            &&& stage is Done ==> copies.restored is Destination
        }),
    decreases failures.len(),
{
    if failures.len() > 0 {
        an_existing_project_is_never_lost(publication, failures.drop_last());
    }
}

/// The previous copy is only removed after the restored one was checked.
pub proof fn only_a_checked_restore_replaces(
    publication: Publication,
    stage: StageView,
    failure: Option<Seq<char>>,
)
    requires
        !(stage is Discard),
        publication.stage_after(stage, failure) is Discard,
    ensures
        stage is Check,
        failure is None,
{
}

/// Without leave to replace it, what lies at the destination is not touched.
pub proof fn nothing_is_overwritten_unasked(publication: Publication)
    requires
        !publication.collision.replaces(),
    ensures
        publication.first_stage(true) is Failed,
{
}

/// A replacement that fails its check and is undone leaves the existing
/// project where it was.
pub proof fn a_failed_check_is_undone(publication: Publication, error: Seq<char>, copies: Copies)
    requires
        places_fit(StageView::Check, copies),
    ensures
        ({
            let failures = seq![Some(error), None, None];
            let (stage, after) = publication.run(StageView::Check, copies, failures);
            &&& stage == StageView::Failed(error + "; the existing project was restored unchanged"@)
            &&& after.previous is Destination
            &&& after.restored is Staging
        }),
{
    let failures = seq![Some(error), None, None];
    reveal_with_fuel(Publication::run, 4);
    assert(failures.drop_last() =~= seq![Some(error), None]);
    assert(failures.drop_last().drop_last() =~= seq![Some(error)]);
    assert(failures.drop_last().drop_last().drop_last() =~= Seq::empty());
}

// ---------------------------------------------------------------------------
// Merging what was there into what was restored
// ---------------------------------------------------------------------------

/// What an entry is, links not followed.
#[derive(Clone, Copy, Debug, PartialEq, Eq, Structural)]
pub enum EntryKind {
    Folder,
    File,
    Symlink,
    Other,
}

/// What to do with an entry of the project that was there.
#[derive(Debug, PartialEq, Eq)]
pub enum MergeStep {
    /// Leave it: the restored project has its own.
    Keep,
    /// Merge what is in it.
    Enter,
    /// Create the folder and merge what is in it.
    CreateAndEnter,
    /// Copy the file and check the copy.
    Copy,
    Refuse(String),
}

/// Decide on an entry at `source`, given what the restored project has at its
/// place: whatever the restore brought stays, folders that both have are
/// merged, and a link cannot be merged safely.
pub fn copy_missing_entries(
    source: &str,
    kind: EntryKind,
    present: bool,
    present_is_folder: bool,
) -> (r: MergeStep)
    ensures
        present ==> r == (if kind is Folder && present_is_folder {
            MergeStep::Enter
        } else {
            MergeStep::Keep
        }),
        !present ==> match kind {
            EntryKind::Symlink => r is Refuse && r->Refuse_0@ == "cannot safely merge symlink "@
                + source@ + "; choose Keep both or Delete and replace instead"@,
            EntryKind::Folder => r is CreateAndEnter,
            EntryKind::File => r is Copy,
            EntryKind::Other => r is Keep,
        },
{
    if present {
        return if kind == EntryKind::Folder && present_is_folder {
            MergeStep::Enter
        } else {
            MergeStep::Keep
        };
    }
    match kind {
        EntryKind::Symlink => {
            let mut message = "cannot safely merge symlink ".to_owned();
            message.append(source);
            message.append("; choose Keep both or Delete and replace instead");
            MergeStep::Refuse(message)
        },
        EntryKind::Folder => MergeStep::CreateAndEnter,
        EntryKind::File => MergeStep::Copy,
        EntryKind::Other => MergeStep::Keep,
    }
}

} // verus!
