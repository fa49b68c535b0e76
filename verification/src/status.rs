//! The state of a project, and what can be done about it.
use vstd::prelude::*;

use crate::moment::Moment;

verus! {

/// Which side has work the other side has not seen.
#[derive(Clone, Copy, Debug, PartialEq, Eq, Structural)]
pub enum SyncDirection {
    LocalAhead,
    UpstreamAhead,
}

/// Where a project stands between this computer and its provider.
#[derive(Clone, Copy, Debug, PartialEq, Eq, Structural)]
pub enum ProjectStatus {
    /// On this computer and nowhere else.
    NeverBackedUp,
    NotDownloaded,
    Downloaded,
    Syncing,
    OutOfSync(SyncDirection),
    Conflicted,
}

/// What a project's button does.
#[derive(Clone, Copy, Debug, PartialEq, Eq, Structural)]
pub enum ProjectAction {
    Restore,
    Open,
    Push,
    Pull,
    ReviewConflicts,
    /// Nothing, while a transfer runs.
    Wait,
}

impl ProjectStatus {
    /// The status that the files show: never backed up without a recorded
    /// commit, behind where the project was saved after the record was
    /// written, and otherwise safe. Without both times there is nothing to
    /// compare, and the last thing known is that a backup was made.
    pub open spec fn on_disk(
        has_commit: bool,
        project: Option<Moment>,
        record: Option<Moment>,
    ) -> ProjectStatus {
        if !has_commit {
            ProjectStatus::NeverBackedUp
        } else {
            match (project, record) {
                (Some(saved), Some(backed_up)) => if saved.nanos > backed_up.nanos {
                    ProjectStatus::OutOfSync(SyncDirection::LocalAhead)
                } else {
                    ProjectStatus::Downloaded
                },
                _ => ProjectStatus::Downloaded,
            }
        }
    }

    /// Work out a project's state from what is on disk: whether its record
    /// names a commit, and when the project and the record were last written.
    pub fn read_from_disk(
        has_commit: bool,
        project: Option<Moment>,
        record: Option<Moment>,
    ) -> (r: Self)
        ensures
            r == Self::on_disk(has_commit, project, record),
    {
        if !has_commit {
            return ProjectStatus::NeverBackedUp;
        }
        match (project, record) {
            (Some(saved), Some(backed_up)) => {
                if saved.nanos > backed_up.nanos {
                    ProjectStatus::OutOfSync(SyncDirection::LocalAhead)
                } else {
                    ProjectStatus::Downloaded
                }
            },
            _ => ProjectStatus::Downloaded,
        }
    }

    pub open spec fn label_text(self) -> Seq<char> {
        match self {
            ProjectStatus::NeverBackedUp => "Never backed up"@,
            ProjectStatus::NotDownloaded => "Ready to restore"@,
            ProjectStatus::Downloaded => "Downloaded"@,
            ProjectStatus::Syncing => "Syncing"@,
            ProjectStatus::OutOfSync(SyncDirection::LocalAhead) => "Out of sync · local ahead"@,
            ProjectStatus::OutOfSync(SyncDirection::UpstreamAhead) =>
                "Out of sync · upstream ahead"@,
            ProjectStatus::Conflicted => "Conflict"@,
        }
    }

    pub fn label(self) -> (r: &'static str)
        ensures
            r@ == self.label_text(),
    {
        match self {
            ProjectStatus::NeverBackedUp => "Never backed up",
            ProjectStatus::NotDownloaded => "Ready to restore",
            ProjectStatus::Downloaded => "Downloaded",
            ProjectStatus::Syncing => "Syncing",
            ProjectStatus::OutOfSync(SyncDirection::LocalAhead) => "Out of sync · local ahead",
            ProjectStatus::OutOfSync(SyncDirection::UpstreamAhead) =>
                "Out of sync · upstream ahead",
            ProjectStatus::Conflicted => "Conflict",
        }
    }

    pub open spec fn next_action(self) -> ProjectAction {
        match self {
            ProjectStatus::NeverBackedUp => ProjectAction::Push,
            ProjectStatus::NotDownloaded => ProjectAction::Restore,
            ProjectStatus::Downloaded => ProjectAction::Open,
            ProjectStatus::Syncing => ProjectAction::Wait,
            ProjectStatus::OutOfSync(SyncDirection::LocalAhead) => ProjectAction::Push,
            ProjectStatus::OutOfSync(SyncDirection::UpstreamAhead) => ProjectAction::Pull,
            ProjectStatus::Conflicted => ProjectAction::ReviewConflicts,
        }
    }

    pub fn action(self) -> (r: ProjectAction)
        ensures
            r == self.next_action(),
    {
        match self {
            ProjectStatus::NeverBackedUp => ProjectAction::Push,
            ProjectStatus::NotDownloaded => ProjectAction::Restore,
            ProjectStatus::Downloaded => ProjectAction::Open,
            ProjectStatus::Syncing => ProjectAction::Wait,
            ProjectStatus::OutOfSync(SyncDirection::LocalAhead) => ProjectAction::Push,
            ProjectStatus::OutOfSync(SyncDirection::UpstreamAhead) => ProjectAction::Pull,
            ProjectStatus::Conflicted => ProjectAction::ReviewConflicts,
        }
    }

    pub open spec fn wants_attention(self) -> bool {
        self is NeverBackedUp || self is OutOfSync || self is Conflicted
    }

    pub fn needs_attention(self) -> (r: bool)
        ensures
            r == self.wants_attention(),
    {
        matches!(
            self,
            ProjectStatus::NeverBackedUp | ProjectStatus::OutOfSync(_) | ProjectStatus::Conflicted
        )
    }
}

impl ProjectAction {
    pub open spec fn label_text(self) -> Seq<char> {
        match self {
            ProjectAction::Restore => "↓  RESTORE PROJECT"@,
            ProjectAction::Open => "OPEN PROJECT"@,
            ProjectAction::Push => "↑  BACK UP CHANGES"@,
            ProjectAction::Pull => "↓  DOWNLOAD LATEST"@,
            ProjectAction::ReviewConflicts => "REVIEW CONFLICT"@,
            ProjectAction::Wait => "SYNCING…"@,
        }
    }

    pub fn label(self) -> (r: &'static str)
        ensures
            r@ == self.label_text(),
    {
        match self {
            ProjectAction::Restore => "↓  RESTORE PROJECT",
            ProjectAction::Open => "OPEN PROJECT",
            ProjectAction::Push => "↑  BACK UP CHANGES",
            ProjectAction::Pull => "↓  DOWNLOAD LATEST",
            ProjectAction::ReviewConflicts => "REVIEW CONFLICT",
            ProjectAction::Wait => "SYNCING…",
        }
    }

    pub open spec fn transfers(self) -> bool {
        self is Restore || self is Push || self is Pull
    }

    pub fn starts_transfer(self) -> (r: bool)
        ensures
            r == self.transfers(),
    {
        matches!(self, ProjectAction::Restore | ProjectAction::Push | ProjectAction::Pull)
    }
}

/// Whatever asks for attention has something to do about it, and a transfer in
/// flight starts no other.
pub proof fn attention_has_an_action(status: ProjectStatus)
    ensures
        status.wants_attention() ==> status.next_action() is Push || status.next_action() is Pull
            || status.next_action() is ReviewConflicts,
        status is Syncing ==> !status.next_action().transfers(),
{
}

} // verus!
