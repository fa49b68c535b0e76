//! When a project is backed up without being asked: once its latest save has
//! been left alone for a while.
use vstd::prelude::*;

use crate::moment::Moment;
use crate::text_map::TextMap;

verus! {

/// How long a save must be left alone, in seconds.
pub const QUIET_PERIOD: u32 = 300;

/// The filesystem facts the automatic-backup policy needs for one project.
#[derive(Debug)]
pub struct ProjectObservation {
    pub project_id: String,
    pub modified_at: Option<Moment>,
    pub backed_up_at: Option<Moment>,
    pub backup_destination_ready: bool,
    pub backup_blocked: bool,
}

/// Why a project is due.
#[derive(Clone, Copy, Debug, PartialEq, Eq, Structural)]
pub enum AutomaticBackupReason {
    SavedAfterLastBackup,
    SavedDuringPreviousBackup,
}

/// A project that is due for a backup.
#[derive(Debug, PartialEq, Eq)]
pub struct AutomaticBackupCandidate {
    pub project_id: String,
    pub reason: AutomaticBackupReason,
    /// The revision that completed the quiet period for this poll.
    pub qualified_revision: Moment,
}

/// Selects enrolled projects whose latest save has been quiet long enough.
#[derive(Debug)]
pub struct AutomaticBackupScheduler {
    attempted_revisions: TextMap<Moment>,
}

impl View for AutomaticBackupScheduler {
    type V = Map<Seq<char>, Moment>;

    closed spec fn view(&self) -> Map<Seq<char>, Moment> {
        self.attempted_revisions@
    }
}

impl Default for AutomaticBackupScheduler {
    fn default() -> (r: Self)
        ensures
            r@ == Map::<Seq<char>, Moment>::empty(),
    {
        AutomaticBackupScheduler { attempted_revisions: TextMap::new() }
    }
}

/// The map that holds the given revisions, a later one in place of an earlier.
pub open spec fn revisions_of(list: Seq<(String, Moment)>) -> Map<Seq<char>, Moment>
    decreases list.len(),
{
    if list.len() == 0 {
        Map::empty()
    } else {
        revisions_of(list.drop_last()).insert(list.last().0@, list.last().1)
    }
}

/// Whether a revision other than `modified_at` was handed over before.
pub open spec fn changed_during_attempt(
    attempted: Map<Seq<char>, Moment>,
    project_id: Seq<char>,
    modified_at: Moment,
) -> bool {
    attempted.dom().contains(project_id) && attempted[project_id] != modified_at
}

/// Whether a project is due at `now`, and why.
///
/// It is due when it can be backed up, has been backed up before, has a save
/// that no backup has been attempted with, that save is newer than the last
/// backup or was made during the last attempt, and it has been quiet.
pub open spec fn due(
    attempted: Map<Seq<char>, Moment>,
    now: Moment,
    project: ProjectObservation,
) -> Option<AutomaticBackupReason> {
    match (project.modified_at, project.backed_up_at) {
        (Some(modified_at), Some(backed_up_at)) => {
            let id = project.project_id@;
            let attempted_already = attempted.dom().contains(id) && attempted[id] == modified_at;
            let newer = modified_at.nanos > backed_up_at.nanos;
            let during = changed_during_attempt(attempted, id, modified_at);
            if project.backup_destination_ready && !project.backup_blocked && !attempted_already
                && (newer || during) && now.is_past(modified_at, QUIET_PERIOD as nat) {
                Some(
                    if newer {
                        AutomaticBackupReason::SavedAfterLastBackup
                    } else {
                        AutomaticBackupReason::SavedDuringPreviousBackup
                    },
                )
            } else {
                None
            }
        },
        _ => None,
    }
}

/// A candidate by its values: the project, the reason and the revision.
pub open spec fn candidate_view(
    candidate: AutomaticBackupCandidate,
) -> (Seq<char>, AutomaticBackupReason, Moment) {
    (candidate.project_id@, candidate.reason, candidate.qualified_revision)
}

/// Candidates by their values.
pub open spec fn candidate_views(
    list: Seq<AutomaticBackupCandidate>,
) -> Seq<(Seq<char>, AutomaticBackupReason, Moment)> {
    list.map_values(|c: AutomaticBackupCandidate| candidate_view(c))
}

/// The projects that are due, in the order they were observed.
pub open spec fn all_due(
    attempted: Map<Seq<char>, Moment>,
    now: Moment,
    observations: Seq<ProjectObservation>,
) -> Seq<(Seq<char>, AutomaticBackupReason, Moment)>
    decreases observations.len(),
{
    if observations.len() == 0 {
        Seq::empty()
    } else {
        let before = all_due(attempted, now, observations.drop_last());
        let last = observations.last();
        match due(attempted, now, last) {
            Some(reason) => before.push((last.project_id@, reason, last.modified_at->Some_0)),
            None => before,
        }
    }
}

impl AutomaticBackupScheduler {
    /// A scheduler that remembers the given revisions.
    pub fn from_attempted_revisions(revisions: Vec<(String, Moment)>) -> (r: Self)
        ensures
            r@ == revisions_of(revisions@),
    {
        let mut attempted_revisions: TextMap<Moment> = TextMap::new();
        let mut i: usize = 0;
        while i < revisions.len()
            invariant
                i <= revisions.len(),
                attempted_revisions@ == revisions_of(revisions@.take(i as int)),
            decreases revisions.len() - i,
        {
            attempted_revisions.insert(revisions[i].0.as_str(), revisions[i].1);
            i = i + 1;
            assert(revisions@.take(i as int).drop_last() == revisions@.take(i - 1));
        }
        assert(revisions@.take(i as int) == revisions@);
        AutomaticBackupScheduler { attempted_revisions }
    }

    /// Remember the exact file revision handed to the coordinator.
    pub fn record_backup_attempt(&mut self, project_id: &str, modified_at: Option<Moment>)
        ensures
            final(self)@ == (match modified_at {
                Some(at) => old(self)@.insert(project_id@, at),
                None => old(self)@,
            }),
    {
        if let Some(at) = modified_at {
            self.attempted_revisions.insert(project_id, at);
        }
    }

    /// Whether one project is due at `now`, and why.
    pub fn check(&self, now: Moment, project: &ProjectObservation) -> (r: Option<
        AutomaticBackupReason,
    >)
        ensures
            r == due(self@, now, *project),
    {
        if !project.backup_destination_ready || project.backup_blocked {
            return None;
        }
        match (project.modified_at, project.backed_up_at) {
            (Some(modified_at), Some(backed_up_at)) => {
                let attempted = self.attempted_revisions.get(project.project_id.as_str());
                let (already_attempted, during) = match attempted {
                    Some(revision) => (*revision == modified_at, *revision != modified_at),
                    None => (false, false),
                };
                let newer = modified_at.nanos > backed_up_at.nanos;
                if already_attempted || (!newer && !during) {
                    return None;
                }
                if !now.past(modified_at, QUIET_PERIOD) {
                    return None;
                }
                if newer {
                    Some(AutomaticBackupReason::SavedAfterLastBackup)
                } else {
                    Some(AutomaticBackupReason::SavedDuringPreviousBackup)
                }
            },
            _ => None,
        }
    }

    /// The projects that are due at `now`, in the order they were observed.
    pub fn poll(&self, now: Moment, observations: Vec<ProjectObservation>) -> (r: Vec<
        AutomaticBackupCandidate,
    >)
        ensures
            candidate_views(r@) == all_due(self@, now, observations@),
    {
        let mut ready: Vec<AutomaticBackupCandidate> = Vec::new();
        let mut i: usize = 0;
        while i < observations.len()
            invariant
                i <= observations.len(),
                candidate_views(ready@) == all_due(self@, now, observations@.take(i as int)),
            decreases observations.len() - i,
        {
            let project = &observations[i];
            assert(observations@.take(i + 1).drop_last() == observations@.take(i as int));
            let ghost before = candidate_views(ready@);
            match (self.check(now, project), project.modified_at) {
                (Some(reason), Some(modified_at)) => {
                    let candidate = AutomaticBackupCandidate {
                        project_id: project.project_id.clone(),
                        reason,
                        qualified_revision: modified_at,
                    };
                    let ghost view = candidate_view(candidate);
                    ready.push(candidate);
                    assert(candidate_views(ready@) == before.push(view));
                },
                _ => {},
            }
            i = i + 1;
        }
        assert(observations@.take(i as int) == observations@);
        ready
    }
}

/// A revision that was handed over is not selected again until the file changes.
pub proof fn one_attempt_per_revision(
    attempted: Map<Seq<char>, Moment>,
    now: Moment,
    project: ProjectObservation,
)
    requires
        project.modified_at is Some,
    ensures
        due(
            attempted.insert(project.project_id@, project.modified_at->Some_0),
            now,
            project,
        ) is None,
{
}

/// A project is never selected before its first backup, without a ready
/// destination, while a backup is blocked, or within the quiet period.
pub proof fn nothing_is_due_early(
    attempted: Map<Seq<char>, Moment>,
    now: Moment,
    project: ProjectObservation,
)
    requires
        due(attempted, now, project) is Some,
    ensures
        project.backed_up_at is Some,
        project.modified_at is Some,
        project.backup_destination_ready,
        !project.backup_blocked,
        now.nanos - project.modified_at->Some_0.nanos >= QUIET_PERIOD * 1_000_000_000,
{
}

/// A save made while an earlier revision was being backed up becomes due once
/// it is quiet, though the backup finished after it.
pub proof fn a_save_during_a_backup_is_not_lost(
    attempted: Map<Seq<char>, Moment>,
    now: Moment,
    project: ProjectObservation,
    handed_over: Moment,
)
    requires
        project.backup_destination_ready,
        !project.backup_blocked,
        project.backed_up_at is Some,
        project.modified_at matches Some(saved) && saved != handed_over && now.is_past(
            saved,
            QUIET_PERIOD as nat,
        ),
    ensures
        due(attempted.insert(project.project_id@, handed_over), now, project) is Some,
{
}

/// Recording a revision for one project changes nothing for the others.
pub proof fn attempts_do_not_interfere(
    attempted: Map<Seq<char>, Moment>,
    now: Moment,
    project: ProjectObservation,
    other: Seq<char>,
    revision: Moment,
)
    requires
        other != project.project_id@,
    ensures
        due(attempted.insert(other, revision), now, project) == due(attempted, now, project),
{
}

} // verus!
