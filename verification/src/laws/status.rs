//! Where a project stands between this computer and its provider.
use vstd::prelude::*;

use crate::format::CommitSummary;
use crate::moment::Moment;
use crate::project::{LocalFiles, Project};
use crate::status::{ProjectAction, ProjectStatus, SyncDirection};
use crate::transfers::is_looked_at;

verus! {

/// Whether the project's record names the version it was backed up as.
pub open spec fn was_backed_up(files: LocalFiles) -> bool {
    files.sidecar is Some && files.sidecar->0.local_head is Some
}

/// Whether the project was saved after its record was written.
pub open spec fn saved_since(files: LocalFiles) -> bool {
    &&& files.modified_at is Some
    &&& files.sidecar_modified_at is Some
    &&& files.modified_at->0.nanos > files.sidecar_modified_at->0.nanos
}

/// The files tell whether work is safe: without a recorded version it never was,
/// with a save after the record it is not yet, and otherwise it is.
pub proof fn files_tell_whether_work_is_safe(files: LocalFiles)
    ensures
        files.disk_status() is NeverBackedUp <==> !was_backed_up(files),
        files.disk_status() == ProjectStatus::OutOfSync(SyncDirection::LocalAhead)
            <==> was_backed_up(files) && saved_since(files),
        files.disk_status() is Downloaded <==> was_backed_up(files) && !saved_since(files),
        files.backup_time() == (if was_backed_up(files) {
            files.sidecar_modified_at
        } else {
            None
        }),
{
}

/// Where the provider has another version than the one a project records, the
/// project is in conflict if and only if it was saved since its last backup, and
/// otherwise the provider is ahead.
pub proof fn a_moved_provider_conflicts_with_new_saves(
    before: Project,
    after: Project,
    history: Seq<CommitSummary>,
    files: LocalFiles,
    now: Moment,
)
    requires
        before.has_history_applied(after, history, files, now),
        before.live_set is Some,
        files.sidecar is Some,
        history.len() > 0,
        files.sidecar->0.local_head matches Some(head) ==> head.text@ != history[0].id.text@,
    ensures
        after.status is Conflicted <==> was_backed_up(files) && saved_since(files),
        !(was_backed_up(files) && saved_since(files)) ==> after.status
            == ProjectStatus::OutOfSync(SyncDirection::UpstreamAhead),
{
}

/// A history changes the status of nothing else: not of a project that is only
/// with its provider, nor of one without a record, nor where the newest version
/// is the recorded one or there is none.
pub proof fn a_known_provider_version_changes_no_status(
    before: Project,
    after: Project,
    history: Seq<CommitSummary>,
    files: LocalFiles,
    now: Moment,
)
    requires
        before.has_history_applied(after, history, files, now),
        before.live_set is None || files.sidecar is None || history.len() == 0 || (
        files.sidecar->0.local_head matches Some(head) && head.text@ == history[0].id.text@),
    ensures
        after.status == before.status,
{
}

/// A history is shown whole, newest version first and with the highest number,
/// and a link to a provider then names the newest version, with the same provider
/// and handle.
pub proof fn a_history_is_shown_whole(
    before: Project,
    after: Project,
    history: Seq<CommitSummary>,
    files: LocalFiles,
    now: Moment,
)
    requires
        before.has_history_applied(after, history, files, now),
    ensures
        after.versions@.len() == history.len(),
        forall|i: int|
            0 <= i < history.len() ==> (#[trigger] after.versions@[i]).id.text@
                == history[i].id.text@ && after.versions@[i].version@ == "v"@
                + crate::text::decimal((history.len() - i) as nat),
        forall|i: int|
            0 <= i < history.len() && !crate::text::is_blank(history[i].message@) ==> (
            #[trigger] after.versions@[i]).summary@ == history[i].message@,
        after.remote is Some <==> before.remote is Some,
        before.remote is Some ==> {
            &&& after.remote->0.provider_id@ == before.remote->0.provider_id@
            &&& after.remote->0.handle@ == before.remote->0.handle@
            &&& after.remote->0.head.text@ == (if history.len() > 0 {
                history[0].id.text@
            } else {
                before.remote->0.head.text@
            })
        },
        after.id == before.id,
        after.live_set == before.live_set,
        after.modified_at == before.modified_at,
        after.backed_up_at == before.backed_up_at,
        after.metadata == before.metadata,
{
    assert forall|i: int| 0 <= i < history.len() implies (#[trigger] after.versions@[i]).id.text@
        == history[i].id.text@ && after.versions@[i].version@ == "v"@ + crate::text::decimal(
        (history.len() - i) as nat,
    ) by {
        assert(crate::project::shows_version(
            after.versions@[i],
            history[i],
            history.len() - i,
            now,
        ));
    }
    assert forall|i: int|
        0 <= i < history.len() && !crate::text::is_blank(history[i].message@) implies (
    #[trigger] after.versions@[i]).summary@ == history[i].message@ by {
        assert(crate::project::shows_version(
            after.versions@[i],
            history[i],
            history.len() - i,
            now,
        ));
    }
}

/// Looking at the files again says what they say now, but for what they cannot
/// know: that a transfer runs, that the provider is ahead or in conflict, and that
/// the project is not here.
pub proof fn a_look_at_the_files_overrules_only_what_they_know(
    before: Project,
    after: Project,
    files: LocalFiles,
    now: Moment,
)
    requires
        is_looked_at(before, after, files, now),
    ensures
        before.live_set is None ==> after == before,
        before.live_set is Some ==> after.modified_at == files.modified_at,
        before.status is NotDownloaded || before.status is Syncing || before.status is Conflicted
            || before.status == ProjectStatus::OutOfSync(SyncDirection::UpstreamAhead)
            ==> after.status == before.status && after.backed_up_at == before.backed_up_at,
        before.live_set is Some && (before.status is NeverBackedUp || before.status is Downloaded
            || before.status == ProjectStatus::OutOfSync(SyncDirection::LocalAhead)) ==> {
            &&& after.status is NeverBackedUp <==> !was_backed_up(files)
            &&& after.status == ProjectStatus::OutOfSync(SyncDirection::LocalAhead)
                <==> was_backed_up(files) && saved_since(files)
            &&& after.status is Downloaded <==> was_backed_up(files) && !saved_since(files)
            &&& after.backed_up_at is Some ==> was_backed_up(files)
        },
        after.id == before.id,
        after.live_set == before.live_set,
        after.versions == before.versions,
        after.remote == before.remote,
        after.metadata == before.metadata,
{
}

/// What a project's button does brings the two sides together: work that is only
/// here is pushed, a newer version is pulled, what is only with the provider is
/// restored, a conflict is reviewed, and what is safe is opened.
pub proof fn every_action_brings_the_sides_together(status: ProjectStatus)
    ensures
        status.next_action() is Push <==> status is NeverBackedUp || status
            == ProjectStatus::OutOfSync(SyncDirection::LocalAhead),
        status.next_action() is Pull <==> status == ProjectStatus::OutOfSync(
            SyncDirection::UpstreamAhead,
        ),
        status.next_action() is Restore <==> status is NotDownloaded,
        status.next_action() is ReviewConflicts <==> status is Conflicted,
        status.next_action() is Open <==> status is Downloaded,
        status.next_action() is Wait <==> status is Syncing,
        status.next_action().transfers() <==> !(status is Downloaded || status is Syncing || status
            is Conflicted),
        status.wants_attention() <==> !(status is Downloaded || status is Syncing || status
            is NotDownloaded),
{
}

/// No two states of a project, and no two actions, are called the same.
pub proof fn states_are_told_apart(
    a: ProjectStatus,
    b: ProjectStatus,
    x: ProjectAction,
    y: ProjectAction,
)
    ensures
        a.label_text() == b.label_text() ==> a == b,
        x.label_text() == y.label_text() ==> x == y,
{
    reveal_strlit("Never backed up");
    reveal_strlit("Ready to restore");
    reveal_strlit("Downloaded");
    reveal_strlit("Syncing");
    reveal_strlit("Out of sync · local ahead");
    reveal_strlit("Out of sync · upstream ahead");
    reveal_strlit("Conflict");
    reveal_strlit("↓  RESTORE PROJECT");
    reveal_strlit("OPEN PROJECT");
    reveal_strlit("↑  BACK UP CHANGES");
    reveal_strlit("↓  DOWNLOAD LATEST");
    reveal_strlit("REVIEW CONFLICT");
    reveal_strlit("SYNCING…");
    assert("Never backed up"@.len() == 15);
    assert("Ready to restore"@.len() == 16);
    assert("Downloaded"@.len() == 10);
    assert("Syncing"@.len() == 7);
    assert("Out of sync · local ahead"@.len() == 25);
    assert("Out of sync · upstream ahead"@.len() == 28);
    assert("Conflict"@.len() == 8);
    assert("↓  RESTORE PROJECT"@.len() == 18);
    assert("OPEN PROJECT"@.len() == 12);
    assert("↑  BACK UP CHANGES"@.len() == 18);
    assert("↓  DOWNLOAD LATEST"@.len() == 18);
    assert("REVIEW CONFLICT"@.len() == 15);
    assert("SYNCING…"@.len() == 8);
    assert("↑  BACK UP CHANGES"@[0] != "↓  DOWNLOAD LATEST"@[0]);
    assert("↑  BACK UP CHANGES"@[0] != "↓  RESTORE PROJECT"@[0]);
    assert("↓  DOWNLOAD LATEST"@[3] != "↓  RESTORE PROJECT"@[3]);
}

/// The bar shows what is backed up: a transfer as far as it got, nothing for a
/// project that is not here, and the whole of every other.
pub proof fn the_bar_follows_the_transfer(project: Project)
    ensures
        project.status is Syncing ==> project.bar() == project.sync_progress,
        project.status is NotDownloaded ==> project.bar() == 0,
        !(project.status is Syncing) && !(project.status is NotDownloaded) ==> project.bar() == 100,
{
}

} // verus!
