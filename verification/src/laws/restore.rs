//! Restoring: from whom, to where, and what is left of what was there.
use vstd::prelude::*;

use crate::assets::{captured_paths, count_fetched, fetched_places, missing_count, native_place,
    unchecked, ManifestEntry};
use crate::backup::BackupStart;
use crate::format::CommitId;
use crate::laws::backup::{a_found_project_has_its_id, is_listed, provider_index_is_first};
use crate::library::{listed_projects_are_found, project_index, WatchedFolder};
use crate::manager::ProjectManager;
use crate::names::{numbered, staging_start};
use crate::path::{joined_path, lists_path, same_path, Platform};
use crate::project::Project;
use crate::publish::{Publication, StageView};
use crate::recovery::{enrols, restored_notice, with_restored_scan, ActionStep, RestoreJob,
    RestoreOffer};
use crate::restore::{entry_hashes, hash_holds, is_complete, resolves_to, tree_hashes, HashView,
    RestoreCollisionChoice, RestoreResult, TreeEntry};
use crate::restore_run::{RestoreRun, RestoreStage, RestoreStep};
use crate::status::{ProjectStatus, SyncDirection};
use crate::text::{decimal, views};
use crate::transfers::ContextView;

verus! {

// ---------------------------------------------------------------------------
// Asking for a version
// ---------------------------------------------------------------------------

/// A version is restored from the provider that has it: the one that the records
/// of a project on this computer name, and the one that lists a project that is
/// not. Without it nothing is restored. What is restored is the version that was
/// asked for, of the project it was asked of.
pub proof fn a_version_comes_from_its_provider(
    manager: ProjectManager,
    index: int,
    commit: CommitId,
    primary: Option<Seq<char>>,
    offer: RestoreOffer,
)
    requires
        0 <= index < manager.projects@.len(),
        manager.offers(index, commit, primary, offer),
    ensures
        ({
            let project = manager.projects@[index];
            let provider = if project.live_set is Some {
                primary
            } else if project.remote is Some {
                Some(project.remote->0.provider_id@)
            } else {
                None
            };
            &&& offer is ChooseFolder <==> provider is Some && is_listed(
                manager.providers@,
                provider->0,
            )
            &&& !(offer is ChooseFolder) ==> offer is Refused
            &&& offer matches RestoreOffer::ChooseFolder(job) ==> {
                &&& job.listing.entry.id@ == provider->0
                &&& job.commit == commit
                &&& job.project_id@ == project.id@
                &&& job.format == project.format
                &&& job.location == project.location
                &&& project.live_set is Some ==> job.project_path is Some && job.project_path->0@
                    == project.live_set->0@
                &&& project.live_set is None ==> job.project_path is None
                &&& project.remote is Some ==> job.remote is Some && job.remote->0.handle@
                    == project.remote->0.handle@
            }
        }),
{
    let project = manager.projects@[index];
    if project.live_set is Some {
        if primary is Some {
            provider_index_is_first(manager.providers@, primary->0);
        }
    } else if project.remote is Some {
        provider_index_is_first(manager.providers@, project.remote->0.provider_id@);
    }
}

/// A project's button does what its state calls for: work that is only here is
/// backed up, a project that is not here is restored at the provider's version, a
/// newer version is restored at the newest of its history, what is safe is opened
/// from where it lies, a conflict is shown, and during a transfer nothing happens.
pub proof fn a_button_does_what_the_state_calls_for(
    manager: ProjectManager,
    index: int,
    context: ContextView,
    after: ProjectManager,
    step: ActionStep,
)
    requires
        0 <= index < manager.projects@.len(),
        manager.acts(index, context, after, step),
    ensures
        ({
            let project = manager.projects@[index];
            match project.status {
                ProjectStatus::NeverBackedUp
                | ProjectStatus::OutOfSync(SyncDirection::LocalAhead) => step
                    matches ActionStep::Backup(launch) && manager.launches(
                    index,
                    BackupStart::Immediate,
                    context,
                    after,
                    launch,
                ),
                ProjectStatus::NotDownloaded => {
                    &&& after == manager
                    &&& project.remote is Some ==> step is Restore && (step->Restore_0
                        matches RestoreOffer::ChooseFolder(job) ==> job.commit
                        == project.remote->0.head)
                    &&& project.remote is None ==> step is Say
                },
                ProjectStatus::OutOfSync(SyncDirection::UpstreamAhead) => {
                    &&& after == manager
                    &&& project.versions@.len() > 0 ==> step is Restore && (step->Restore_0
                        matches RestoreOffer::ChooseFolder(job) ==> job.commit
                        == project.versions@[0].id)
                    &&& project.versions@.len() == 0 ==> step is Say
                },
                ProjectStatus::Downloaded => {
                    &&& after == manager
                    &&& project.live_set is Some ==> step is Open && step->path@
                        == project.live_set->0@
                    &&& project.live_set is None ==> step is Nothing
                },
                ProjectStatus::Conflicted => {
                    &&& after.projects == manager.projects
                    &&& after.state == manager.state
                    &&& !(step is Backup) && !(step is Restore) && !(step is Open)
                    &&& manager.pending_conflict is Some
                        && manager.pending_conflict->0.project_id@ == project.id@
                        ==> after.overlay.overlay is ConflictResolver
                },
                ProjectStatus::Syncing => after == manager && step is Nothing,
            }
        }),
{
}

// ---------------------------------------------------------------------------
// Where it goes
// ---------------------------------------------------------------------------

/// Whether something lies at a path.
pub open spec fn is_taken(taken: Seq<String>, path: Seq<char>) -> bool {
    exists|i: int| 0 <= i < taken.len() && (#[trigger] taken[i])@ == path
}

/// A restore goes to the folder that was asked for, or, to keep what lies there,
/// to one where nothing lies. It goes over something only where that was chosen,
/// and nowhere where nothing was.
pub proof fn a_restore_goes_over_nothing_unasked(
    on: Platform,
    requested: Seq<char>,
    collision: RestoreCollisionChoice,
    taken: Seq<String>,
    root: Seq<char>,
)
    requires
        resolves_to(on, requested, collision, taken, root),
    ensures
        is_taken(taken, root) ==> collision is Overwrite || collision is DeleteAndReplace,
        !is_taken(taken, requested) || collision is Overwrite || collision is DeleteAndReplace
            ==> root == requested,
        is_taken(taken, requested) ==> !(collision is AbortIfExists),
        is_taken(taken, requested) && collision is Duplicate ==> exists|n: nat|
            n >= 2 && root == #[trigger] numbered(
                crate::names::copy_start(on, requested),
                n,
                ")"@,
            ),
{
    if crate::text::holds_text(taken, requested) && collision is Duplicate {
        let start = crate::names::copy_start(on, requested);
        let n = choose|n: nat|
            #[trigger] crate::names::is_first_free(start, ")"@, 2, taken, n) && root == numbered(
                start,
                n,
                ")"@,
            );
        assert(n >= 2 && root == numbered(start, n, ")"@));
    }
}

/// To replace is to overwrite or to delete; to keep both, or to stop, is not.
pub proof fn only_two_choices_replace(collision: RestoreCollisionChoice)
    ensures
        collision.replaces() <==> collision is Overwrite || collision is DeleteAndReplace,
{
}

/// A restore that misses files is not put in the place of anything: neither where
/// files are overwritten nor where the folder is replaced.
pub proof fn missing_files_replace_nothing(run: RestoreRun, step: RestoreStep)
    requires
        run.wf(),
        run.goes_to(step),
        run.collision is Overwrite || run.collision is DeleteAndReplace,
    ensures
        run.stage is Publish ==> run.restored is Some && run.restored->0.unavailable == 0,
        step matches RestoreStep::Done(result) ==> result.unavailable == 0,
{
}

/// What lies at the destination is touched only where that was chosen, and it is
/// then moved away first, not removed.
pub proof fn what_is_there_is_moved_away_first(publication: Publication)
    ensures
        publication.collision is AbortIfExists || publication.collision is Duplicate
            ==> publication.first_stage(true) is Failed,
        publication.collision is Overwrite || publication.collision is DeleteAndReplace
            ==> publication.first_stage(true) is Protect,
        publication.first_stage(false) is MoveIn,
        publication.stage_after(StageView::Protect, None) is Install,
{
}

/// Overwriting keeps the files that the restore does not bring: they are copied
/// over before what was there is removed. Replacing does not keep them.
pub proof fn overwriting_keeps_other_files(
    publication: Publication,
    stage: StageView,
    failure: Option<Seq<char>>,
)
    ensures
        publication.collision is Overwrite ==> publication.stage_after(StageView::Install, None)
            is Merge,
        publication.collision is DeleteAndReplace ==> publication.stage_after(
            StageView::Install,
            None,
        ) is Check,
        publication.stage_after(stage, failure) is Check ==> (stage is Merge && failure is None) || (
        stage is Install && failure is None && !(publication.collision is Overwrite)),
        publication.stage_after(stage, failure) is Discard ==> stage is Check && failure is None,
{
}

/// A step that fails leads back: whatever failed once the previous copy was moved
/// away, the next steps put it back, or say where it lies.
pub proof fn every_failed_replacement_leads_back(publication: Publication, error: Seq<char>)
    ensures
        publication.stage_after(StageView::Install, Some(error)) is PutBack,
        publication.stage_after(StageView::Merge, Some(error)) is MoveAside,
        publication.stage_after(StageView::Check, Some(error)) is MoveAside,
        publication.stage_after(StageView::MoveAside(error), None) == StageView::GiveBack(error),
        publication.stage_after(StageView::CheckMovedIn, Some(error)) is Withdraw,
        publication.stage_after(StageView::Discard, Some(error)) == StageView::Done(
            Some(publication.quarantine@),
        ),
{
}

// ---------------------------------------------------------------------------
// What was restored
// ---------------------------------------------------------------------------

/// Whether a file with this hash lies at a path among some entries, at whatever
/// depth.
pub open spec fn lies_in(
    on: Platform,
    at: Seq<char>,
    entries: Seq<(String, TreeEntry)>,
    path: Seq<char>,
    hash: Seq<char>,
) -> bool
    decreases entries,
{
    exists|i: int|
        0 <= i < entries.len() && lies_at(
            on,
            joined_path(on, at, (#[trigger] entries[i]).0@),
            entries[i].1,
            path,
            hash,
        )
}

/// Whether an entry is a file with this hash at a path, or holds one.
pub open spec fn lies_at(
    on: Platform,
    here: Seq<char>,
    entry: TreeEntry,
    path: Seq<char>,
    hash: Seq<char>,
) -> bool
    decreases entry,
{
    match entry {
        TreeEntry::File(Ok(content)) => path == here && hash == content@,
        TreeEntry::Folder(entries) => lies_in(on, here, entries@, path, hash),
        _ => false,
    }
}

/// Whether a symlink, or a file that cannot be read, lies among some entries.
pub open spec fn are_spoilt(entries: Seq<(String, TreeEntry)>) -> bool
    decreases entries,
{
    exists|i: int| 0 <= i < entries.len() && is_spoilt((#[trigger] entries[i]).1)
}

/// Whether an entry is a symlink or a file that cannot be read, or holds one.
pub open spec fn is_spoilt(entry: TreeEntry) -> bool
    decreases entry,
{
    match entry {
        TreeEntry::Symlink => true,
        TreeEntry::File(read) => read is Err,
        TreeEntry::Folder(entries) => are_spoilt(entries@),
        TreeEntry::Other => false,
    }
}

/// A restored folder is hashed whole or not at all: a link in it, or a file that
/// cannot be read, stops the restore, at whatever depth. Otherwise every file in
/// it is recorded, at its path and with its hash, and nothing else is.
pub proof fn a_restored_folder_is_hashed_whole(
    on: Platform,
    entries: Seq<(String, TreeEntry)>,
    path: Seq<char>,
    hash: Seq<char>,
)
    ensures
        ({
            let hashes = tree_hashes(on, Seq::empty(), entries, Seq::empty());
            &&& hashes is Err <==> are_spoilt(entries)
            &&& hashes matches Ok(all) ==> (all.contains((path, hash)) <==> lies_in(
                on,
                Seq::empty(),
                entries,
                path,
                hash,
            ))
        }),
{
    entries_are_hashed(on, Seq::empty(), entries, Seq::empty(), path, hash);
}

proof fn entries_are_hashed(
    on: Platform,
    at: Seq<char>,
    entries: Seq<(String, TreeEntry)>,
    before: Seq<HashView>,
    path: Seq<char>,
    hash: Seq<char>,
)
    ensures
        ({
            let hashes = tree_hashes(on, at, entries, before);
            &&& hashes is Err <==> are_spoilt(entries)
            &&& hashes matches Ok(all) ==> (all.contains((path, hash)) <==> before.contains(
                (path, hash),
            ) || lies_in(on, at, entries, path, hash))
        }),
    decreases entries,
{
    if entries.len() > 0 {
        let rest = entries.drop_first();
        let here = joined_path(on, at, entries[0].0@);
        entry_is_hashed(on, here, entries[0].1, before, path, hash);
        assert(are_spoilt(entries) <==> is_spoilt(entries[0].1) || are_spoilt(rest)) by {
            if are_spoilt(entries) {
                let i = choose|i: int| 0 <= i < entries.len() && is_spoilt((#[trigger] entries[i]).1);
                if i > 0 {
                    assert(rest[i - 1] == entries[i]);
                }
            }
            if are_spoilt(rest) {
                let i = choose|i: int| 0 <= i < rest.len() && is_spoilt((#[trigger] rest[i]).1);
                assert(entries[i + 1] == rest[i]);
            }
        }
        assert(lies_in(on, at, entries, path, hash) <==> lies_at(
            on,
            here,
            entries[0].1,
            path,
            hash,
        ) || lies_in(on, at, rest, path, hash)) by {
            if lies_in(on, at, entries, path, hash) {
                let i = choose|i: int|
                    0 <= i < entries.len() && lies_at(
                        on,
                        joined_path(on, at, (#[trigger] entries[i]).0@),
                        entries[i].1,
                        path,
                        hash,
                    );
                if i > 0 {
                    assert(rest[i - 1] == entries[i]);
                }
            }
            if lies_in(on, at, rest, path, hash) {
                let i = choose|i: int|
                    0 <= i < rest.len() && lies_at(
                        on,
                        joined_path(on, at, (#[trigger] rest[i]).0@),
                        rest[i].1,
                        path,
                        hash,
                    );
                assert(entries[i + 1] == rest[i]);
            }
        }
        match entry_hashes(on, here, entries[0].1, before) {
            Ok(next) => {
                assert(rest == entries.subrange(1, entries.len() as int));
                entries_are_hashed(on, at, rest, next, path, hash);
            },
            Err(_) => {},
        }
    }
}

proof fn entry_is_hashed(
    on: Platform,
    here: Seq<char>,
    entry: TreeEntry,
    before: Seq<HashView>,
    path: Seq<char>,
    hash: Seq<char>,
)
    ensures
        ({
            let hashes = entry_hashes(on, here, entry, before);
            &&& hashes is Err <==> is_spoilt(entry)
            &&& hashes matches Ok(all) ==> (all.contains((path, hash)) <==> before.contains(
                (path, hash),
            ) || lies_at(on, here, entry, path, hash))
        }),
    decreases entry,
{
    match entry {
        TreeEntry::Folder(entries) => {
            entries_are_hashed(on, here, entries@, before, path, hash);
        },
        TreeEntry::File(Ok(content)) => {
            let all = before.push((here, content@));
            if before.contains((path, hash)) {
                let i = choose|i: int| 0 <= i < before.len() && before[i] == (path, hash);
                assert(all[i] == (path, hash));
            }
            assert(all[before.len() as int] == (here, content@));
        },
        _ => {},
    }
}

/// A copy is whole only if every file it refers to was restored and what was
/// restored was checked, and only a copy whose hash is the expected one passes.
pub proof fn a_whole_copy_was_checked(
    result: RestoreResult,
    expected: (String, String),
    actual: Result<String, String>,
)
    ensures
        is_complete(result) <==> result.unavailable == 0 && result.verified_files >= 1,
        hash_holds(expected, actual) <==> actual is Ok && actual->Ok_0@ == expected.1@,
{
}

/// A restored project goes on from the version it was restored at: both its own
/// head and the head that the provider verified are that version, and it stays
/// with the provider that it came from, under the same name there.
pub proof fn a_restored_project_goes_on_from_its_version(
    sidecar: crate::format::Sidecar,
    provider_id: Seq<char>,
    handle: Seq<char>,
    job: RestoreJob,
)
    requires
        enrols(sidecar, provider_id, handle, job),
    ensures
        sidecar.local_head == Some(job.commit),
        sidecar.verified_head == sidecar.local_head,
        sidecar.primary is Some && sidecar.primary->0@ == provider_id,
        sidecar.provider_handles@.dom().contains(provider_id),
        sidecar.provider_handles@[provider_id]@ == handle,
        forall|other: Seq<char>| #[trigger]
            sidecar.provider_handles@.dom().contains(other) ==> other == provider_id,
        sidecar.metadata@ == job.metadata@,
        sidecar.location == job.location,
{
}

/// What the end of a restore says: a failure is an error, a copy that misses
/// files is a warning, and only a whole one is a success.
pub proof fn a_restore_is_reported_as_it_went(
    name: Seq<char>,
    result: Result<RestoreResult, String>,
)
    ensures
        result is Err <==> restored_notice(name, result).level is Error,
        result matches Ok(report) ==> (report.unavailable > 0 <==> restored_notice(
            name,
            result,
        ).level is Warning),
        result matches Ok(report) ==> (report.unavailable == 0 <==> restored_notice(
            name,
            result,
        ).level is Success),
        result matches Err(message) ==> restored_notice(name, result).message == message@,
{
}

/// A version of a project on this computer is restored beside it: the library
/// stays as it is. A project that was not here takes the place of its entry, at
/// which the library then looks. Where that fails, the project is not here still.
/// Every other project stays.
pub proof fn a_restore_ends_for_its_project_alone(
    manager: ProjectManager,
    job: RestoreJob,
    destination: Seq<char>,
    result: Result<RestoreResult, String>,
    scan: Option<WatchedFolder>,
    restored: Option<Project>,
    after: ProjectManager,
    i: int,
)
    requires
        manager.ends_restore(job, destination, result, scan, restored, after),
        0 <= i < manager.projects@.len(),
    ensures
        job.project_path is Some ==> after == manager,
        after.projects@.len() == manager.projects@.len(),
        manager.projects@[i].id@ != job.project_id@ ==> after.projects@[i] == manager.projects@[i],
        after.projects@[i] != manager.projects@[i] ==> ({
            &&& job.project_path is None
            &&& result is Err || restored is None ==> after.projects@[i] == (Project {
                status: ProjectStatus::NotDownloaded,
                ..manager.projects@[i]
            })
            &&& result is Ok && restored is Some ==> after.projects@[i] == restored->0
        }),
        job.project_path is None && manager.projects@[i].id@ == job.project_id@ && (forall|j: int|
            0 <= j < i ==> (#[trigger] manager.projects@[j]).id@ != job.project_id@) ==> {
            &&& result is Err ==> after.projects@[i].status is NotDownloaded
            &&& result is Ok && restored is Some ==> after.projects@[i] == restored->0
                && after.selected_project == i
        },
        result is Err || restored is None ==> after.selected_project == manager.selected_project,
{
    let projects = manager.projects@;
    let id = job.project_id@;
    let at = project_index(projects, id);
    a_found_project_has_its_id(projects, id);
    assert(manager.projects.len() == projects.len());
    assert(0 <= at <= projects.len());
    assert(at as usize == at);
    if projects[i].id@ == id {
        listed_projects_are_found(projects, i);
        assert(at <= i);
    }
}

/// The folder that a project was restored into is watched from then on. A restore
/// that failed, or of a project that is here, changes no setting, and none changes
/// any but what is watched and remembered.
pub proof fn a_restored_projects_folder_is_watched(
    manager: ProjectManager,
    job: RestoreJob,
    destination: Seq<char>,
    result: Result<RestoreResult, String>,
    scan: Option<WatchedFolder>,
    restored: Option<Project>,
    after: ProjectManager,
)
    requires
        manager.ends_restore(job, destination, result, scan, restored, after),
    ensures
        job.project_path is Some || result is Err ==> after.state == manager.state
            && after.watched_folders == manager.watched_folders,
        job.project_path is None && result is Ok ==> exists|k: int|
            0 <= k < after.state.watched_folders@.len() && same_path(
                manager.platform,
                (#[trigger] after.state.watched_folders@[k])@,
                destination,
            ),
        after.providers == manager.providers,
        after.state == (crate::state::AppState {
            watched_folders: after.state.watched_folders,
            projects: after.state.projects,
            ..manager.state
        }),
{
    if job.project_path is None && result is Ok {
        let on = manager.platform;
        let list = manager.state.watched_folders@;
        let now = after.state.watched_folders@;
        crate::laws::state::recording_a_path_adds_it_once(on, list, destination);
        let all = crate::state::with_path(on, list, destination);
        assert(views(now).len() == now.len());
        let k = choose|k: int|
            0 <= k < all.len() && crate::laws::state::name_the_same(
                on,
                #[trigger] all[k],
                destination,
            );
        assert(views(now)[k] == all[k]);
        assert(same_path(on, now[k]@, destination));
    }
}

/// What was scanned after a restore is shown if its folder is watched or was shown
/// before, and a folder that is not watched any more is shown no longer.
pub proof fn a_restored_folder_is_shown(
    on: Platform,
    folders: Seq<WatchedFolder>,
    roots: Seq<String>,
    scan: WatchedFolder,
)
    requires
        lists_path(on, roots, scan.path@),
    ensures
        with_restored_scan(on, folders, roots, Some(scan)).contains(scan),
        with_restored_scan(on, folders, roots, None) == folders,
{
    let kept = crate::manager::still_watched(on, folders, roots);
    crate::laws::window::scan_index_is_first(on, kept, scan.path@);
    let at = crate::manager::scan_index(on, kept, scan.path@);
    let after = with_restored_scan(on, folders, roots, Some(scan));
    if at < kept.len() {
        assert(after[at] == scan);
    } else {
        assert(after[kept.len() as int] == scan);
    }
}

// ---------------------------------------------------------------------------
// The files that come with a project
// ---------------------------------------------------------------------------

/// A sample that a project refers to is found where it was put: a path leads
/// somewhere exactly if an entry with that path was asked for and fetched, and it
/// leads into the project's sample folder.
pub proof fn fetched_samples_lie_in_the_sample_folder(
    on: Platform,
    entries: Seq<ManifestEntry>,
    referenced: Set<Seq<char>>,
    fetched: Seq<bool>,
    path: Seq<char>,
)
    requires
        fetched.len() == entries.len(),
    ensures
        ({
            let found = fetched_places(on, entries, referenced, fetched);
            &&& found.dom().contains(path) <==> referenced.contains(path) && exists|i: int|
                0 <= i < entries.len() && (#[trigger] entries[i]).path@ == path && fetched[i]
            &&& found.dom().contains(path) ==> "Samples/"@.is_prefix_of(found[path])
            &&& found.dom().contains(path) ==> exists|i: int|
                0 <= i < entries.len() && (#[trigger] entries[i]).path@ == path && fetched[i]
                    && found[path] == native_place(on, entries[i])
        }),
{
    samples_are_fetched(on, entries, referenced, fetched, path);
    if fetched_places(on, entries, referenced, fetched).dom().contains(path) {
        let i = choose|i: int|
            0 <= i < entries.len() && (#[trigger] entries[i]).path@ == path && fetched[i]
                && fetched_places(on, entries, referenced, fetched)[path] == native_place(
                on,
                entries[i],
            );
        let place = native_place(on, entries[i]);
        assert("Samples/"@ =~= place.subrange(0, "Samples/"@.len() as int));
    }
}

proof fn samples_are_fetched(
    on: Platform,
    entries: Seq<ManifestEntry>,
    referenced: Set<Seq<char>>,
    fetched: Seq<bool>,
    path: Seq<char>,
)
    requires
        fetched.len() >= entries.len(),
    ensures
        ({
            let found = fetched_places(on, entries, referenced, fetched);
            &&& found.dom().contains(path) <==> referenced.contains(path) && exists|i: int|
                0 <= i < entries.len() && (#[trigger] entries[i]).path@ == path && fetched[i]
            &&& found.dom().contains(path) ==> exists|i: int|
                0 <= i < entries.len() && (#[trigger] entries[i]).path@ == path && fetched[i]
                    && found[path] == native_place(on, entries[i])
        }),
    decreases entries.len(),
{
    if entries.len() > 0 {
        let before = entries.drop_last();
        samples_are_fetched(on, before, referenced, fetched, path);
        assert(forall|i: int| 0 <= i < before.len() ==> #[trigger] before[i] == entries[i]);
        assert(entries.last() == entries[entries.len() - 1]);
        if exists|i: int|
            0 <= i < entries.len() && (#[trigger] entries[i]).path@ == path && fetched[i] {
            let i = choose|i: int|
                0 <= i < entries.len() && (#[trigger] entries[i]).path@ == path && fetched[i];
            if i < before.len() {
                assert(before[i] == entries[i]);
            }
        }
    }
}

/// What a project took from elsewhere is found again by where it came from:
/// exactly the fetched entries that say so are.
pub proof fn captured_files_are_found_by_their_origin(
    entries: Seq<ManifestEntry>,
    fetched: Seq<bool>,
    origin: Seq<char>,
)
    requires
        fetched.len() >= entries.len(),
    ensures
        ({
            let found = captured_paths(entries, fetched);
            &&& found.dom().contains(origin) <==> exists|i: int|
                0 <= i < entries.len() && (#[trigger] entries[i]).origin is Some
                    && entries[i].origin->0@ == origin && fetched[i]
            &&& found.dom().contains(origin) ==> exists|i: int|
                0 <= i < entries.len() && (#[trigger] entries[i]).origin is Some
                    && entries[i].origin->0@ == origin && fetched[i] && found[origin]
                    == entries[i].path@
        }),
    decreases entries.len(),
{
    if entries.len() > 0 {
        let before = entries.drop_last();
        captured_files_are_found_by_their_origin(before, fetched, origin);
        assert(forall|i: int| 0 <= i < before.len() ==> #[trigger] before[i] == entries[i]);
        assert(entries.last() == entries[entries.len() - 1]);
        if exists|i: int|
            0 <= i < entries.len() && (#[trigger] entries[i]).origin is Some
                && entries[i].origin->0@ == origin && fetched[i] {
            let i = choose|i: int|
                0 <= i < entries.len() && (#[trigger] entries[i]).origin is Some
                    && entries[i].origin->0@ == origin && fetched[i];
            if i < before.len() {
                assert(before[i] == entries[i]);
            }
        }
    }
}

/// What is missing is what was asked for and not had; more than that is not less.
pub proof fn missing_is_asked_less_had(all: nat, some: nat)
    ensures
        missing_count(all, some) >= 0,
        missing_count(all, some) == 0 <==> some >= all,
        some <= all ==> missing_count(all, some) + some == all,
{
}

/// A fresh report has checked nothing yet, and counts what is missing.
pub proof fn a_fresh_report_has_checked_nothing(
    project_file: String,
    files_written: usize,
    unavailable: int,
)
    requires
        0 <= unavailable <= usize::MAX,
    ensures
        unchecked(project_file, files_written, unavailable).verified_files == 0,
        unchecked(project_file, files_written, unavailable).unavailable == unavailable,
        unchecked(project_file, files_written, unavailable).files_written == files_written,
        unchecked(project_file, files_written, unavailable).project_file == project_file,
        unchecked(project_file, files_written, unavailable).previous_copy is None,
        !is_complete(unchecked(project_file, files_written, unavailable)),
{
}

/// What was fetched is counted, one by one.
pub proof fn fetched_files_are_counted(fetched: Seq<bool>, more: bool)
    ensures
        count_fetched(Seq::empty()) == 0,
        count_fetched(fetched.push(more)) == count_fetched(fetched) + (if more {
            1int
        } else {
            0
        }),
{
    reveal(Seq::filter);
    assert(fetched.push(more).drop_last() =~= fetched);
    assert(Seq::<bool>::empty().filter(|f: bool| f).len() == 0);
}

/// A folder to restore into is made new: where one is there already, the next is
/// tried, and everything else stays.
pub proof fn staging_folders_are_tried_in_turn(run: RestoreRun, step: RestoreStep, copy: u32)
    requires
        run.tries(step, copy),
    ensures
        step matches RestoreStep::Next(after) && after.stage == RestoreStage::MakeStaging(copy)
            && after.final_root == run.final_root && after.collision == run.collision
            && after.requested == run.requested && after.staging@ == staging_start(
            run.platform,
            run.final_root@,
            run.process as nat,
        ) + decimal(copy as nat),
        run.publication_of().collision == run.collision,
        run.publication_of().final_root == run.final_root,
        run.publication_of().quarantine == run.quarantine,
{
}

} // verus!
