//! Where backups go, and which of them start by themselves.
use vstd::prelude::*;

use crate::automatic_backup::{all_due, due, AutomaticBackupReason, ProjectObservation};
use crate::backup::{are_resolutions, attributes, is_local_author, judges, label_steps, value_text,
    AuthorIdentity, BackupReceipt, BackupResult, BackupRun, BackupStart, BackupStep,
    BackupVerification, ConflictChoice, ConflictResolution, ConflictedField, IdentityRead,
    MetadataStepView, PreparedBackup, ProjectProfile, PushOutcome, StableRead};
use crate::catalog::{first_connected, provider_index, ProviderListing};
use crate::format::CommitSummary;
use crate::json::FieldView;
use crate::laws::status::{saved_since, was_backed_up};
use crate::laws::text::same_but_case;
use crate::library::{has_project, project_index};
use crate::manager::ProjectManager;
use crate::moment::Moment;
use crate::notice::NoticeView;
use crate::project::{LocalFiles, Project};
use crate::retention::{stash_blobs, RetentionRule, Stash, VersionRetention};
use crate::status::{ProjectStatus, SyncDirection};
use crate::text::{decimal, is_blank, starts};
use crate::transfers::{bundle_aliases, connected_index, destination, due_requests, failed,
    is_committed, is_looked_at, is_place, observation, observations, prefix_index, push_requests,
    resolution_notice, retention_text, verification_text,
    BackupJob, BackupLaunch, ContextView, LaunchRequest, PreparedStep};

verus! {

// ---------------------------------------------------------------------------
// Where a backup goes
// ---------------------------------------------------------------------------

/// A provider is found at the first place that has its id.
pub proof fn provider_index_is_first(list: Seq<ProviderListing>, id: Seq<char>)
    ensures
        0 <= provider_index(list, id) <= list.len(),
        provider_index(list, id) < list.len() ==> list[provider_index(list, id)].entry.id@ == id,
        forall|j: int| 0 <= j < provider_index(list, id) ==> (#[trigger] list[j]).entry.id@ != id,
    decreases list.len(),
{
    if list.len() > 0 {
        provider_index_is_first(list.drop_last(), id);
        let before = provider_index(list.drop_last(), id);
        assert forall|j: int| 0 <= j < provider_index(list, id) implies (#[trigger] list[j]).entry.id@
            != id by {
            if j < list.len() - 1 {
                assert(list.drop_last()[j] == list[j]);
            }
        }
        if before < list.len() - 1 {
            assert(list.drop_last()[before] == list[before]);
        }
    }
}

/// A connected provider is found at the first place that has its id and is
/// connected.
pub proof fn connected_index_is_first(list: Seq<ProviderListing>, id: Seq<char>)
    ensures
        0 <= connected_index(list, id) <= list.len(),
        connected_index(list, id) < list.len() ==> list[connected_index(list, id)].entry.id@ == id
            && list[connected_index(list, id)].availability is Connected,
        forall|j: int|
            0 <= j < connected_index(list, id) ==> !((#[trigger] list[j]).entry.id@ == id
                && list[j].availability is Connected),
    decreases list.len(),
{
    if list.len() > 0 {
        connected_index_is_first(list.drop_last(), id);
        let before = connected_index(list.drop_last(), id);
        assert forall|j: int| 0 <= j < connected_index(list, id) implies !((
        #[trigger] list[j]).entry.id@ == id && list[j].availability is Connected) by {
            if j < list.len() - 1 {
                assert(list.drop_last()[j] == list[j]);
            }
        }
        if before < list.len() - 1 {
            assert(list.drop_last()[before] == list[before]);
        }
    }
}

proof fn first_connected_is_first(list: Seq<ProviderListing>)
    ensures
        0 <= first_connected(list) <= list.len(),
        first_connected(list) < list.len() ==> list[first_connected(list)].availability
            is Connected,
        forall|j: int|
            0 <= j < first_connected(list) ==> !((#[trigger] list[j]).availability is Connected),
    decreases list.len(),
{
    if list.len() > 0 {
        first_connected_is_first(list.drop_last());
        let before = first_connected(list.drop_last());
        assert forall|j: int| 0 <= j < first_connected(list) implies !((
        #[trigger] list[j]).availability is Connected) by {
            if j < list.len() - 1 {
                assert(list.drop_last()[j] == list[j]);
            }
        }
        if before < list.len() - 1 {
            assert(list.drop_last()[before] == list[before]);
        }
    }
}

/// Whether a provider with an id is listed.
pub open spec fn is_listed(providers: Seq<ProviderListing>, id: Seq<char>) -> bool {
    exists|i: int| 0 <= i < providers.len() && (#[trigger] providers[i]).entry.id@ == id
}

/// Whether a provider with an id is listed and connected.
pub open spec fn is_connected(providers: Seq<ProviderListing>, id: Seq<char>) -> bool {
    exists|i: int|
        0 <= i < providers.len() && (#[trigger] providers[i]).entry.id@ == id
            && providers[i].availability is Connected
}

/// A project stays with the provider that its own records name, as long as that
/// is listed.
pub proof fn a_project_stays_with_its_provider(
    providers: Seq<ProviderListing>,
    primary: Seq<char>,
    default: Option<Seq<char>>,
)
    requires
        is_listed(providers, primary),
    ensures
        destination(providers, Some(primary), default) matches Some(at) && 0 <= at
            < providers.len() && providers[at].entry.id@ == primary,
{
    provider_index_is_first(providers, primary);
}

/// A project without a provider of its own goes to the default one, where that is
/// connected.
pub proof fn a_new_project_goes_to_the_default_provider(
    providers: Seq<ProviderListing>,
    primary: Option<Seq<char>>,
    default: Seq<char>,
)
    requires
        primary matches Some(id) ==> !is_listed(providers, id),
        is_connected(providers, default),
    ensures
        destination(providers, primary, Some(default)) matches Some(at) && 0 <= at
            < providers.len() && providers[at].entry.id@ == default && providers[at].availability
            is Connected,
{
    if primary is Some {
        provider_index_is_first(providers, primary->0);
    }
    connected_index_is_first(providers, default);
    let i = choose|i: int|
        0 <= i < providers.len() && (#[trigger] providers[i]).entry.id@ == default
            && providers[i].availability is Connected;
    assert(connected_index(providers, default) <= i);
}

/// Without either, it goes to the first provider that is connected; and nowhere
/// only where none is.
pub proof fn any_other_project_goes_to_a_connected_provider(
    providers: Seq<ProviderListing>,
    primary: Option<Seq<char>>,
    default: Option<Seq<char>>,
)
    requires
        primary matches Some(id) ==> !is_listed(providers, id),
        default matches Some(id) ==> !is_connected(providers, id),
    ensures
        destination(providers, primary, default) is None <==> forall|i: int|
            0 <= i < providers.len() ==> !((#[trigger] providers[i]).availability is Connected),
        destination(providers, primary, default) matches Some(at) ==> 0 <= at < providers.len()
            && providers[at].availability is Connected && forall|i: int|
            0 <= i < at ==> !((#[trigger] providers[i]).availability is Connected),
{
    if primary is Some {
        provider_index_is_first(providers, primary->0);
    }
    if default is Some {
        connected_index_is_first(providers, default->0);
    }
    first_connected_is_first(providers);
}

/// A backup that is launched is of the project that was asked for, comes from its
/// file, and goes to a provider that is listed: to the project's own, where its
/// records name one. The project is then being transferred, and no other changed.
pub proof fn a_backup_is_of_what_was_asked_for(
    manager: ProjectManager,
    index: int,
    start: BackupStart,
    context: ContextView,
    after: ProjectManager,
    launch: BackupLaunch,
)
    requires
        0 <= index,
        manager.launches(index, start, context, after, launch),
    ensures
        launch matches BackupLaunch::Prepare(job) ==> {
            &&& index < manager.projects@.len()
            &&& job.project_id@ == manager.projects@[index].id@
            &&& manager.projects@[index].live_set is Some
            &&& job.project_path@ == manager.projects@[index].live_set->0@
            &&& job.start == start
            &&& is_listed(manager.providers@, job.listing.entry.id@)
            &&& job.request.provider_id@ == job.listing.entry.id@
            &&& context.primary matches Some(id) ==> (is_listed(manager.providers@, id)
                ==> job.listing.entry.id@ == id)
            &&& after.projects@.len() == manager.projects@.len()
            &&& after.projects@[index].status is Syncing
            &&& forall|i: int|
                0 <= i < manager.projects@.len() && i != index ==> #[trigger] after.projects@[i]
                    == manager.projects@[i]
        },
        !(launch is Prepare) ==> after.projects == manager.projects,
        index < manager.projects@.len() && (manager.projects@[index].status is Syncing
            || manager.projects@[index].status is Downloaded || manager.projects@[index].status
            is Conflicted) ==> !(launch is Prepare),
{
    if launch is Prepare {
        let place = destination(
            manager.providers@,
            context.primary,
            crate::text::optional_view(manager.state.primary_provider),
        );
        if context.primary is Some {
            provider_index_is_first(manager.providers@, context.primary->0);
        }
        if manager.state.primary_provider is Some {
            connected_index_is_first(manager.providers@, manager.state.primary_provider->0@);
        }
        first_connected_is_first(manager.providers@);
        assert(manager.providers@[place->0].entry.id@ == launch->Prepare_0.listing.entry.id@);
    }
}

// ---------------------------------------------------------------------------
// Several backups
// ---------------------------------------------------------------------------

/// Whether two managers list the same projects, by their ids and files, and the
/// same providers.
spec fn same_ground(a: ProjectManager, b: ProjectManager) -> bool {
    &&& a.projects@.len() == b.projects@.len()
    &&& forall|i: int|
        0 <= i < a.projects@.len() ==> (#[trigger] a.projects@[i]).id == b.projects@[i].id
            && a.projects@[i].live_set == b.projects@[i].live_set
    &&& a.providers == b.providers
    &&& a.state == b.state
}

proof fn an_answer_keeps_the_ground(
    manager: ProjectManager,
    request: LaunchRequest,
    after: ProjectManager,
    launch: BackupLaunch,
)
    requires
        manager.answers(request, after, launch),
        0 <= request.index < manager.projects@.len(),
    ensures
        same_ground(manager, after),
        forall|i: int|
            0 <= i < manager.projects@.len() && i != request.index ==> #[trigger] after.projects@[i]
                == manager.projects@[i],
        launch matches BackupLaunch::Prepare(job) ==> {
            &&& job.project_id@ == manager.projects@[request.index].id@
            &&& job.start == request.start
            &&& manager.projects@[request.index].live_set is Some
            &&& request.context.primary matches Some(id) ==> (is_listed(manager.providers@, id)
                ==> job.listing.entry.id@ == id)
        },
{
    let ready = choose|ready: ProjectManager|
        #[trigger] manager.is_made_ready(request, ready) && ready.launches(
            request.index,
            request.start,
            request.context,
            after,
            launch,
        );
    assert(ready.providers == manager.providers);
    a_backup_is_of_what_was_asked_for(
        ready,
        request.index,
        request.start,
        request.context,
        after,
        launch,
    );
}

proof fn answers_keep_the_ground(
    manager: ProjectManager,
    requests: Seq<LaunchRequest>,
    after: ProjectManager,
    launches: Seq<BackupLaunch>,
    k: int,
)
    requires
        manager.answers_all(requests, after, launches),
        forall|i: int|
            0 <= i < requests.len() ==> 0 <= (#[trigger] requests[i]).index
                < manager.projects@.len(),
    ensures
        launches.len() == requests.len(),
        same_ground(manager, after),
        forall|i: int|
            0 <= i < manager.projects@.len() && (forall|n: int|
                0 <= n < requests.len() ==> (#[trigger] requests[n]).index != i)
                ==> #[trigger] after.projects@[i] == manager.projects@[i],
        0 <= k < launches.len() && launches[k] is Prepare ==> {
            let job = launches[k]->Prepare_0;
            &&& job.project_id@ == manager.projects@[requests[k].index].id@
            &&& job.start == requests[k].start
            &&& manager.projects@[requests[k].index].live_set is Some
            &&& requests[k].context.primary matches Some(id) ==> (is_listed(
                manager.providers@,
                id,
            ) ==> job.listing.entry.id@ == id)
        },
    decreases requests.len(),
{
    if requests.len() > 0 {
        let earlier = requests.drop_last();
        let middle = choose|middle: ProjectManager|
            manager.answers_all(earlier, middle, launches.drop_last())
                && #[trigger] middle.answers(requests.last(), after, launches.last());
        assert forall|i: int| 0 <= i < earlier.len() implies 0 <= (#[trigger] earlier[i]).index
            < manager.projects@.len() by {
            assert(earlier[i] == requests[i]);
        }
        answers_keep_the_ground(manager, earlier, middle, launches.drop_last(), k);
        assert(requests[requests.len() - 1] == requests.last());
        an_answer_keeps_the_ground(middle, requests.last(), after, launches.last());
        assert(same_ground(manager, after)) by {
            assert forall|i: int| 0 <= i < manager.projects@.len() implies (
            #[trigger] manager.projects@[i]).id == after.projects@[i].id
                && manager.projects@[i].live_set == after.projects@[i].live_set by {
                assert(middle.projects@[i].id == after.projects@[i].id);
            }
        }
        if 0 <= k < launches.len() {
            if k < launches.len() - 1 {
                assert(launches.drop_last()[k] == launches[k]);
                assert(earlier[k] == requests[k]);
            } else {
                assert(launches[k] == launches.last());
                let i = requests.last().index;
                assert(manager.projects@[i].id == middle.projects@[i].id);
            }
        }
        assert forall|i: int|
            0 <= i < manager.projects@.len() && (forall|n: int|
                0 <= n < requests.len() ==> (#[trigger] requests[n]).index
                    != i) implies #[trigger] after.projects@[i] == manager.projects@[i] by {
            assert(forall|n: int|
                0 <= n < earlier.len() ==> (#[trigger] earlier[n]).index != i) by {
                assert forall|n: int| 0 <= n < earlier.len() implies (#[trigger] earlier[n]).index
                    != i by {
                    assert(earlier[n] == requests[n]);
                }
            }
            assert(requests[requests.len() - 1].index != i);
            assert(middle.projects@[i] == manager.projects@[i]);
        }
    }
}

/// Asking for everything launches only backups of projects whose work is not
/// safe: those never backed up, and those saved since.
pub proof fn backing_up_everything_pushes_only_unsafe_work(
    manager: ProjectManager,
    contexts: Seq<ContextView>,
    after: ProjectManager,
    launches: Seq<BackupLaunch>,
    k: int,
)
    requires
        manager.answers_all(
            push_requests(manager.projects@, contexts, manager.projects@.len() as int),
            after,
            launches,
        ),
        0 <= k < launches.len(),
    ensures
        launches[k] matches BackupLaunch::Prepare(job) ==> exists|i: int|
            0 <= i < manager.projects@.len() && (#[trigger] manager.projects@[i]).id@
                == job.project_id@ && (manager.projects@[i].status is NeverBackedUp
                || manager.projects@[i].status == ProjectStatus::OutOfSync(
                SyncDirection::LocalAhead,
            )),
{
    let n = manager.projects@.len() as int;
    let requests = push_requests(manager.projects@, contexts, n);
    assert forall|i: int| 0 <= i < requests.len() implies 0 <= (#[trigger] requests[i]).index
        < n by {
        a_push_request_is_of_unsafe_work(manager.projects@, contexts, n, i);
    }
    answers_keep_the_ground(manager, requests, after, launches, k);
    a_push_request_is_of_unsafe_work(manager.projects@, contexts, n, k);
}

proof fn a_push_request_is_of_unsafe_work(
    projects: Seq<Project>,
    contexts: Seq<ContextView>,
    n: int,
    k: int,
)
    requires
        0 <= n <= projects.len(),
        0 <= k < push_requests(projects, contexts, n).len(),
    ensures
        ({
            let request = push_requests(projects, contexts, n)[k];
            &&& 0 <= request.index < n
            &&& projects[request.index].status is NeverBackedUp || projects[request.index].status
                == ProjectStatus::OutOfSync(SyncDirection::LocalAhead)
        }),
    decreases n,
{
    let before = push_requests(projects, contexts, n - 1);
    if k < before.len() {
        a_push_request_is_of_unsafe_work(projects, contexts, n - 1, k);
    }
}

/// And every such project is asked for.
pub proof fn backing_up_everything_leaves_no_work_out(
    projects: Seq<Project>,
    contexts: Seq<ContextView>,
    n: int,
    i: int,
)
    requires
        0 <= i < n <= projects.len(),
        projects[i].status is NeverBackedUp || projects[i].status == ProjectStatus::OutOfSync(
            SyncDirection::LocalAhead,
        ),
    ensures
        exists|k: int|
            0 <= k < push_requests(projects, contexts, n).len() && (#[trigger] push_requests(
                projects,
                contexts,
                n,
            )[k]).index == i && push_requests(projects, contexts, n)[k].context == contexts[i],
    decreases n,
{
    let before = push_requests(projects, contexts, n - 1);
    let all = push_requests(projects, contexts, n);
    if i < n - 1 {
        backing_up_everything_leaves_no_work_out(projects, contexts, n - 1, i);
        let k = choose|k: int|
            0 <= k < before.len() && (#[trigger] before[k]).index == i && before[k].context
                == contexts[i];
        assert(all[k] == before[k]);
    } else {
        assert(all[all.len() - 1].index == i);
    }
}

// ---------------------------------------------------------------------------
// Automatic backups
// ---------------------------------------------------------------------------

/// How long a save has to be left alone, in nanoseconds: five minutes.
pub open spec fn five_minutes() -> int {
    300_000_000_000
}

proof fn an_observation_is_of_a_local_project(
    projects: Seq<Project>,
    files: Seq<LocalFiles>,
    providers: Seq<ProviderListing>,
    n: int,
    k: int,
) -> (i: int)
    requires
        0 <= n <= projects.len() == files.len(),
        0 <= k < observations(projects, files, providers, n).len(),
    ensures
        0 <= i < n,
        observation(projects[i], files[i], providers) == Some(
            observations(projects, files, providers, n)[k],
        ),
    decreases n,
{
    let before = observations(projects, files, providers, n - 1);
    if k < before.len() {
        an_observation_is_of_a_local_project(projects, files, providers, n - 1, k)
    } else {
        n - 1
    }
}

proof fn what_is_due_was_observed(
    attempted: Map<Seq<char>, Moment>,
    now: Moment,
    seen: Seq<ProjectObservation>,
    k: int,
) -> (i: int)
    requires
        0 <= k < all_due(attempted, now, seen).len(),
    ensures
        0 <= i < seen.len(),
        due(attempted, now, seen[i]) is Some,
        all_due(attempted, now, seen)[k].0 == seen[i].project_id@,
        all_due(attempted, now, seen)[k].1 == due(attempted, now, seen[i])->0,
        seen[i].modified_at == Some(all_due(attempted, now, seen)[k].2),
    decreases seen.len(),
{
    let before = all_due(attempted, now, seen.drop_last());
    if k < before.len() {
        let i = what_is_due_was_observed(attempted, now, seen.drop_last(), k);
        assert(seen.drop_last()[i] == seen[i]);
        i
    } else {
        seen.len() - 1
    }
}

proof fn a_request_is_for_what_is_due(
    projects: Seq<Project>,
    list: Seq<(Seq<char>, AutomaticBackupReason, Moment)>,
    files: Seq<LocalFiles>,
    aliases: Seq<(Seq<char>, Seq<char>)>,
    clock: i64,
    k: int,
) -> (d: int)
    requires
        0 <= k < due_requests(projects, list, files, aliases, clock).len(),
    ensures
        0 <= d < list.len(),
        ({
            let request = due_requests(projects, list, files, aliases, clock)[k];
            &&& has_project(projects, list[d].0)
            &&& request.index == project_index(projects, list[d].0)
            &&& request.start == (BackupStart::AfterQuietPeriod { qualified_revision: list[d].2 })
            &&& request.context.primary == crate::transfers::recorded_primary(files[request.index])
            &&& request.overtaken == (list[d].1 is SavedDuringPreviousBackup)
        }),
    decreases list.len(),
{
    let before = due_requests(projects, list.drop_last(), files, aliases, clock);
    if k < before.len() {
        let d = a_request_is_for_what_is_due(
            projects,
            list.drop_last(),
            files,
            aliases,
            clock,
            k,
        );
        assert(list.drop_last()[d] == list[d]);
        d
    } else {
        list.len() - 1
    }
}

/// Whether no two projects have the same id.
pub open spec fn ids_are_distinct(projects: Seq<Project>) -> bool {
    forall|i: int, j: int|
        #![trigger projects[i], projects[j]]
        0 <= i < projects.len() && 0 <= j < projects.len() && projects[i].id@ == projects[j].id@
            ==> i == j
}

/// A backup that starts by itself is called for: the project is here, was backed
/// up before to a provider that is connected, neither runs a transfer nor waits
/// for a person, and has a save that is newer than the last attempt or backup and
/// was left alone for five minutes. The backup is of that save, and goes to that
/// provider.
pub proof fn an_automatic_backup_is_called_for(
    manager: ProjectManager,
    files: Seq<LocalFiles>,
    now: Moment,
    aliases: Seq<(Seq<char>, Seq<char>)>,
    clock: i64,
    fresh: ProjectManager,
    after: ProjectManager,
    launches: Seq<BackupLaunch>,
    k: int,
    i: int,
)
    requires
        manager.polls(files, now, aliases, clock, fresh, after, launches),
        files.len() == manager.projects@.len(),
        ids_are_distinct(manager.projects@),
        0 <= k < launches.len(),
        launches[k] is Prepare,
        0 <= i < manager.projects@.len(),
        launches[k]->Prepare_0.project_id@ == manager.projects@[i].id@,
    ensures
        !(manager.projects@[i].status is Conflicted),
        manager.projects@[i].status != ProjectStatus::OutOfSync(SyncDirection::UpstreamAhead),
        !(manager.projects@[i].status is Syncing),
        !(manager.projects@[i].status is NotDownloaded),
        manager.projects@[i].live_set is Some,
        was_backed_up(files[i]),
        files[i].modified_at is Some,
        files[i].sidecar_modified_at is Some,
        now.nanos - files[i].modified_at->0.nanos >= five_minutes(),
        launches[k]->Prepare_0.start == (BackupStart::AfterQuietPeriod {
            qualified_revision: files[i].modified_at->0,
        }),
        saved_since(files[i]) || manager.automatic_backup_scheduler@.dom().contains(
            manager.projects@[i].id@,
        ),
        manager.automatic_backup_scheduler@.dom().contains(manager.projects@[i].id@)
            ==> manager.automatic_backup_scheduler@[manager.projects@[i].id@]
            != files[i].modified_at->0,
        files[i].sidecar->0.primary is Some,
        is_connected(manager.providers@, files[i].sidecar->0.primary->0@),
        launches[k]->Prepare_0.listing.entry.id@ == files[i].sidecar->0.primary->0@,
{
    let n = fresh.projects@.len() as int;
    let seen = observations(fresh.projects@, files, fresh.providers@, n);
    let attempted = fresh.automatic_backup_scheduler@;
    let list = all_due(attempted, now, seen);
    let requests = due_requests(fresh.projects@, list, files, aliases, clock);
    assert forall|r: int| 0 <= r < requests.len() implies 0 <= (#[trigger] requests[r]).index
        < n by {
        let d = a_request_is_for_what_is_due(fresh.projects@, list, files, aliases, clock, r);
    }
    answers_keep_the_ground(fresh, requests, after, launches, k);
    let d = a_request_is_for_what_is_due(fresh.projects@, list, files, aliases, clock, k);
    let o = what_is_due_was_observed(attempted, now, seen, d);
    let p = an_observation_is_of_a_local_project(fresh.projects@, files, fresh.providers@, n, o);
    let index = requests[k].index;
    a_found_project_has_its_id(fresh.projects@, list[d].0);
    assert(is_looked_at(manager.projects@[p], fresh.projects@[p], files[p], now));
    assert(is_looked_at(manager.projects@[i], fresh.projects@[i], files[i], now));
    assert(is_looked_at(manager.projects@[index], fresh.projects@[index], files[index], now));
    assert(manager.projects@[p].id@ == manager.projects@[i].id@);
    assert(p == i);
    assert(manager.projects@[index].id@ == manager.projects@[i].id@);
    assert(index == i);
    assert(fresh.providers == manager.providers);
    if files[i].sidecar is Some && files[i].sidecar->0.primary is Some {
        provider_index_is_first(manager.providers@, files[i].sidecar->0.primary->0@);
    }
}

/// A project is found at the first place that has its id.
pub proof fn a_found_project_has_its_id(projects: Seq<Project>, id: Seq<char>)
    ensures
        0 <= project_index(projects, id) <= projects.len(),
        has_project(projects, id) ==> projects[project_index(projects, id)].id@ == id,
        forall|j: int|
            0 <= j < project_index(projects, id) ==> (#[trigger] projects[j]).id@ != id,
    decreases projects.len(),
{
    if projects.len() > 0 {
        let before = projects.drop_last();
        a_found_project_has_its_id(before, id);
        if project_index(before, id) < before.len() {
            assert(before[project_index(before, id)] == projects[project_index(before, id)]);
        }
        assert forall|j: int| 0 <= j < project_index(projects, id) implies (
        #[trigger] projects[j]).id@ != id by {
            if j < before.len() {
                assert(before[j] == projects[j]);
            }
        }
    }
}

/// A poll leaves alone every project that has work of another kind under way: no
/// backup starts of one that is in conflict, behind its provider, being
/// transferred or not here.
pub proof fn a_poll_leaves_other_work_alone(
    manager: ProjectManager,
    files: Seq<LocalFiles>,
    now: Moment,
    aliases: Seq<(Seq<char>, Seq<char>)>,
    clock: i64,
    fresh: ProjectManager,
    after: ProjectManager,
    launches: Seq<BackupLaunch>,
    k: int,
    i: int,
)
    requires
        manager.polls(files, now, aliases, clock, fresh, after, launches),
        files.len() == manager.projects@.len(),
        ids_are_distinct(manager.projects@),
        0 <= k < launches.len(),
        0 <= i < manager.projects@.len(),
        manager.projects@[i].status is Conflicted || manager.projects@[i].status
            == ProjectStatus::OutOfSync(SyncDirection::UpstreamAhead) || manager.projects@[i].status
            is Syncing || manager.projects@[i].status is NotDownloaded,
    ensures
        launches[k] matches BackupLaunch::Prepare(job) ==> job.project_id@
            != manager.projects@[i].id@,
{
    if launches[k] is Prepare && launches[k]->Prepare_0.project_id@ == manager.projects@[i].id@ {
        an_automatic_backup_is_called_for(
            manager,
            files,
            now,
            aliases,
            clock,
            fresh,
            after,
            launches,
            k,
            i,
        );
    }
}

proof fn every_local_project_is_observed(
    projects: Seq<Project>,
    files: Seq<LocalFiles>,
    providers: Seq<ProviderListing>,
    n: int,
    i: int,
) -> (k: int)
    requires
        0 <= i < n <= projects.len() == files.len(),
        observation(projects[i], files[i], providers) is Some,
    ensures
        0 <= k < observations(projects, files, providers, n).len(),
        observations(projects, files, providers, n)[k] == observation(
            projects[i],
            files[i],
            providers,
        )->0,
    decreases n,
{
    if i < n - 1 {
        every_local_project_is_observed(projects, files, providers, n - 1, i)
    } else {
        observations(projects, files, providers, n).len() - 1
    }
}

proof fn whatever_is_due_is_listed(
    attempted: Map<Seq<char>, Moment>,
    now: Moment,
    seen: Seq<ProjectObservation>,
    i: int,
) -> (k: int)
    requires
        0 <= i < seen.len(),
        due(attempted, now, seen[i]) is Some,
    ensures
        0 <= k < all_due(attempted, now, seen).len(),
        all_due(attempted, now, seen)[k].0 == seen[i].project_id@,
    decreases seen.len(),
{
    if i < seen.len() - 1 {
        assert(seen.drop_last()[i] == seen[i]);
        whatever_is_due_is_listed(attempted, now, seen.drop_last(), i)
    } else {
        all_due(attempted, now, seen).len() - 1
    }
}

proof fn whatever_is_listed_is_requested(
    projects: Seq<Project>,
    list: Seq<(Seq<char>, AutomaticBackupReason, Moment)>,
    files: Seq<LocalFiles>,
    aliases: Seq<(Seq<char>, Seq<char>)>,
    clock: i64,
    d: int,
) -> (k: int)
    requires
        0 <= d < list.len(),
        has_project(projects, list[d].0),
    ensures
        0 <= k < due_requests(projects, list, files, aliases, clock).len(),
        due_requests(projects, list, files, aliases, clock)[k].index == project_index(
            projects,
            list[d].0,
        ),
    decreases list.len(),
{
    if d < list.len() - 1 {
        assert(list.drop_last()[d] == list[d]);
        whatever_is_listed_is_requested(projects, list.drop_last(), files, aliases, clock, d)
    } else {
        due_requests(projects, list, files, aliases, clock).len() - 1
    }
}

proof fn a_first_request_is_answered(
    manager: ProjectManager,
    requests: Seq<LaunchRequest>,
    after: ProjectManager,
    launches: Seq<BackupLaunch>,
    r: int,
)
    requires
        manager.answers_all(requests, after, launches),
        forall|i: int|
            0 <= i < requests.len() ==> 0 <= (#[trigger] requests[i]).index
                < manager.projects@.len(),
        0 <= r < requests.len(),
        forall|i: int| 0 <= i < r ==> (#[trigger] requests[i]).index != requests[r].index,
        manager.projects@[requests[r].index].live_set is Some,
        manager.projects@[requests[r].index].status == ProjectStatus::OutOfSync(
            SyncDirection::LocalAhead,
        ) || (manager.projects@[requests[r].index].status is Downloaded && requests[r].overtaken),
        requests[r].context.primary is Some,
        is_listed(manager.providers@, requests[r].context.primary->0),
    ensures
        launches.len() == requests.len(),
        launches[r] is Prepare,
    decreases requests.len(),
{
    let earlier = requests.drop_last();
    let middle = choose|middle: ProjectManager|
        manager.answers_all(earlier, middle, launches.drop_last())
            && #[trigger] middle.answers(requests.last(), after, launches.last());
    assert forall|i: int| 0 <= i < earlier.len() implies 0 <= (#[trigger] earlier[i]).index
        < manager.projects@.len() by {
        assert(earlier[i] == requests[i]);
    }
    if r < requests.len() - 1 {
        assert(earlier[r] == requests[r]);
        assert forall|i: int| 0 <= i < r implies (#[trigger] earlier[i]).index
            != earlier[r].index by {
            assert(earlier[i] == requests[i]);
        }
        a_first_request_is_answered(manager, earlier, middle, launches.drop_last(), r);
        assert(launches.drop_last()[r] == launches[r]);
    } else {
        let request = requests.last();
        let index = request.index;
        answers_keep_the_ground(manager, earlier, middle, launches.drop_last(), 0);
        assert(forall|n: int| 0 <= n < earlier.len() ==> (#[trigger] earlier[n]).index != index)
            by {
            assert forall|n: int| 0 <= n < earlier.len() implies (#[trigger] earlier[n]).index
                != index by {
                assert(earlier[n] == requests[n]);
            }
        }
        assert(middle.projects@[index] == manager.projects@[index]);
        let ready = choose|ready: ProjectManager|
            #[trigger] middle.is_made_ready(request, ready) && ready.launches(
                request.index,
                request.start,
                request.context,
                after,
                launches.last(),
            );
        provider_index_is_first(manager.providers@, request.context.primary->0);
        assert(ready.providers == manager.providers);
        assert(launches[r] == launches.last());
    }
}

/// No save is passed over: a poll starts the backup of every project that is here
/// and safe but for a save that was left alone for five minutes, where its
/// provider is connected and nothing else is under way.
pub proof fn a_poll_passes_no_save_over(
    manager: ProjectManager,
    files: Seq<LocalFiles>,
    now: Moment,
    aliases: Seq<(Seq<char>, Seq<char>)>,
    clock: i64,
    fresh: ProjectManager,
    after: ProjectManager,
    launches: Seq<BackupLaunch>,
    i: int,
)
    requires
        manager.polls(files, now, aliases, clock, fresh, after, launches),
        files.len() == manager.projects@.len(),
        ids_are_distinct(manager.projects@),
        0 <= i < manager.projects@.len(),
        manager.projects@[i].live_set is Some,
        manager.projects@[i].status is NeverBackedUp || manager.projects@[i].status is Downloaded
            || manager.projects@[i].status == ProjectStatus::OutOfSync(SyncDirection::LocalAhead),
        was_backed_up(files[i]),
        files[i].modified_at is Some,
        files[i].sidecar_modified_at is Some,
        now.nanos - files[i].modified_at->0.nanos >= five_minutes(),
        ({
            let attempted = manager.automatic_backup_scheduler@;
            let id = manager.projects@[i].id@;
            &&& attempted.dom().contains(id) ==> attempted[id] != files[i].modified_at->0
            &&& saved_since(files[i]) || attempted.dom().contains(id)
        }),
        files[i].sidecar->0.primary is Some,
        is_listed(manager.providers@, files[i].sidecar->0.primary->0@),
        forall|p: int|
            0 <= p < manager.providers@.len() && (#[trigger] manager.providers@[p]).entry.id@
                == files[i].sidecar->0.primary->0@ ==> manager.providers@[p].availability
                is Connected,
    ensures
        exists|k: int|
            0 <= k < launches.len() && (#[trigger] launches[k]) is Prepare
                && launches[k]->Prepare_0.project_id@ == manager.projects@[i].id@,
{
    let n = fresh.projects@.len() as int;
    let seen = observations(fresh.projects@, files, fresh.providers@, n);
    let attempted = fresh.automatic_backup_scheduler@;
    let list = all_due(attempted, now, seen);
    let requests = due_requests(fresh.projects@, list, files, aliases, clock);
    let id = manager.projects@[i].id@;
    assert(is_looked_at(manager.projects@[i], fresh.projects@[i], files[i], now));
    assert(fresh.providers == manager.providers);
    provider_index_is_first(manager.providers@, files[i].sidecar->0.primary->0@);
    let o = every_local_project_is_observed(fresh.projects@, files, fresh.providers@, n, i);
    assert(due(attempted, now, seen[o]) is Some);
    let d = whatever_is_due_is_listed(attempted, now, seen, o);
    a_found_project_has_its_id(fresh.projects@, id);
    let place = project_index(fresh.projects@, id);
    assert(fresh.projects@[i].id@ == id);
    assert(place <= i);
    assert(is_looked_at(manager.projects@[place], fresh.projects@[place], files[place], now));
    assert(manager.projects@[place].id@ == manager.projects@[i].id@);
    assert(place == i);
    let some = whatever_is_listed_is_requested(fresh.projects@, list, files, aliases, clock, d);
    let r = first_for(requests, i, some);
    assert forall|q: int| 0 <= q < requests.len() implies 0 <= (#[trigger] requests[q]).index
        < n by {
        let _ = a_request_is_for_what_is_due(fresh.projects@, list, files, aliases, clock, q);
    }
    let e = a_request_is_for_what_is_due(fresh.projects@, list, files, aliases, clock, r);
    let w = what_is_due_was_observed(attempted, now, seen, e);
    let p = an_observation_is_of_a_local_project(fresh.projects@, files, fresh.providers@, n, w);
    a_found_project_has_its_id(fresh.projects@, list[e].0);
    assert(is_looked_at(manager.projects@[p], fresh.projects@[p], files[p], now));
    assert(manager.projects@[p].id@ == manager.projects@[i].id@);
    assert(p == i);
    a_first_request_is_answered(fresh, requests, after, launches, r);
    answers_keep_the_ground(fresh, requests, after, launches, r);
}

proof fn first_for(requests: Seq<LaunchRequest>, index: int, some: int) -> (r: int)
    requires
        0 <= some < requests.len(),
        requests[some].index == index,
    ensures
        0 <= r <= some,
        requests[r].index == index,
        forall|i: int| 0 <= i < r ==> (#[trigger] requests[i]).index != index,
    decreases some,
{
    if exists|i: int| 0 <= i < some && (#[trigger] requests[i]).index == index {
        let i = choose|i: int| 0 <= i < some && (#[trigger] requests[i]).index == index;
        first_for(requests, index, i)
    } else {
        some
    }
}

// ---------------------------------------------------------------------------
// How a backup ends
// ---------------------------------------------------------------------------

/// A project counts as backed up only by a copy that was verified: then it is
/// safe as of now, unless the provider moved on meanwhile. Any other copy leaves
/// its work to be pushed, and the time of its last backup as it was.
pub proof fn only_a_verified_copy_makes_work_safe(
    before: Project,
    after: Project,
    receipt: BackupReceipt,
    files: LocalFiles,
    now: Moment,
)
    requires
        is_committed(before, after, receipt, files, now),
    ensures
        !(receipt.verification is Verified) ==> {
            &&& after.status == ProjectStatus::OutOfSync(SyncDirection::LocalAhead)
            &&& after.backed_up_at == before.backed_up_at
            &&& after.sync_progress == 0
        },
        receipt.verification is Verified && before.status is Syncing ==> {
            &&& after.backed_up_at == Some(now)
            &&& after.sync_progress == 100
            &&& receipt.history@.len() == 0 || before.live_set is None || files.sidecar is None || (
            files.sidecar->0.local_head is Some && files.sidecar->0.local_head->0.text@
                == receipt.history@[0].id.text@) ==> after.status is Downloaded
        },
        receipt.verification is Verified && !(before.status is Syncing) ==> after == before,
        after.id == before.id,
        after.live_set == before.live_set,
        after.metadata == before.metadata,
{
}

/// However a backup ends, no other project changes, nor what is remembered; a
/// failure takes the project back to what its files say, a conflict or a review
/// makes it wait for a person, and only a verified copy is reported as a success.
pub proof fn a_backup_ends_for_its_project_alone(
    manager: ProjectManager,
    id: Seq<char>,
    name: Seq<char>,
    result: Result<BackupResult, String>,
    files: LocalFiles,
    now: Moment,
    after: ProjectManager,
    said: Option<NoticeView>,
    i: int,
)
    requires
        manager.ends_backup(id, name, result, files, now, after, said),
        0 <= i < manager.projects@.len(),
    ensures
        after.projects@.len() == manager.projects@.len(),
        after.state == manager.state,
        after.providers == manager.providers,
        manager.projects@[i].id@ != id ==> after.projects@[i] == manager.projects@[i],
        manager.projects@[i].id@ == id && (forall|j: int|
            0 <= j < i ==> (#[trigger] manager.projects@[j]).id@ != id) ==> {
            &&& said is Some
            &&& after.projects@[i].id == manager.projects@[i].id
            &&& match result {
                Ok(BackupResult::Committed(receipt)) => {
                    &&& said->0.level is Success <==> receipt.verification is Verified
                    &&& !(receipt.verification is Verified) ==> after.projects@[i].status
                        == ProjectStatus::OutOfSync(SyncDirection::LocalAhead)
                },
                Ok(BackupResult::NeedsResolution(conflict)) => {
                    &&& after.projects@[i].status is Conflicted
                    &&& after.pending_conflict is Some
                    &&& after.pending_conflict->0.project_id@ == id
                    &&& after.pending_conflict->0.backup == conflict
                    &&& after.pending_conflict->0.choices@.len() == conflict.conflicts@.len()
                    &&& forall|c: int|
                        0 <= c < conflict.conflicts@.len()
                            ==> #[trigger] after.pending_conflict->0.choices@[c] is Local
                    &&& after.overlay.overlay is ConflictResolver
                    &&& !(said->0.level is Success)
                },
                Ok(BackupResult::NeedsReview(_)) => after.projects@[i].status is Conflicted
                    && !(said->0.level is Success),
                Err(_) => {
                    &&& said->0.level is Error
                    &&& manager.projects@[i].status is Syncing && manager.projects@[i].live_set
                        is Some ==> {
                        &&& after.projects@[i].status is NeverBackedUp <==> !was_backed_up(files)
                        &&& after.projects@[i].status is Downloaded <==> was_backed_up(files)
                            && !saved_since(files)
                        &&& after.projects@[i].status == ProjectStatus::OutOfSync(
                            SyncDirection::LocalAhead,
                        ) <==> was_backed_up(files) && saved_since(files)
                    }
                    &&& after.projects@[i].backed_up_at == manager.projects@[i].backed_up_at
                },
            }
        },
{
    a_found_project_has_its_id(manager.projects@, id);
}

/// Resolving a conflict ends it only where the choices were committed: a failure
/// keeps the choices, a provider that changed again asks anew, and the project
/// waits for a person until then.
pub proof fn a_conflict_ends_when_the_choices_are_committed(
    manager: ProjectManager,
    id: Seq<char>,
    name: Seq<char>,
    result: Result<BackupResult, String>,
    files: LocalFiles,
    now: Moment,
    after: ProjectManager,
    i: int,
)
    requires
        manager.ends_resolution(id, name, result, files, now, after),
        0 <= i < manager.projects@.len(),
    ensures
        after.projects@.len() == manager.projects@.len(),
        after.state == manager.state,
        manager.projects@[i].id@ != id ==> after.projects@[i] == manager.projects@[i],
        result is Err ==> after.pending_conflict == manager.pending_conflict,
        result matches Ok(BackupResult::Committed(_)) ==> after.pending_conflict is None,
        result matches Ok(BackupResult::NeedsResolution(conflict)) ==> after.pending_conflict is Some
            && after.pending_conflict->0.backup == conflict && after.overlay.overlay
            is ConflictResolver,
        manager.projects@[i].id@ == id && (forall|j: int|
            0 <= j < i ==> (#[trigger] manager.projects@[j]).id@ != id) && !(result matches Ok(
            BackupResult::Committed(_),
        )) ==> after.projects@[i].status is Conflicted,
        manager.projects@[i].id@ == id && manager.projects@[i].status is Syncing && (forall|j: int|
            0 <= j < i ==> (#[trigger] manager.projects@[j]).id@ != id) && (result matches Ok(
            BackupResult::Committed(_),
        )) ==> after.projects@[i].backed_up_at == Some(now),
        resolution_notice(name, result).level is Success <==> result matches Ok(
            BackupResult::Committed(_),
        ),
{
    a_found_project_has_its_id(manager.projects@, id);
}

// ---------------------------------------------------------------------------
// Keeping old versions
// ---------------------------------------------------------------------------

/// Whether a rule keeps a version: one of the newest of a number, or one from a
/// time on.
pub open spec fn keeps(rule: Option<RetentionRule>, place: nat, timestamp: int) -> bool {
    match rule {
        None => true,
        Some(RetentionRule::Latest { count }) => place < count,
        Some(RetentionRule::Since { timestamp: from }) => timestamp >= from,
    }
}

/// Each choice keeps what it says: every version, those of the last 365 days, or
/// the newest fifty.
pub proof fn retention_keeps_what_it_says(now: i64, place: nat, timestamp: i64)
    ensures
        keeps(VersionRetention::Everything.rule(now), place, timestamp as int),
        keeps(VersionRetention::LastYear.rule(now), place, timestamp as int) <==> now - timestamp
            <= 365 * 24 * 60 * 60,
        keeps(VersionRetention::LastFifty.rule(now), place, timestamp as int) <==> place < 50,
{
}

/// Nothing that waits to be pushed is pruned: a stash is kept with everything it
/// needs.
pub proof fn a_stash_is_kept_whole(stash: Stash, i: int)
    requires
        0 <= i < stash.resources@.len(),
    ensures
        stash_blobs(Some(stash)).contains(stash.snapshot),
        stash_blobs(Some(stash)).contains(stash.resources@[i]),
        stash_blobs(Some(stash)).len() == stash.resources@.len() + 1,
{
    let all = stash_blobs(Some(stash));
    assert(all[0] == stash.snapshot);
    assert(all[i + 1] == stash.resources@[i]);
}

// ---------------------------------------------------------------------------
// The run of a backup
// ---------------------------------------------------------------------------

/// Whether each run follows from the one before it.
pub open spec fn is_backup_course(runs: Seq<BackupRun>) -> bool {
    forall|i: int, j: int|
        #![trigger runs[i], runs[j]]
        0 <= i && j == i + 1 && j < runs.len() ==> runs[i].goes_to(BackupStep::Next(runs[j]))
}

/// A copy is verified by reading it back, and in no other way.
pub proof fn verified_copies_were_read_back(runs: Seq<BackupRun>, k: int) -> (i: int)
    requires
        is_backup_course(runs),
        0 <= k < runs.len(),
        !(runs[0].verification is Verified),
        runs[k].verification is Verified,
    ensures
        0 <= i < k,
        runs[i].stage is Verify,
        runs[i].request.verify_uploads || i == 0,
    decreases k,
{
    assert(runs[k - 1].goes_to(BackupStep::Next(runs[k])));
    if runs[k - 1].verification is Verified {
        verified_copies_were_read_back(runs, k - 1)
    } else {
        if k - 1 > 0 {
            assert(runs[k - 2].goes_to(BackupStep::Next(runs[k - 1])));
        }
        k - 1
    }
}

/// Nothing is pruned, and no backup is reported as verified, before the copy was
/// read back.
pub proof fn nothing_is_pruned_before_the_copy_was_read_back(
    runs: Seq<BackupRun>,
    k: int,
    step: BackupStep,
) -> (i: int)
    requires
        is_backup_course(runs),
        0 <= k < runs.len(),
        !(runs[0].verification is Verified),
        runs[k].wf(),
        runs[k].goes_to(step),
        runs[k].stage is Prune || runs[k].stage is RecordVerified || (step matches BackupStep::Done(
            BackupResult::Committed(receipt),
        ) && receipt.verification is Verified),
    ensures
        0 <= i < k,
        runs[i].stage is Verify,
{
    verified_copies_were_read_back(runs, k)
}

// ---------------------------------------------------------------------------
// Before anything is published
// ---------------------------------------------------------------------------

/// An automatic backup is of the save that called for it: where the file was saved
/// again while it was read, nothing is published or recorded, and that save waits
/// for its own time. What a person asked for is backed up as it is. Whatever is
/// published is recorded first.
pub proof fn an_automatic_backup_is_of_its_save(
    manager: ProjectManager,
    job: BackupJob,
    prepared: Result<PreparedBackup, String>,
    files: LocalFiles,
    after: ProjectManager,
    step: PreparedStep,
)
    requires
        manager.takes_up(job, prepared, files, after, step),
    ensures
        prepared is Err <==> step is Failed,
        prepared matches Ok(read) ==> (job.start is Immediate ==> step is Record),
        prepared matches Ok(read) ==> (job.start matches BackupStart::AfterQuietPeriod {
            qualified_revision,
        } ==> (step is Record <==> read.source_revision is Some
            && read.source_revision->0 == qualified_revision)),
        !(step is Record) ==> after.state == manager.state && after.automatic_backup_scheduler
            == manager.automatic_backup_scheduler,
        step is Record ==> after.projects == manager.projects,
        step is Record ==> (prepared->Ok_0.source_revision matches Some(at)
            ==> after.automatic_backup_scheduler@.dom().contains(job.project_id@)
            && after.automatic_backup_scheduler@[job.project_id@] == at),
        after.projects@.len() == manager.projects@.len(),
        forall|i: int|
            0 <= i < manager.projects@.len() && (#[trigger] manager.projects@[i]).id@
                != job.project_id@ ==> after.projects@[i] == manager.projects@[i],
{
    a_found_project_has_its_id(manager.projects@, job.project_id@);
}

/// Nothing is published whose record could not be kept: the backup fails, and says
/// so, exactly if there is a file to keep it in and writing it failed.
pub proof fn unrecorded_saves_are_not_published(
    manager: ProjectManager,
    job: BackupJob,
    written: Result<(), String>,
    files: LocalFiles,
    after: ProjectManager,
    said: Option<NoticeView>,
)
    requires
        manager.goes_on(job, written, files, after, said),
    ensures
        said is Some <==> manager.state.origin is Some && written is Err,
        said matches Some(notice) ==> notice.level is Error,
        said is None ==> after == manager,
        after.state == manager.state,
{
}

/// Where paths of other computers lead, what the person set counts before what is
/// usual, in whatever case the prefix was written, and what is usual stays for every
/// other prefix.
pub proof fn chosen_mappings_count_first(
    defaults: Seq<(Seq<char>, Seq<char>)>,
    saved: Seq<(Seq<char>, Seq<char>)>,
    k: int,
)
    requires
        0 <= k < saved.len(),
        forall|l: int|
            k < l < saved.len() ==> !same_but_case((#[trigger] saved[l]).0, saved[k].0),
    ensures
        bundle_aliases(defaults, saved).contains(saved[k]),
        defaults.len() <= bundle_aliases(defaults, saved).len() <= defaults.len() + saved.len(),
    decreases saved.len(),
{
    let rest = saved.drop_last();
    let last = saved.last();
    let before = bundle_aliases(defaults, rest);
    let after = bundle_aliases(defaults, saved);
    bundles_keep_their_length(defaults, rest);
    bundles_keep_their_length(defaults, saved);
    prefix_index_is_first(before, last.0);
    let at = prefix_index(before, last.0);
    if k == saved.len() - 1 {
        if at < before.len() {
            assert(after[at] == saved[k]);
        } else {
            assert(after[before.len() as int] == saved[k]);
        }
    } else {
        assert(forall|l: int| 0 <= l < rest.len() ==> rest[l] == #[trigger] saved[l]);
        assert(rest[k] == saved[k]);
        chosen_mappings_count_first(defaults, rest, k);
        let m = choose|m: int| 0 <= m < before.len() && before[m] == saved[k];
        assert(saved[saved.len() - 1] == last);
        if at < before.len() && m == at {
            crate::laws::text::same_case_is_symmetric(before[m].0, last.0);
        }
        assert(after[m] == saved[k]);
    }
}

/// A usual mapping stays as long as nothing was set for its prefix.
pub proof fn usual_mappings_stay(
    defaults: Seq<(Seq<char>, Seq<char>)>,
    saved: Seq<(Seq<char>, Seq<char>)>,
    i: int,
)
    requires
        0 <= i < defaults.len(),
        forall|l: int|
            0 <= l < saved.len() ==> !same_but_case(defaults[i].0, (#[trigger] saved[l]).0),
    ensures
        i < bundle_aliases(defaults, saved).len(),
        bundle_aliases(defaults, saved)[i] == defaults[i],
    decreases saved.len(),
{
    if saved.len() > 0 {
        let rest = saved.drop_last();
        assert(forall|l: int| 0 <= l < rest.len() ==> #[trigger] rest[l] == saved[l]);
        usual_mappings_stay(defaults, rest, i);
        assert(saved[saved.len() - 1] == saved.last());
        prefix_index_is_first(bundle_aliases(defaults, rest), saved.last().0);
    }
}

proof fn bundles_keep_their_length(
    defaults: Seq<(Seq<char>, Seq<char>)>,
    saved: Seq<(Seq<char>, Seq<char>)>,
)
    ensures
        defaults.len() <= bundle_aliases(defaults, saved).len() <= defaults.len() + saved.len(),
    decreases saved.len(),
{
    if saved.len() > 0 {
        bundles_keep_their_length(defaults, saved.drop_last());
        prefix_index_is_first(bundle_aliases(defaults, saved.drop_last()), saved.last().0);
    }
}

proof fn prefix_index_is_first(list: Seq<(Seq<char>, Seq<char>)>, from: Seq<char>)
    ensures
        0 <= prefix_index(list, from) <= list.len(),
        prefix_index(list, from) < list.len() ==> same_but_case(
            list[prefix_index(list, from)].0,
            from,
        ),
        forall|i: int|
            0 <= i < prefix_index(list, from) ==> !same_but_case((#[trigger] list[i]).0, from),
    decreases list.len(),
{
    if list.len() > 0 {
        let before = list.drop_last();
        prefix_index_is_first(before, from);
        crate::laws::text::ignoring_case_is_being_the_same_but_case(list.last().0, from);
        assert(forall|i: int| 0 <= i < before.len() ==> before[i] == #[trigger] list[i]);
        assert(list[list.len() - 1] == list.last());
    }
}

/// The place that is given for a backup is the place where it goes, and none is
/// given exactly where it goes nowhere.
pub proof fn the_place_given_is_where_it_goes(
    given: Option<usize>,
    place: Option<int>,
    providers: Seq<ProviderListing>,
)
    requires
        is_place(given, place, providers),
    ensures
        given is Some <==> place is Some,
        given matches Some(at) ==> at < providers.len() && place->0 == at,
{
}

/// A version is signed by someone: with the name that was given, or as a local user
/// without one, and for the provider it goes to.
pub proof fn local_versions_are_signed(
    author: AuthorIdentity,
    provider_id: Seq<char>,
    name: Seq<char>,
)
    requires
        is_local_author(author, provider_id, name),
    ensures
        is_blank(name) ==> author.display_name@ == "Local user"@,
        !is_blank(name) ==> author.display_name@ == name,
        author.provider_id@ == provider_id,
        author.email is None,
{
}

/// A copy whose history could not be read again is not verified, whatever was found
/// before; one whose history could be is what it was.
pub proof fn a_lost_history_is_not_verified(
    run: BackupRun,
    loaded: Result<Vec<CommitSummary>, String>,
    after: BackupVerification,
)
    requires
        run.verification_after(loaded, after),
    ensures
        loaded is Err ==> !(after is Verified),
        loaded is Ok ==> after == run.verification,
        after is Verified ==> run.verification is Verified,
        run.verification is Incomplete ==> after is Incomplete,
        run.verification is Skipped ==> after is Skipped,
{
}

/// A backup that is done reports what it found.
pub proof fn a_backup_reports_what_it_found(run: BackupRun, step: BackupStep)
    requires
        run.is_done(step),
    ensures
        step matches BackupStep::Done(BackupResult::Committed(receipt)) && receipt.verification
            == run.verification && receipt.history == run.history && receipt.retention
            == run.retention && receipt.retention_warning == run.retention_warning,
{
}

/// Where a project lies is saved first, if that is known; the provider's list is
/// told next, if it has one; and only then is anything pushed.
pub proof fn a_backup_is_announced_before_it_is_pushed(run: BackupRun)
    ensures
        run.prepared.location is Some ==> run.after_history() is SaveLocation,
        run.prepared.location is None ==> run.after_history() == run.after_location(),
        run.capabilities.project_listing ==> run.after_location() is Register,
        !run.capabilities.project_listing ==> run.after_location() is Push,
{
}

/// Each conflict is resolved by the choice that was made for it.
pub proof fn each_conflict_gets_its_own_choice(
    resolutions: Seq<ConflictResolution>,
    conflicts: Seq<ConflictedField>,
    choices: Seq<ConflictChoice>,
    i: int,
)
    requires
        are_resolutions(resolutions, conflicts, choices),
        0 <= i < conflicts.len(),
    ensures
        resolutions.len() == conflicts.len(),
        resolutions[i].conflict == conflicts[i],
        resolutions[i].choice == choices[i],
{
}

/// A value in conflict is shown as what it is; a long text is cut after 160
/// characters, and that it was is seen.
pub proof fn values_in_conflict_are_shown(text: Seq<char>)
    ensures
        text.len() <= 160 ==> value_text(FieldView::Text(text)) == text,
        text.len() > 160 ==> value_text(FieldView::Text(text)) == text.take(160) + "…"@,
        value_text(FieldView::Bool(true)) == "true"@,
        value_text(FieldView::Bool(false)) == "false"@,
        value_text(FieldView::Number(text)) == text,
{
}

/// Saving labels is no backup: the records keep the time that says when the last one
/// was. The provider is told only of a project it knows, once it was reached, and
/// both sides get the same labels.
pub proof fn labels_do_not_count_as_a_backup(
    on_disk: bool,
    marker: Option<Moment>,
    enrolled: bool,
    profile: ProjectProfile,
)
    ensures
        ({
            let steps = label_steps(on_disk, marker, enrolled, profile);
            let local: int = (if on_disk {
                1
            } else {
                0int
            }) + (if on_disk && marker is Some {
                1
            } else {
                0int
            });
            &&& steps.len() == local + (if enrolled {
                2
            } else {
                0int
            })
            &&& on_disk ==> steps[0] == MetadataStepView::WriteSidecar(
                profile.metadata@,
                crate::format::location_view(profile.location),
            )
            &&& on_disk && marker is Some ==> steps[1] == MetadataStepView::RestoreMarker(marker->0)
            &&& enrolled ==> steps[local] is OpenProvider && steps[local + 1]
                == MetadataStepView::UpdateProvider(
                profile.display_name@,
                profile.format,
                profile.metadata@,
                crate::format::location_view(profile.location),
            )
        }),
{
}

/// A transfer that fails gives back what the files say, and ends; a project that is
/// not being transferred is not touched.
pub proof fn a_failed_transfer_is_over(project: Project, files: LocalFiles)
    ensures
        !(project.status is Syncing) ==> failed(project, files) == project,
        project.status is Syncing ==> ({
            let after = failed(project, files);
            &&& !(after.status is Syncing)
            &&& after.sync_progress == 0
            &&& project.live_set is Some ==> (after.status is NeverBackedUp <==> !was_backed_up(
                files,
            ))
            &&& project.live_set is Some ==> (after.status is Downloaded <==> was_backed_up(files)
                && !saved_since(files))
            &&& project.live_set is None ==> after.status == ProjectStatus::OutOfSync(
                SyncDirection::LocalAhead,
            )
            &&& after.backed_up_at == project.backed_up_at
            &&& after.versions == project.versions
        }),
{
}

/// A project that was saved during its last backup counts as changed again, though
/// it was called safe; no other project is touched, and nothing of a project that
/// was not called safe.
pub proof fn a_save_during_a_backup_makes_work_unsafe(
    manager: ProjectManager,
    request: LaunchRequest,
    ready: ProjectManager,
    i: int,
)
    requires
        manager.is_made_ready(request, ready),
        0 <= request.index < manager.projects@.len(),
        0 <= i < manager.projects@.len(),
    ensures
        ready.projects@.len() == manager.projects@.len(),
        ready.projects@[i] == (Project {
            status: ready.projects@[i].status,
            ..manager.projects@[i]
        }),
        ready.projects@[i].status != manager.projects@[i].status ==> i == request.index
            && request.overtaken && manager.projects@[i].status is Downloaded
            && ready.projects@[i].status == ProjectStatus::OutOfSync(SyncDirection::LocalAhead),
        request.overtaken && manager.projects@[request.index].status is Downloaded
            ==> ready.projects@[request.index].status == ProjectStatus::OutOfSync(
            SyncDirection::LocalAhead,
        ),
        ready.state == manager.state,
{
}

/// What is observed of a project is what is known of it: it can be backed up by
/// itself if it was backed up before and the provider that its records name is
/// listed and connected, and nothing stands in the way but work of another kind.
pub proof fn a_project_is_observed_as_it_is(
    project: Project,
    files: LocalFiles,
    providers: Seq<ProviderListing>,
)
    ensures
        observation(project, files, providers) is None <==> project.live_set is None,
        observation(project, files, providers) matches Some(seen) ==> {
            &&& seen.project_id == project.id
            &&& seen.modified_at == project.modified_at
            &&& seen.backed_up_at == project.backed_up_at
            &&& seen.backup_blocked <==> project.status is NotDownloaded || project.status is Syncing
                || project.status is Conflicted || project.status == ProjectStatus::OutOfSync(
                SyncDirection::UpstreamAhead,
            )
            &&& seen.backup_destination_ready ==> project.backed_up_at is Some && files.sidecar
                is Some && files.sidecar->0.primary is Some && is_connected(
                providers,
                files.sidecar->0.primary->0@,
            )
            &&& project.backed_up_at is None ==> !seen.backup_destination_ready
        },
{
    if files.sidecar is Some && files.sidecar->0.primary is Some {
        provider_index_is_first(providers, files.sidecar->0.primary->0@);
    }
}

/// What is said of a backup is what was found: only a verified one is called
/// verified, and of every other it is said that the original must be kept, or what
/// could not be confirmed. Versions are said to be removed only where they were.
pub proof fn a_backup_is_called_what_it_is(
    verification: BackupVerification,
    report: crate::retention::RetentionReport,
    warning: Seq<char>,
)
    ensures
        verification is Verified ==> verification_text(verification)
            == "Project bytes and history were stored and BLAKE3 verified."@,
        verification is Skipped ==> verification_text(verification)
            == "Project bytes and history were stored, but not verified. The original remains the only confirmed complete copy."@,
        verification matches BackupVerification::Incomplete(missing) ==> verification_text(
            verification,
        ) == "Project was stored, but "@ + decimal(missing@.len())
            + " referenced file(s) could not be captured. The original must be kept."@,
        verification matches BackupVerification::Failed(error) ==> verification_text(verification)
            == "Project was stored, but verification could not confirm the copy: "@ + error@ + "."@,
        report.versions_removed == 0 ==> retention_text(None, Some(report)).len() == 0,
        retention_text(None, None).len() == 0,
        retention_text(Some(warning), Some(report)) == retention_text(Some(warning), None),
        report.versions_removed > 0 && report.bytes_freed == 0 ==> retention_text(
            None,
            Some(report),
        ) == " Removed "@ + decimal(report.versions_removed as nat) + " old version(s)."@,
{
}

/// A file counts as read only if it was not saved meanwhile: it is read again up to
/// three times, and given up then.
pub proof fn a_file_is_read_while_it_is_still(
    path: Seq<char>,
    attempt: u8,
    before: Option<Moment>,
    after: Option<Moment>,
    read: StableRead,
)
    requires
        judges(path, attempt, before, after, read),
    ensures
        read is Stable <==> before == after,
        read matches StableRead::Stable(revision) ==> revision == after,
        read is Again <==> before != after && attempt < 3,
        read is GiveUp <==> before != after && attempt >= 3,
{
}

/// Whoever is signed in made the version. The person at this computer did only where
/// nobody can sign in, or nobody did; who signed in and cannot be told is an error.
pub proof fn whoever_is_signed_in_made_the_version(
    listing: ProviderListing,
    name: Seq<char>,
    identity: IdentityRead,
    authenticated: bool,
    author: Result<AuthorIdentity, String>,
)
    requires
        attributes(listing, name, identity, authenticated, author),
        !"local:"@.is_prefix_of(listing.entry.id@),
    ensures
        identity matches IdentityRead::Known(known) ==> author is Ok && author->Ok_0.display_name
            == known.display_name && author->Ok_0.provider_user_id == known.user_id,
        identity is Failed ==> author is Err,
        identity is NotFound ==> (author is Err <==> authenticated),
        identity is NotFound && !authenticated && !is_blank(name) ==> author->Ok_0.display_name@
            == name,
{
    if starts(listing.entry.id@, "local:"@) {
        assert("local:"@ =~= listing.entry.id@.subrange(0, "local:"@.len() as int));
    }
}

/// A backup into a folder is always signed by the person at this computer.
pub proof fn folder_backups_are_signed_locally(
    listing: ProviderListing,
    name: Seq<char>,
    identity: IdentityRead,
    authenticated: bool,
    author: Result<AuthorIdentity, String>,
)
    requires
        attributes(listing, name, identity, authenticated, author),
        "local:"@.is_prefix_of(listing.entry.id@),
    ensures
        author is Ok,
        !is_blank(name) ==> author->Ok_0.display_name@ == name,
        author->Ok_0.provider_id@ == listing.entry.id@,
{
    assert(listing.entry.id@.subrange(0, 0int + "local:"@.len()) =~= "local:"@);
    assert(starts(listing.entry.id@, "local:"@));
}

/// A pushed copy is checked if that was asked for and nothing is missing from it; one
/// that misses files, or is not to be checked, counts as what it is and never as
/// verified. A conflict or a problem ends the run without a copy.
pub proof fn a_pushed_copy_is_checked_or_not_called_so(
    run: BackupRun,
    outcome: Result<PushOutcome, String>,
    step: BackupStep,
)
    requires
        run.is_pushed(outcome, step),
    ensures
        outcome is Err <==> step is Failed,
        outcome matches Ok(PushOutcome::NeedsResolution(fields)) ==> (step matches BackupStep::Done(
            BackupResult::NeedsResolution(conflict),
        ) && conflict.conflicts == fields && conflict.request == run.request && conflict.prepared
            == run.prepared),
        outcome matches Ok(PushOutcome::NeedsReview(problems)) ==> (step matches BackupStep::Done(
            BackupResult::NeedsReview(found),
        ) && found == problems),
        outcome matches Ok(PushOutcome::Committed { commit, unavailable_assets }) ==> {
            &&& step is Next
            &&& step->Next_0.commit == Some(commit)
            &&& step->Next_0.stage is Verify <==> unavailable_assets@.len() == 0
                && run.request.verify_uploads
            &&& unavailable_assets@.len() > 0 ==> step->Next_0.verification
                == BackupVerification::Incomplete(unavailable_assets)
            &&& unavailable_assets@.len() == 0 && !run.request.verify_uploads
                ==> step->Next_0.verification is Skipped
        },
{
}

/// A choice is made for one field of the conflict that waits, and nothing else
/// changes; without such a field nothing does.
pub proof fn a_choice_is_for_one_field(
    manager: ProjectManager,
    index: int,
    choice: ConflictChoice,
    after: ProjectManager,
    i: int,
)
    requires
        manager.takes_choice(index, choice, after),
        manager.pending_conflict is Some,
        0 <= index,
        0 <= i < manager.pending_conflict->0.choices@.len(),
    ensures
        after.pending_conflict is Some,
        after.pending_conflict->0.choices@.len() == manager.pending_conflict->0.choices@.len(),
        after.pending_conflict->0.choices@[i] == (if i == index {
            choice
        } else {
            manager.pending_conflict->0.choices@[i]
        }),
        after.pending_conflict->0.backup == manager.pending_conflict->0.backup,
        after.pending_conflict->0.project_id == manager.pending_conflict->0.project_id,
        after.projects == manager.projects,
        after.state == manager.state,
{
}

/// A conflict that is resolved is still kept until that ended, and its project is
/// transferred meanwhile; no other project is touched.
pub proof fn a_conflict_is_kept_while_it_is_resolved(
    manager: ProjectManager,
    after: ProjectManager,
    whose: Option<(String, String)>,
    i: int,
)
    requires
        manager.resolves_again(after, whose),
        0 <= i < manager.projects@.len(),
    ensures
        after.pending_conflict == manager.pending_conflict,
        whose is Some <==> manager.pending_conflict is Some,
        after.projects@.len() == manager.projects@.len(),
        manager.pending_conflict is None ==> after == manager,
        manager.pending_conflict matches Some(pending) ==> {
            &&& (whose->0).0@ == pending.project_id@
            &&& manager.projects@[i].id@ != pending.project_id@ ==> after.projects@[i]
                == manager.projects@[i]
            &&& manager.projects@[i].id@ == pending.project_id@ && (forall|j: int|
                0 <= j < i ==> (#[trigger] manager.projects@[j]).id@ != pending.project_id@)
                ==> after.projects@[i].status is Syncing
        },
        after.state == manager.state,
{
    if manager.pending_conflict is Some {
        let id = manager.pending_conflict->0.project_id@;
        a_found_project_has_its_id(manager.projects@, id);
        if manager.projects@[i].id@ == id {
            crate::library::listed_projects_are_found(manager.projects@, i);
        }
    }
}

} // verus!
