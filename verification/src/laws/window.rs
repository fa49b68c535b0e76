//! What the window shows, and what stays when the library changes.
use vstd::prelude::*;

use crate::laws::backup::a_found_project_has_its_id;
use crate::catalog::preferred_method;
use crate::laws::catalogue::a_project_was_added_when_first_seen;
use crate::laws::library::sorting_loses_no_project;
use crate::laws::providers::projects_here_outlive_every_reading;
use crate::library::{has_project, listed_projects_are_found, loads_library, project_index,
    sort_order_survives_its_key, ReadProject, SortOrder, WatchedFolder};
use crate::manager::{attempted, count_unbacked, initial_route,
    lies_beneath_a_root, provider_rows, recorded_projects, refreshed_text, reselected,
    scan_index, still_watched, takes_over_all, with_project, with_scan, CatalogueRead, Effects,
    ProjectManager};
use crate::moment::Moment;
use crate::order::{is_sorted_from, sorting_keeps_the_values};
use crate::path::{components_of, is_beneath, lists_path, parent_of, same_path, Platform};
use crate::project::Project;
use crate::session::AuthStep;
use crate::state::{covered, with_path, AppState};
use crate::text::{decimal, is_blank, trimmed, views};

verus! {

/// The library opens once someone was welcomed and has a name, and not before.
pub proof fn a_welcome_comes_first(state: AppState)
    ensures
        initial_route(state) is Library <==> state.onboarding_complete && !is_blank(
            state.display_name@,
        ),
        initial_route(state) is Onboarding <==> !(initial_route(state) is Library),
{
}

/// The project that was selected stays selected wherever it has gone, if it is
/// still there; otherwise the first one is.
pub proof fn the_selection_follows_its_project(
    before: Seq<Project>,
    selected: usize,
    after: Seq<Project>,
)
    requires
        selected < before.len(),
    ensures
        (exists|i: int|
            0 <= i < after.len() && (#[trigger] after[i]).id@ == before[selected as int].id@) ==> {
            &&& 0 <= reselected(before, selected, after) < after.len()
            &&& after[reselected(before, selected, after)].id@ == before[selected as int].id@
        },
        (forall|i: int|
            0 <= i < after.len() ==> (#[trigger] after[i]).id@ != before[selected as int].id@)
            ==> reselected(before, selected, after) == 0,
{
    let id = before[selected as int].id@;
    a_found_project_has_its_id(after, id);
    if exists|i: int| 0 <= i < after.len() && (#[trigger] after[i]).id@ == id {
        let i = choose|i: int| 0 <= i < after.len() && (#[trigger] after[i]).id@ == id;
        listed_projects_are_found(after, i);
    }
}

/// A project that is added takes the place of the one with its id, or comes last.
/// Every other project stays where it is.
pub proof fn adding_a_project_moves_no_other(projects: Seq<Project>, project: Project, i: int)
    requires
        0 <= i < projects.len(),
    ensures
        with_project(projects, project).contains(project),
        projects[i].id@ != project.id@ ==> with_project(projects, project)[i] == projects[i],
        with_project(projects, project).len() == projects.len() <==> exists|j: int|
            0 <= j < projects.len() && (#[trigger] projects[j]).id@ == project.id@,
        with_project(projects, project).len() <= projects.len() + 1,
{
    let after = with_project(projects, project);
    a_found_project_has_its_id(projects, project.id@);
    if has_project(projects, project.id@) {
        assert(after[project_index(projects, project.id@)] == project);
    } else {
        assert(after[projects.len() as int] == project);
        assert forall|j: int| 0 <= j < projects.len() implies (#[trigger] projects[j]).id@
            != project.id@ by {
            if projects[j].id@ == project.id@ {
                listed_projects_are_found(projects, j);
            }
        }
    }
}

/// A project outside every watched folder is remembered by its folder; one inside
/// needs not be, nor one that is not on this computer.
pub proof fn unwatched_projects_are_remembered(
    on: Platform,
    state: AppState,
    project: Project,
)
    ensures
        project.live_set is None ==> recorded_projects(on, state, project) == views(
            state.projects@,
        ),
        project.live_set matches Some(file) ==> (parent_of(on, file@) matches Some(root) ==> {
            &&& covered(on, state.watched_folders@, root) ==> recorded_projects(on, state, project)
                == views(state.projects@)
            &&& !covered(on, state.watched_folders@, root) ==> exists|i: int|
                0 <= i < recorded_projects(on, state, project).len() && components_of(
                    on,
                    #[trigger] recorded_projects(on, state, project)[i],
                ) == components_of(on, root)
        }),
{
    if let Some(file) = project.live_set {
        if let Some(root) = parent_of(on, file@) {
            if !covered(on, state.watched_folders@, root) {
                crate::laws::state::recording_a_path_adds_it_once(on, state.projects@, root);
                let after = with_path(on, state.projects@, root);
                let i = choose|i: int|
                    0 <= i < after.len() && crate::laws::state::name_the_same(
                        on,
                        #[trigger] after[i],
                        root,
                    );
                assert(components_of(on, recorded_projects(on, state, project)[i])
                    == components_of(on, root));
            }
        }
    }
}

/// A reload of the library keeps the projects that are not on this computer, and
/// of the others keeps none: those are read again.
pub proof fn a_reload_keeps_only_what_is_elsewhere(projects: Seq<Project>, project: Project)
    ensures
        provider_rows(projects).contains(project) <==> projects.contains(project)
            && project.live_set is None,
    decreases projects.len(),
{
    if projects.len() > 0 {
        let before = projects.drop_last();
        let rest = provider_rows(before);
        a_reload_keeps_only_what_is_elsewhere(before, project);
        assert(projects[projects.len() - 1] == projects.last());
        if before.contains(project) {
            let i = choose|i: int| 0 <= i < before.len() && before[i] == project;
            assert(projects[i] == project);
        }
        if projects.contains(project) {
            let i = choose|i: int| 0 <= i < projects.len() && projects[i] == project;
            if i < before.len() {
                assert(before[i] == project);
            }
        }
        let all = provider_rows(projects);
        if rest.contains(project) {
            let i = choose|i: int| 0 <= i < rest.len() && rest[i] == project;
            assert(all[i] == project);
        }
        if projects.last().live_set is None {
            assert(all[rest.len() as int] == projects.last());
        }
        if all.contains(project) {
            let i = choose|i: int| 0 <= i < all.len() && all[i] == project;
            if i < rest.len() {
                assert(rest[i] == project);
            }
        }
    }
}

/// What is only on this computer is counted: none of it exactly if no project was
/// never backed up, and one more for each that was not.
pub proof fn unbacked_work_is_counted(projects: Seq<Project>)
    ensures
        count_unbacked(projects) <= projects.len(),
        count_unbacked(projects) == 0 <==> forall|i: int|
            0 <= i < projects.len() ==> !((#[trigger] projects[i]).status is NeverBackedUp),
        count_unbacked(projects) == projects.len() <==> forall|i: int|
            0 <= i < projects.len() ==> (#[trigger] projects[i]).status is NeverBackedUp,
    decreases projects.len(),
{
    if projects.len() > 0 {
        let before = projects.drop_last();
        unbacked_work_is_counted(before);
        assert(forall|i: int| 0 <= i < before.len() ==> before[i] == #[trigger] projects[i]);
        assert(forall|i: int| 0 <= i < before.len() ==> #[trigger] before[i] == projects[i]);
        assert(projects[projects.len() - 1] == projects.last());
    }
}

/// A project more counts if it was never backed up, and not otherwise.
pub proof fn one_more_unbacked_project_counts(projects: Seq<Project>, project: Project)
    ensures
        count_unbacked(projects.push(project)) == count_unbacked(projects) + (if project.status
            is NeverBackedUp {
            1int
        } else {
            0
        }),
{
    assert(projects.push(project).drop_last() =~= projects);
}

/// A refreshed library says that all is backed up only if all is.
pub proof fn a_refresh_says_how_things_stand(found: nat, unbacked: nat)
    ensures
        found == 0 ==> refreshed_text(found, unbacked)
            == "No projects yet. Watch a folder, or add one."@,
        found > 0 && unbacked == 0 ==> refreshed_text(found, unbacked) == decimal(found)
            + " project(s), all backed up."@,
        found > 0 && unbacked > 0 ==> refreshed_text(found, unbacked) == decimal(found)
            + " project(s) · "@ + decimal(unbacked) + " only on this computer."@,
{
}

// ---------------------------------------------------------------------------
// Watched folders
// ---------------------------------------------------------------------------

/// A folder is already watched if a watched folder lies above it; the folder itself
/// does not count, and is scanned again.
pub proof fn folders_inside_a_watched_one_are_watched(
    on: Platform,
    folder: Seq<char>,
    roots: Seq<String>,
)
    ensures
        lies_beneath_a_root(on, folder, roots) <==> exists|i: int|
            0 <= i < roots.len() && components_of(on, (#[trigger] roots[i])@).len()
                < components_of(on, folder).len() && components_of(on, folder).take(
                components_of(on, roots[i]@).len() as int,
            ) == components_of(on, roots[i]@),
{
    let inner = components_of(on, folder);
    assert forall|i: int| 0 <= i < roots.len() implies (!same_path(
        on,
        folder,
        (#[trigger] roots[i])@,
    ) && is_beneath(on, folder, roots[i]@)) == (components_of(on, roots[i]@).len() < inner.len()
        && inner.take(components_of(on, roots[i]@).len() as int) == components_of(on, roots[i]@)) by {
        let outer = components_of(on, roots[i]@);
        if outer.len() <= inner.len() {
            assert(inner.take(outer.len() as int) =~= inner.subrange(0, outer.len() as int));
        }
        if outer.len() == inner.len() {
            assert(inner.take(outer.len() as int) =~= inner);
        }
    }
}

/// What was scanned stays as long as its folder is watched, and no longer.
pub proof fn scans_stay_while_watched(
    on: Platform,
    folders: Seq<WatchedFolder>,
    roots: Seq<String>,
    folder: WatchedFolder,
)
    ensures
        still_watched(on, folders, roots).contains(folder) <==> folders.contains(folder)
            && exists|i: int|
            0 <= i < roots.len() && components_of(on, (#[trigger] roots[i])@) == components_of(
                on,
                folder.path@,
            ),
    decreases folders.len(),
{
    let watched = exists|i: int|
        0 <= i < roots.len() && components_of(on, (#[trigger] roots[i])@) == components_of(
            on,
            folder.path@,
        );
    assert(lists_path(on, roots, folder.path@) == watched) by {
        if lists_path(on, roots, folder.path@) {
            let i = choose|i: int|
                0 <= i < roots.len() && same_path(on, (#[trigger] roots[i])@, folder.path@);
            assert(components_of(on, roots[i]@) == components_of(on, folder.path@));
        }
        if watched {
            let i = choose|i: int|
                0 <= i < roots.len() && components_of(on, (#[trigger] roots[i])@) == components_of(
                    on,
                    folder.path@,
                );
            assert(same_path(on, roots[i]@, folder.path@));
        }
    }
    if folders.len() > 0 {
        let before = folders.drop_last();
        let rest = still_watched(on, before, roots);
        let all = still_watched(on, folders, roots);
        scans_stay_while_watched(on, before, roots, folder);
        assert(folders[folders.len() - 1] == folders.last());
        if before.contains(folder) {
            let i = choose|i: int| 0 <= i < before.len() && before[i] == folder;
            assert(folders[i] == folder);
        }
        if folders.contains(folder) {
            let i = choose|i: int| 0 <= i < folders.len() && folders[i] == folder;
            if i < before.len() {
                assert(before[i] == folder);
            }
        }
        if rest.contains(folder) {
            let i = choose|i: int| 0 <= i < rest.len() && rest[i] == folder;
            assert(all[i] == folder);
        }
        if lists_path(on, roots, folders.last().path@) {
            assert(all[rest.len() as int] == folders.last());
        }
        if all.contains(folder) {
            let i = choose|i: int| 0 <= i < all.len() && all[i] == folder;
            if i < rest.len() {
                assert(rest[i] == folder);
            }
        }
    }
}

/// A scan is found at the first place that has its folder.
pub proof fn scan_index_is_first(on: Platform, folders: Seq<WatchedFolder>, path: Seq<char>)
    ensures
        0 <= scan_index(on, folders, path) <= folders.len(),
        forall|i: int|
            0 <= i < scan_index(on, folders, path) ==> !same_path(
                on,
                (#[trigger] folders[i]).path@,
                path,
            ),
        scan_index(on, folders, path) < folders.len() ==> same_path(
            on,
            folders[scan_index(on, folders, path)].path@,
            path,
        ),
    decreases folders.len(),
{
    if folders.len() > 0 {
        let before = folders.drop_last();
        scan_index_is_first(on, before, path);
        assert(forall|i: int| 0 <= i < before.len() ==> before[i] == #[trigger] folders[i]);
        assert(folders[folders.len() - 1] == folders.last());
    }
}

/// A scan replaces the one of the same folder, or comes last; the others stay.
pub proof fn a_scan_replaces_its_own(
    on: Platform,
    folders: Seq<WatchedFolder>,
    scan: WatchedFolder,
    i: int,
)
    requires
        0 <= i < folders.len(),
    ensures
        with_scan(on, folders, scan).contains(scan),
        !same_path(on, folders[i].path@, scan.path@) ==> with_scan(on, folders, scan)[i]
            == folders[i],
        with_scan(on, folders, scan).len() == folders.len() <==> exists|j: int|
            0 <= j < folders.len() && same_path(on, (#[trigger] folders[j]).path@, scan.path@),
{
    let after = with_scan(on, folders, scan);
    scan_index_is_first(on, folders, scan.path@);
    let at = scan_index(on, folders, scan.path@);
    if at < folders.len() {
        assert(after[at] == scan);
    } else {
        assert(after[folders.len() as int] == scan);
    }
}

/// Which saves were backed up already is known from the start: what was recorded
/// and can be read as a time.
pub proof fn attempts_are_remembered(state: AppState, id: Seq<char>)
    ensures
        attempted(state).dom().contains(id) <==> state.backup_attempts@.dom().contains(id)
            && state.backup_attempts@[id].nanoseconds < 1_000_000_000
            && state.backup_attempts@[id].unix_seconds <= i64::MAX,
        attempted(state).dom().contains(id) ==> attempted(state)[id].nanos
            == state.backup_attempts@[id].unix_seconds * 1_000_000_000
            + state.backup_attempts@[id].nanoseconds,
{
}

// ---------------------------------------------------------------------------
// What a change leaves alone
// ---------------------------------------------------------------------------

/// A chosen order is remembered and sorts the library; the same projects are in it,
/// and the selected one stays selected. Choosing the order that is there changes
/// nothing.
pub proof fn a_chosen_order_is_kept(
    manager: ProjectManager,
    order: SortOrder,
    after: ProjectManager,
    changed: bool,
)
    requires
        manager.re_sorts(order, after, changed),
    ensures
        !changed ==> after == manager,
        SortOrder::of_key(after.state.sort_order@) == order,
        after.projects@.len() == manager.projects@.len(),
        forall|project: Project| manager.projects@.contains(project) <==> after.projects@.contains(
            project,
        ),
        manager.selected_project < manager.projects@.len() ==> after.projects@[
        after.selected_project as int].id@ == manager.projects@[
        manager.selected_project as int].id@,
        after.providers == manager.providers,
{
    if changed {
        sort_order_survives_its_key(order);
        sorting_loses_no_project(manager.projects@, after.projects@, order);
        if manager.selected_project < manager.projects@.len() {
            crate::manager::sorting_keeps_the_selection(
                manager.projects@,
                manager.selected_project,
                after.projects@,
                order,
            );
        }
    }
}

/// A folder that is watched is remembered, and the library is what is read then. A
/// folder beneath a watched one changes nothing. Nothing is said to be found where
/// nothing was.
pub proof fn a_watched_folder_is_remembered(
    manager: ProjectManager,
    folder: WatchedFolder,
    home: Option<Seq<char>>,
    read: Seq<ReadProject>,
    now: i64,
    after: ProjectManager,
    effects: Effects,
)
    requires
        manager.watches(folder, home, read, now, after, effects),
    ensures
        lies_beneath_a_root(manager.platform, folder.path@, manager.state.watched_folders@) ==> after
            == manager && !effects.save,
        !lies_beneath_a_root(manager.platform, folder.path@, manager.state.watched_folders@) ==> {
            &&& effects.save
            &&& exists|i: int|
                0 <= i < after.state.watched_folders@.len() && components_of(
                    manager.platform,
                    (#[trigger] after.state.watched_folders@[i])@,
                ) == components_of(manager.platform, folder.path@)
            &&& after.watched_folders@.contains(folder)
            &&& effects.notice is Some
            &&& effects.notice->0.level is Success <==> folder.projects@.len() > 0
        },
        after.providers == manager.providers,
        after.state.connected_providers == manager.state.connected_providers,
        after.state.path_aliases == manager.state.path_aliases,
{
    let on = manager.platform;
    if !lies_beneath_a_root(on, folder.path@, manager.state.watched_folders@) {
        let list = manager.state.watched_folders@;
        let now_watched = after.state.watched_folders@;
        crate::laws::state::recording_a_path_adds_it_once(on, list, folder.path@);
        let all = with_path(on, list, folder.path@);
        assert(views(now_watched).len() == now_watched.len());
        let i = choose|i: int|
            0 <= i < all.len() && crate::laws::state::name_the_same(
                on,
                #[trigger] all[i],
                folder.path@,
            );
        assert(views(now_watched)[i] == all[i]);
        assert(components_of(on, now_watched[i]@) == components_of(on, folder.path@));
        let kept = still_watched(on, manager.watched_folders@, now_watched);
        scan_index_is_first(on, kept, folder.path@);
        let at = scan_index(on, kept, folder.path@);
        if at < kept.len() {
            assert(after.watched_folders@[at] == folder);
        } else {
            assert(after.watched_folders@[kept.len() as int] == folder);
        }
    }
}

/// A project that is added by hand is in the library, is selected, and is shown.
pub proof fn an_added_project_is_selected(
    manager: ProjectManager,
    project: Project,
    after: ProjectManager,
    effects: Effects,
    i: int,
)
    requires
        manager.takes_in(project, after, effects),
        0 <= i < manager.projects@.len(),
    ensures
        after.projects@[after.selected_project as int] == project,
        after.route is Library,
        manager.projects@[i].id@ != project.id@ ==> after.projects@[i] == manager.projects@[i],
        effects.notice is Some && effects.notice->0.level is Success,
        after.state.watched_folders == manager.state.watched_folders,
        after.providers == manager.providers,
{
    adding_a_project_moves_no_other(manager.projects@, project, i);
    a_found_project_has_its_id(manager.projects@, project.id@);
}

/// A library that is read again loses no project that is elsewhere, and each project
/// on this computer in it is one that was read.
pub proof fn a_reload_loses_nothing_that_is_elsewhere(
    manager: ProjectManager,
    read: Seq<ReadProject>,
    now: i64,
    after: ProjectManager,
    effects: Effects,
    project: Project,
)
    requires
        manager.reloads(read, now, after, effects),
    ensures
        manager.projects@.contains(project) && project.live_set is None ==> after.projects@.contains(
            project,
        ),
        after.projects@.contains(project) ==> (project.live_set is None && manager.projects@.contains(
            project,
        )) || exists|k: int|
            0 <= k < read.len() && (#[trigger] read[k]).project.id@ == project.id@,
        after.route is Library,
        after.overlay.overlay is Hidden,
        after.state.watched_folders == manager.state.watched_folders,
        after.state.connected_providers == manager.state.connected_providers,
{
    let order = SortOrder::of_key(manager.state.sort_order@);
    let rows = provider_rows(manager.projects@);
    let loaded = choose|loaded: Seq<Project>|
        #[trigger] loads_library(manager.state, after.state, loaded, read, now) && is_sorted_from(
            loaded + rows,
            after.projects@,
            order,
        );
    sorting_keeps_the_values(loaded + rows, after.projects@, order, project);
    a_reload_keeps_only_what_is_elsewhere(manager.projects@, project);
    if rows.contains(project) {
        let i = choose|i: int| 0 <= i < rows.len() && rows[i] == project;
        assert((loaded + rows)[loaded.len() + i] == project);
    }
    if after.projects@.contains(project) {
        let i = choose|i: int|
            0 <= i < (loaded + rows).len() && (loaded + rows)[i] == project;
        if i < loaded.len() {
            let k = a_project_was_added_when_first_seen(
                manager.state,
                after.state,
                loaded,
                read,
                now,
                i,
            );
            assert(loaded[i] == project);
        } else {
            assert(rows[i - loaded.len()] == project);
        }
    }
}

/// What was read of the providers joins the library, and takes nothing on this
/// computer out of it; the reading is then over.
pub proof fn readings_keep_what_is_here(
    manager: ProjectManager,
    reads: Seq<CatalogueRead>,
    now: Moment,
    after: ProjectManager,
    next: Seq<usize>,
    i: int,
)
    requires
        manager.merges(reads, now, after, next),
        0 <= i < manager.projects@.len(),
        manager.projects@[i].live_set is Some,
    ensures
        exists|k: int|
            0 <= k < after.projects@.len() && (#[trigger] after.projects@[k]).id
                == manager.projects@[i].id && after.projects@[k].status
                == manager.projects@[i].status && after.projects@[k].live_set
                == manager.projects@[i].live_set && after.projects@[k].versions
                == manager.projects@[i].versions,
        after.state == manager.state,
        after.providers == manager.providers,
        !manager.remote_refresh_pending ==> !after.remote_refreshing && next.len() == 0,
{
    let order = SortOrder::of_key(manager.state.sort_order@);
    let merged = choose|merged: Seq<Project>|
        #[trigger] takes_over_all(manager.projects@, reads, merged, now) && is_sorted_from(
            merged,
            after.projects@,
            order,
        );
    let at = projects_here_outlive_every_reading(manager.projects@, reads, merged, now, i);
    sorting_keeps_the_values(merged, after.projects@, order, merged[at]);
    assert(merged.contains(merged[at]));
    let k = choose|k: int| 0 <= k < after.projects@.len() && after.projects@[k] == merged[at];
    assert(after.projects@[k].id == manager.projects@[i].id);
}

// ---------------------------------------------------------------------------
// The introduction and signing in
// ---------------------------------------------------------------------------

/// The introduction goes one step at a time: no step is passed without its due, a
/// name is kept without white space at its ends, and the library opens after the
/// last step, for good.
pub proof fn the_introduction_goes_step_by_step(
    manager: ProjectManager,
    typed: Seq<char>,
    after: ProjectManager,
    effects: Effects,
)
    requires
        manager.advances(typed, after, effects),
    ensures
        manager.onboarding_step is Profile && is_blank(typed) ==> after == manager
            && !effects.save,
        manager.onboarding_step is Profile && !is_blank(typed) ==> after.onboarding_step is Provider
            && after.display_name@ == trimmed(typed) && after.state.display_name@ == trimmed(typed)
            && effects.save,
        manager.onboarding_step is Provider ==> after.onboarding_step is Music,
        manager.onboarding_step is Music ==> after.route is Library
            && after.state.onboarding_complete && effects.save,
        !(manager.onboarding_step is Music) ==> after.state.onboarding_complete
            == manager.state.onboarding_complete && after.route == manager.route,
        after.projects == manager.projects,
        after.providers == manager.providers,
{
}

/// A token that was typed goes to the keychain of its own provider and nowhere else,
/// and only for a provider that asks for one; an empty one goes nowhere. Where the
/// browser signs in, nothing that was typed is used.
pub proof fn a_token_goes_to_its_provider(
    manager: ProjectManager,
    index: int,
    credential: Seq<char>,
    after: ProjectManager,
    step: AuthStep,
)
    requires
        manager.begins_auth(index, credential, after, step),
        0 <= index < manager.providers@.len(),
    ensures
        ({
            let listing = manager.providers@[index];
            let method = preferred_method(listing.entry.auth_methods@);
            &&& step is StoreToken <==> method is Pat && !is_blank(credential)
            &&& step matches AuthStep::StoreToken { provider_id, token } ==> provider_id@
                == listing.entry.id@ && token@ == trimmed(credential)
            &&& step is Probe <==> method is OAuthAuthorizationCodePkce || method is OAuthDeviceCode
            &&& step matches AuthStep::Probe { provider_id, endpoint, method: asked }
                ==> provider_id@ == listing.entry.id@ && endpoint@ == listing.entry.endpoint@
                && asked == method
            &&& step is Connected <==> method is NoAuth
            &&& !(step is Connected) ==> after.providers == manager.providers && after.state
                == manager.state
            &&& step is Connected ==> after.providers@[index].availability is Connected
        }),
{
}

/// A name is taken over if it says something and is another than the one before.
pub proof fn only_a_new_name_is_taken(manager: ProjectManager, typed: Seq<char>)
    ensures
        is_blank(typed) ==> !manager.is_new_name(typed),
        !is_blank(typed) ==> (manager.is_new_name(typed) <==> trimmed(typed)
            != manager.display_name@),
{
}

} // verus!
