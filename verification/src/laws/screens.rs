//! What is shown: the list, a project, the introduction and the settings.
use vstd::prelude::*;

use crate::appearance::{status_shade, Appearance, Colour};
use crate::catalog::ProviderListing;
use crate::detail::BpmFilter;
use crate::inspection::{fnv, opaque_id, InspectionPublisher, NodeView, WindowId, FNV_START};
use crate::library::{bytes_sum, FolderBytes, FoundProject, MeasuredEntry, WatchedFolder};
use crate::manager::ProjectManager;
use crate::navigation::{OverlayHost, OverlayState};
use crate::options::{asks, StartupView};
use crate::panels::{all_bytes, all_projects, count_remote, named, offers_provider, shows_conflict,
    shows_folder,
    ConflictRow, PickerRow};
use crate::project::{Project, ProjectVersion};
use crate::screens::{count_attention, count_connected, is_version_row, passing,
    ListQuery, VersionRow};
use crate::status::{ProjectStatus, SyncDirection};
use crate::text::{decimal, is_blank, lowercase, starts, views};
use crate::tree::{any_waits, provider_nodes, ClickAction};

verus! {

// ---------------------------------------------------------------------------
// The list
// ---------------------------------------------------------------------------

proof fn passing_places(
    projects: Seq<Project>,
    query: Seq<char>,
    genres: Seq<Seq<char>>,
    tags: Seq<Seq<char>>,
    bpm: Option<BpmFilter>,
    n: int,
    at: int,
)
    requires
        0 <= n <= projects.len() <= usize::MAX,
    ensures
        ({
            let places = passing(projects, query, genres, tags, bpm, n);
            &&& 0 <= at < n ==> (places.contains(at as usize) <==> projects[at].passes(
                query,
                genres,
                tags,
                bpm,
            ))
            &&& forall|k: int| 0 <= k < places.len() ==> (#[trigger] places[k]) < n
            &&& forall|k: int, l: int|
                #![trigger places[k], places[l]]
                0 <= k < l < places.len() ==> places[k] < places[l]
        }),
    decreases n,
{
    if n > 0 {
        let rest = passing(projects, query, genres, tags, bpm, n - 1);
        let all = passing(projects, query, genres, tags, bpm, n);
        passing_places(projects, query, genres, tags, bpm, n - 1, at);
        assert(forall|k: int| 0 <= k < rest.len() ==> #[trigger] all[k] == rest[k]);
        if 0 <= at < n - 1 {
            if rest.contains(at as usize) {
                let k = choose|k: int| 0 <= k < rest.len() && rest[k] == at as usize;
                assert(all[k] == at as usize);
            }
            if all.contains(at as usize) {
                let k = choose|k: int| 0 <= k < all.len() && all[k] == at as usize;
                assert(rest[k] == at as usize);
            }
        } else if at == n - 1 {
            if projects[at].passes(query, genres, tags, bpm) {
                assert(all[rest.len() as int] == at as usize);
            } else if all.contains(at as usize) {
                let k = choose|k: int| 0 <= k < all.len() && all[k] == at as usize;
                assert(rest[k] == at as usize);
            }
        }
    }
}

/// The list shows exactly the projects that pass the search and the filters, in
/// their order, each once. A tempo filter does not count while tempos are still
/// being read.
pub proof fn the_list_shows_what_passes(manager: ProjectManager, query: ListQuery, at: int)
    requires
        0 <= at < manager.projects@.len(),
    ensures
        ({
            let bpm = if manager.bpm_filter_loading {
                None
            } else {
                manager.bpm_filter
            };
            let shown = manager.visible(query);
            &&& shown.contains(at as usize) <==> manager.projects@[at].passes(
                lowercase(query.search@),
                views(query.genres@),
                views(query.tags@),
                bpm,
            )
            &&& forall|k: int, l: int|
                #![trigger shown[k], shown[l]]
                0 <= k < l < shown.len() ==> shown[k] < shown[l]
            &&& forall|k: int|
                0 <= k < shown.len() ==> (#[trigger] shown[k]) < manager.projects@.len()
        }),
{
    assert(manager.projects.len() == manager.projects@.len());
    passing_places(
        manager.projects@,
        lowercase(query.search@),
        views(query.genres@),
        views(query.tags@),
        manager.bpm_in_force(),
        manager.projects@.len() as int,
        at,
    );
}

/// An empty list says why: there are no projects, the filters let none through, or
/// the search does not. A list that shows something says nothing.
pub proof fn an_empty_list_says_why(manager: ProjectManager, query: ListQuery)
    ensures
        manager.visible(query).len() > 0 <==> manager.empty_text(query) is None,
        manager.projects@.len() == 0 ==> manager.empty_text(query) == Some(
            "No projects yet — watch a folder, or add one."@,
        ),
        manager.visible(query).len() == 0 && manager.projects@.len() > 0 && (query.genres@.len() > 0
            || query.tags@.len() > 0 || (manager.bpm_filter is Some && !manager.bpm_filter_loading))
            ==> manager.empty_text(query) == Some("Nothing matches those filters."@),
        manager.visible(query).len() == 0 && manager.projects@.len() > 0 && query.genres@.len() == 0
            && query.tags@.len() == 0 && manager.bpm_filter is None ==> manager.empty_text(query)
            == Some("Nothing matches that search."@),
{
    if manager.projects@.len() == 0 {
        assert(manager.visible(query) =~= Seq::<usize>::empty());
    }
}

/// What asks for attention is counted: none of it exactly if every project is safe,
/// on its way, or elsewhere.
pub proof fn attention_is_counted(projects: Seq<Project>, n: int)
    requires
        0 <= n <= projects.len(),
    ensures
        count_attention(projects, n) <= n,
        count_attention(projects, n) == 0 <==> forall|i: int|
            0 <= i < n ==> (#[trigger] projects[i]).status is Downloaded
                || projects[i].status is NotDownloaded || projects[i].status is Syncing,
        n > 0 ==> count_attention(projects, n) - count_attention(projects, n - 1) == (match projects[n
            - 1].status {
            ProjectStatus::NeverBackedUp | ProjectStatus::OutOfSync(_) | ProjectStatus::Conflicted => 1int,
            _ => 0,
        }),
    decreases n,
{
    if n > 0 {
        attention_is_counted(projects, n - 1);
    }
}

/// Connected providers are counted, one by one.
pub proof fn connections_are_counted(providers: Seq<ProviderListing>, n: int)
    requires
        0 <= n <= providers.len(),
    ensures
        count_connected(providers, n) <= n,
        count_connected(providers, n) == 0 <==> forall|i: int|
            0 <= i < n ==> !((#[trigger] providers[i]).availability is Connected),
        n > 0 ==> count_connected(providers, n) - count_connected(providers, n - 1) == (if providers[n
            - 1].availability is Connected {
            1int
        } else {
            0
        }),
    decreases n,
{
    if n > 0 {
        connections_are_counted(providers, n - 1);
    }
}

/// Projects to download are those that are not on this computer.
pub proof fn projects_to_download_are_counted(projects: Seq<Project>, n: int)
    requires
        0 <= n <= projects.len(),
    ensures
        count_remote(projects, n) <= n,
        count_remote(projects, n) == 0 <==> forall|i: int|
            0 <= i < n ==> (#[trigger] projects[i]).live_set is Some,
        n > 0 ==> count_remote(projects, n) - count_remote(projects, n - 1) == (if projects[n
            - 1].live_set is None {
            1int
        } else {
            0
        }),
    decreases n,
{
    if n > 0 {
        projects_to_download_are_counted(projects, n - 1);
    }
}

/// Folders are told with what they hold: its number and its size, added up over
/// folders.
pub proof fn folders_add_up(folders: Seq<WatchedFolder>, folder: WatchedFolder)
    ensures
        all_projects(Seq::empty()) == 0,
        all_bytes(Seq::empty()) == 0,
        all_projects(folders.push(folder)) == all_projects(folders) + folder.projects@.len(),
        all_bytes(folders.push(folder)) == all_bytes(folders) + bytes_sum(folder.projects@),
{
    assert(folders.push(folder).drop_last() =~= folders);
}

/// The size of a folder is that of its projects together.
pub proof fn sizes_add_up(projects: Seq<FoundProject>, project: FoundProject)
    ensures
        bytes_sum(Seq::empty()) == 0,
        bytes_sum(projects.push(project)) == bytes_sum(projects) + project.bytes,
{
    assert(projects.push(project).drop_last() =~= projects);
}

/// The first four projects of a folder are named, in their order.
pub proof fn the_first_four_are_named(projects: Seq<FoundProject>, i: int)
    requires
        0 <= i < projects.len(),
        i < 4,
    ensures
        named(projects).len() == (if projects.len() < 4 {
            projects.len()
        } else {
            4
        }),
        named(projects)[i].0 == (match projects[i].location {
            Some(location) => location.relative_path@,
            None => projects[i].name@,
        }),
{
}

// ---------------------------------------------------------------------------
// Colours
// ---------------------------------------------------------------------------

/// A project's colour says how it stands: red for a conflict, amber where only this
/// computer has the latest work, green where it is safe, blue where something is to
/// come or is under way, and faint where it is elsewhere.
pub proof fn colours_say_how_a_project_stands(status: ProjectStatus)
    ensures
        status_shade(status) is Red <==> status is Conflicted,
        status_shade(status) is Green <==> status is Downloaded,
        status_shade(status) is Faint <==> status is NotDownloaded,
        status_shade(status) is Amber <==> status is NeverBackedUp || status
            == ProjectStatus::OutOfSync(SyncDirection::LocalAhead),
        status_shade(status) is Blue <==> status is Syncing || status == ProjectStatus::OutOfSync(
            SyncDirection::UpstreamAhead,
        ),
{
}

/// The night is dark and the day is light: the ground is, and what is written on it
/// stands out.
pub proof fn the_night_is_dark(appearance: Appearance)
    ensures
        appearance is Night <==> appearance.mode() is Dark,
        Colour::Background.shade(Appearance::Night) < Colour::Ink.shade(Appearance::Night),
        Colour::Background.shade(Appearance::Day) > Colour::Ink.shade(Appearance::Day),
{
}

// ---------------------------------------------------------------------------
// The introduction, providers and conflicts
// ---------------------------------------------------------------------------

/// Only the name is asked for: the other steps may be passed over.
pub proof fn only_a_name_is_needed(manager: ProjectManager, typed: Seq<char>)
    ensures
        manager.onboarding_step is Profile ==> (manager.may_continue(typed) <==> !is_blank(typed)),
        manager.onboarding_step is Provider || manager.onboarding_step is Music
            ==> manager.may_continue(typed),
{
}

/// A provider that is connected is not offered again. Another is offered with a
/// sign-in exactly if it has a way to sign in.
pub proof fn sign_in_is_announced(row: PickerRow, listing: ProviderListing)
    requires
        offers_provider(row, listing),
    ensures
        row.connected <==> listing.availability is Connected,
        listing.availability is Connected ==> row.action@ == "CONNECTED"@,
        !(listing.availability is Connected) && (forall|i: int|
            0 <= i < listing.entry.auth_methods@.len() ==> (
            #[trigger] listing.entry.auth_methods@[i]) is NoAuth) ==> row.action@
            == "ADD DIRECTLY →"@,
        !(listing.availability is Connected) && (exists|i: int|
            0 <= i < listing.entry.auth_methods@.len() && !((
            #[trigger] listing.entry.auth_methods@[i]) is NoAuth)) ==> row.action@
            == "SIGN-IN REQUIRED →"@,
{
}

/// Each side of a conflict is shown on its own side, with the choice that was made.
pub proof fn each_side_is_shown_as_its_own(
    row: ConflictRow,
    field: crate::backup::ConflictedField,
    choice: crate::backup::ConflictChoice,
)
    requires
        shows_conflict(row, field, choice),
    ensures
        row.choice == choice,
        row.path@ == field.path@,
        field.local is None ==> row.local@ == "Not present"@,
        field.remote is None ==> row.remote@ == "Not present"@,
        field.local is Some && field.remote is None ==> row.local@ == crate::backup::value_text(
            crate::json::field_at(crate::json::content_of(field.local->0), ""@)->0,
        ),
        field.remote is Some && field.local is None ==> row.remote@ == crate::backup::value_text(
            crate::json::field_at(crate::json::content_of(field.remote->0), ""@)->0,
        ),
{
}

/// The row of a version leads to that version.
pub proof fn a_version_row_leads_to_its_version(row: VersionRow, version: ProjectVersion)
    requires
        is_version_row(row, version),
    ensures
        row.commit == version.id,
        version.version@.is_prefix_of(row.title@),
        version.created_at@.is_prefix_of(row.time@),
{
    assert(version.version@ =~= row.title@.subrange(0, version.version@.len() as int));
    assert(version.created_at@ =~= row.time@.subrange(0, version.created_at@.len() as int));
}

/// A provider is connected by its own button, in the list of all of them, until it
/// is connected.
pub proof fn providers_have_a_button_each(
    prefix: Seq<char>,
    providers: Seq<ProviderListing>,
    n: int,
    i: int,
)
    requires
        0 <= i < n <= providers.len(),
    ensures
        provider_nodes(prefix, providers, n).len() == n,
        provider_nodes(prefix, providers, n)[i].id == prefix + providers[i].entry.id@,
        provider_nodes(prefix, providers, n)[i].label == providers[i].entry.name@,
        provider_nodes(prefix, providers, n)[i].actions.len() == 0
            <==> providers[i].availability is Connected,
    decreases n,
{
    reveal_with_fuel(provider_nodes, 2);
    if i < n - 1 {
        providers_have_a_button_each(prefix, providers, n - 1, i);
    } else if n > 1 {
        providers_have_a_button_each(prefix, providers, n - 1, 0);
    }
}

/// Everything can be backed up at once as long as some project has work that is
/// only on this computer.
pub proof fn backing_up_everything_is_offered(projects: Seq<Project>)
    ensures
        any_waits(projects) <==> exists|i: int|
            0 <= i < projects.len() && ((#[trigger] projects[i]).status is NeverBackedUp
                || projects[i].status == ProjectStatus::OutOfSync(SyncDirection::LocalAhead)),
{
    if any_waits(projects) {
        let i = choose|i: int|
            0 <= i < projects.len() && (#[trigger] projects[i]).status.next_action() is Push;
        assert(projects[i].status is NeverBackedUp || projects[i].status
            == ProjectStatus::OutOfSync(SyncDirection::LocalAhead));
    }
}

// ---------------------------------------------------------------------------
// Clicks
// ---------------------------------------------------------------------------

/// A switch is switched to what it is not, and a folder is not scanned, nor are
/// providers read, while that is under way.
pub proof fn switches_switch(manager: ProjectManager, r: Result<ClickAction, String>)
    ensures
        manager.answers_main("automatic-backups"@, r) ==> r == Ok::<ClickAction, String>(
            ClickAction::SetAutomaticBackups(!manager.automatic_backups),
        ),
        manager.answers_main("verify-uploads"@, r) ==> r == Ok::<ClickAction, String>(
            ClickAction::SetVerifyUploads(!manager.verify_uploads),
        ),
        manager.answers_main("watch-another-folder"@, r) ==> (r is Err <==> manager.scanning),
        manager.answers_main("refresh-provider-projects"@, r) ==> (r is Err
            <==> manager.remote_refreshing),
        manager.answers_main("save-project-metadata"@, r) ==> r == Ok::<ClickAction, String>(
            ClickAction::SaveProjectMetadata(manager.selected_project),
        ),
        manager.answers_main("backup-all"@, r) ==> r matches Ok(ClickAction::BackUpAll),
{
    reveal_strlit("automatic-backups");
    reveal_strlit("verify-uploads");
    reveal_strlit("watch-another-folder");
    reveal_strlit("refresh-provider-projects");
    reveal_strlit("save-project-metadata");
    reveal_strlit("backup-all");
    reveal_strlit("shortcut-refresh");
    reveal_strlit("open-settings");
    reveal_strlit("onboarding-choose-provider");
    reveal_strlit("onboarding-watch-folder");
    reveal_strlit("continue-onboarding");
    reveal_strlit("previous-onboarding");
    reveal_strlit("add-provider");
    reveal_strlit("add-path-alias");
    reveal_strlit("save-display-name");
    assert("automatic-backups"@.len() == 17);
    assert("verify-uploads"@.len() == 14);
    assert("watch-another-folder"@.len() == 20);
    assert("refresh-provider-projects"@.len() == 25);
    assert("save-project-metadata"@.len() == 21);
    assert("backup-all"@.len() == 10);
    assert("shortcut-refresh"@.len() == 16);
    assert("open-settings"@.len() == 13);
    assert("onboarding-choose-provider"@.len() == 26);
    assert("onboarding-watch-folder"@.len() == 23);
    assert("continue-onboarding"@.len() == 19);
    assert("previous-onboarding"@.len() == 19);
    assert("add-provider"@.len() == 12);
    assert("add-path-alias"@.len() == 14);
    assert("save-display-name"@.len() == 17);
    assert("automatic-backups"@[0] == 'a');
    assert("save-display-name"@[0] == 's');
    assert("verify-uploads"@[0] == 'v');
    assert("add-path-alias"@[0] == 'a');
    assert("watch-another-folder"@[0] == 'w');
    assert("save-project-metadata"@[0] == 's');
}

/// The root of an overlay is the window that it was opened over, and no other.
pub proof fn overlays_show_where_they_were_opened(state: OverlayState, host: OverlayHost)
    ensures
        state.shown(host) is Some <==> state.host == host && !(state.overlay is Hidden),
        state.shown(host) matches Some(overlay) ==> overlay == state.overlay,
{
}

// ---------------------------------------------------------------------------
// What is published
// ---------------------------------------------------------------------------

/// What is published comes from the window in use, and only where it says something
/// new.
pub proof fn only_news_of_the_active_window_is_published(
    publisher: InspectionPublisher,
    window: WindowId,
    nodes: Seq<NodeView>,
    size: (u32, u32),
)
    ensures
        publisher.admits(window, true),
        publisher.admits(window, false) <==> publisher.active_window is None
            || publisher.active_window == Some(window),
        publisher.is_news(nodes, size) <==> crate::inspection::node_views(
            publisher.published_nodes@,
        ) != nodes || publisher.published_size != size,
{
}

/// Names that say nothing are taken byte by byte, by the FNV-1a hash of 64 bits.
pub proof fn hidden_names_are_hashes(prefix: Seq<char>, hash: u64, bytes: Seq<u8>, byte: u8)
    ensures
        fnv(hash, Seq::empty()) == hash,
        fnv(hash, bytes.push(byte)) == (fnv(hash, bytes) ^ (byte as u64)).wrapping_mul(
            1_099_511_628_211,
        ),
        FNV_START == 14_695_981_039_346_656_037,
        opaque_id(prefix, bytes) == prefix + "-"@ + crate::inspection::hex(
            fnv(14_695_981_039_346_656_037, bytes) as nat,
            16,
        ),
    decreases bytes.len(),
{
    let more = bytes.push(byte);
    if bytes.len() == 0 {
        assert(more.skip(1) =~= Seq::<u8>::empty());
        assert(bytes =~= Seq::<u8>::empty());
        assert(more[0] == byte);
        reveal_with_fuel(fnv, 2);
    } else {
        let next = (hash ^ (bytes[0] as u64)).wrapping_mul(0x0000_0100_0000_01b3);
        assert(more.skip(1) =~= bytes.skip(1).push(byte));
        assert(more[0] == bytes[0]);
        hidden_names_are_hashes(prefix, next, bytes.skip(1), byte);
    }
}

// ---------------------------------------------------------------------------
// Starting
// ---------------------------------------------------------------------------

/// Options may come in any order and number; the last list of providers counts.
pub proof fn options_take_effect(
    rest: Seq<Seq<char>>,
    path: Seq<char>,
    file: Option<Seq<char>>,
    inspect: bool,
)
    ensures
        asks(Seq::empty(), file, inspect) == (StartupView::Run { providers_file: file, inspect }),
        asks(seq!["--inspect"@] + rest, file, inspect) == asks(rest, file, true),
        asks(seq!["--providers-file"@, path] + rest, file, inspect) == asks(
            rest,
            Some(path),
            inspect,
        ),
        asks(seq!["--providers-file="@ + path] + rest, file, inspect) == asks(
            rest,
            Some(path),
            inspect,
        ),
        asks(seq!["--help"@] + rest, file, inspect) is ShowUsage,
        asks(seq!["-h"@] + rest, file, inspect) is ShowUsage,
        asks(seq!["--providers-file"@], file, inspect) is Invalid,
{
    reveal_strlit("--inspect");
    reveal_strlit("--help");
    reveal_strlit("-h");
    reveal_strlit("--providers-file");
    reveal_strlit("--providers-file=");
    let a = seq!["--inspect"@] + rest;
    assert(a.skip(1) =~= rest);
    assert(a[0] == "--inspect"@);
    assert("--inspect"@.len() == 9 && "--help"@.len() == 6 && "-h"@.len() == 2);
    let b = seq!["--providers-file"@, path] + rest;
    assert(b.skip(2) =~= rest);
    assert(b[0] == "--providers-file"@ && b[1] == path);
    let whole = "--providers-file="@ + path;
    let c = seq![whole] + rest;
    assert(c.skip(1) =~= rest);
    assert(c[0] == whole);
    assert(whole.len() >= 17);
    assert(whole.skip("--providers-file="@.len() as int) =~= path);
    assert(whole.subrange(0, 0int + "--providers-file="@.len()) =~= "--providers-file="@);
    assert(starts(whole, "--providers-file="@));
    let d = seq!["--help"@] + rest;
    assert(d[0] == "--help"@);
    let e = seq!["-h"@] + rest;
    assert(e[0] == "-h"@);
    let f = seq!["--providers-file"@];
    assert(f[0] == "--providers-file"@ && f.len() == 1);
}

/// A step of the introduction is done once there is what it asks for: a connected
/// provider, or a watched folder.
pub proof fn steps_are_done_when_they_are(
    manager: ProjectManager,
    screen: crate::screens::OnboardingScreen,
)
    requires
        manager.shows_step(screen),
    ensures
        manager.onboarding_step is Profile ==> !screen.done && screen.button is None,
        manager.onboarding_step is Provider ==> (screen.done <==> exists|i: int|
            0 <= i < manager.providers@.len() && (#[trigger] manager.providers@[i]).availability
                is Connected),
        manager.onboarding_step is Music ==> (screen.done <==> manager.state.watched_folders@.len()
            > 0),
        !(manager.onboarding_step is Profile) ==> screen.button is Some && screen.status is Some,
{
    connections_are_counted(manager.providers@, manager.providers@.len() as int);
}

/// A folder's row tells what the folder holds, and how many of its projects it does
/// not name.
pub proof fn a_folder_row_tells_what_it_holds(
    row: crate::panels::FolderRow,
    folder: WatchedFolder,
    home: Option<Seq<char>>,
)
    requires
        shows_folder(row, folder, home),
    ensures
        row.empty <==> folder.projects@.len() == 0,
        row.more is Some <==> folder.projects@.len() > 4,
        row.more matches Some(text) ==> text@ == "… and "@ + decimal(
            (folder.projects@.len() - 4) as nat,
        ) + " more"@,
        row.projects@.len() == (if folder.projects@.len() < 4 {
            folder.projects@.len()
        } else {
            4
        }),
        folder.projects@.len() == 1 ==> row.summary@ == "1"@ + " PROJECT"@ + ""@ + " · "@
            + crate::sizes::bytes_text(bytes_sum(folder.projects@)),
{
    assert(crate::panels::pair_views(row.projects@).len() == row.projects@.len());
    assert(named(folder.projects@).len() == (if folder.projects@.len() < 4 {
        folder.projects@.len()
    } else {
        4
    }));
    reveal_strlit("1");
    assert(decimal(1) =~= "1"@);
}

/// Signing in is shown as far as it got, and what is shown is of the provider.
pub proof fn signing_in_is_shown_as_it_goes(
    manager: ProjectManager,
    panel: crate::panels::AuthPanel,
    listing: ProviderListing,
)
    requires
        manager.shows_sign_in(panel, listing),
    ensures
        manager.auth_phase is Ready <==> panel.content is Begin,
        manager.auth_phase is Waiting <==> panel.content is Waiting,
        manager.auth_phase is DeviceCode <==> panel.content is DeviceCode,
        manager.auth_phase is Complete <==> panel.content is Complete,
        manager.auth_phase is Failed <==> panel.content is Failed,
        panel.content matches crate::panels::AuthContent::Begin { asks_credential, .. } ==> (
        asks_credential <==> crate::catalog::preferred_method(listing.entry.auth_methods@) is Pat),
        panel.title@ == "Connect "@ + listing.entry.name@,
{
}

/// What is left to recover is told: nothing while providers are being asked, and
/// otherwise how many projects are elsewhere.
pub proof fn what_is_to_recover_is_told(manager: ProjectManager)
    ensures
        manager.remote_refreshing ==> manager.recovery_text() == "Checking connected providers…"@,
        !manager.remote_refreshing && (forall|i: int|
            0 <= i < manager.projects@.len() ==> (#[trigger] manager.projects@[i]).live_set is Some)
            ==> manager.recovery_text() == "No provider-only projects found."@,
{
    projects_to_download_are_counted(manager.projects@, manager.projects@.len() as int);
}

/// The label of the tempo filter says what is filtered by, and that tempos are still
/// being read.
pub proof fn the_tempo_label_says_what_is_filtered(manager: ProjectManager)
    ensures
        manager.bpm_filter is None && !manager.bpm_filter_loading ==> manager.bpm_label_text()
            == "BPM"@,
        manager.bpm_filter matches Some(BpmFilter::Exact(bpm)) ==> (!manager.bpm_filter_loading
            ==> manager.bpm_label_text() == "BPM · "@ + decimal(bpm as nat) + ""@),
        manager.bpm_filter matches Some(BpmFilter::Range { min, max })
            ==> (!manager.bpm_filter_loading ==> manager.bpm_label_text() == "BPM · "@ + (decimal(
            min as nat,
        ) + "–"@ + decimal(max as nat)) + ""@),
        manager.bpm_filter_loading ==> manager.bpm_label_text().last() == '…',
{
    reveal_strlit("…");
    reveal_strlit("BPM · …");
}

/// The row of the selected project has its button, which waits while a transfer
/// runs, and a button to save its labels, which is there for labels that changed and
/// are not being saved. Another row has neither.
pub proof fn only_the_selected_row_has_buttons(
    manager: ProjectManager,
    at: int,
    entries: crate::tree::Entries,
)
    requires
        0 <= at < manager.projects@.len(),
    ensures
        ({
            let project = manager.projects@[at];
            let nodes = manager.row_nodes(at, entries);
            let saving = manager.metadata_saving is Some && manager.metadata_saving->0@
                == project.id@;
            &&& nodes[0].label == project.name@
            &&& at != manager.selected_project ==> nodes.len() == 1
            &&& at == manager.selected_project ==> {
                &&& nodes.len() == 5
                &&& nodes[1].actions.len() == 0 <==> project.status is Syncing
                &&& nodes[4].actions.len() > 0 <==> manager.draft_view(entries.labels)
                    != project.metadata@ && !saving
            }
        }),
{
}

/// No more than a hundred projects are listed at once.
pub proof fn a_hundred_projects_are_listed_at_once(
    manager: ProjectManager,
    entries: crate::tree::Entries,
)
    ensures
        manager.library_nodes(entries).len() <= 507,
{
    crate::tree::library_trees_are_bounded(manager, entries);
}

/// A folder is measured up to four thousand entries: a file adds its size, a folder
/// is looked into later, and what is one too many does not count and ends it.
pub proof fn measuring_stops_after_four_thousand(
    sizes: FolderBytes,
    entry: MeasuredEntry,
    after: FolderBytes,
    more: bool,
)
    requires
        sizes.counts(entry, after, more),
        entry matches MeasuredEntry::File(bytes) ==> sizes.total + bytes <= u64::MAX,
    ensures
        more <==> sizes.seen < 4000,
        after.seen == sizes.seen + 1,
        more ==> (entry matches MeasuredEntry::File(bytes) ==> after.total == sizes.total + bytes),
        more ==> (entry matches MeasuredEntry::Folder(path) ==> after.folders@
            == sizes.folders@.push(path)),
        !more || entry is Unknown ==> after.total == sizes.total && after.folders@
            == sizes.folders@,
{
}

/// Each folder is looked into once, the last one found first, and none once the
/// measurement is over.
pub proof fn folders_are_looked_into_once(
    sizes: FolderBytes,
    after: FolderBytes,
    folder: Option<String>,
)
    requires
        sizes.hands_out(after, folder),
    ensures
        folder is None <==> sizes.folders@.len() == 0 || sizes.seen > 4000,
        folder is None ==> after == sizes,
        folder matches Some(path) ==> sizes.folders@ == after.folders@.push(path),
        after.total == sizes.total,
{
}

} // verus!
