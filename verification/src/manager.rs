//! The project manager: what the window knows, and what changes it.
use vstd::prelude::*;

use crate::appearance::Appearance;
use crate::automatic_backup::{revisions_of, AutomaticBackupScheduler};
use crate::backup::{ConflictBackup, ConflictChoice};
use crate::catalog::{is_local_listing, local_provider, provider_index, CatalogState,
    ProviderAvailability, ProviderListing};
use crate::detail::BpmFilter;
use crate::filters::{BpmFilterMode, BpmRange, DEFAULT_EXACT_BPM};
use crate::format::{genres_of, ProjectMetadata};
use crate::library::{are_options, find_project, folds_in_all, has_project, library_filter_options,
    listed_projects_are_found, load_library, loads_library, project_index, replace_provider_projects, sort_projects,
    without_rows, LibraryFilterOptions, ReadProject, SortOrder, WatchedFolder};
use crate::moment::Moment;
use crate::navigation::{AuthPhase, OnboardingStep, Overlay, OverlayHost, OverlayState, Route};
use crate::notice::{joined2, joined3, notice_view, says, Notice, NoticeLevel, NoticeView};
use crate::order::{is_sorted_from, sorting_keeps_the_values};
use crate::path::{equal, is_beneath, lists_path, listed, parent, parent_of, same_path, starts_with,
    Platform};
use crate::project::Project;
use crate::remote::RemoteCatalogue;
use crate::retention::VersionRetention;
use crate::sizes::format_bytes;
use crate::state::{alias_views, aliases_with, attempts_survive_a_restart, covered, with_path,
    AppState};
use crate::status::ProjectStatus;
use crate::text::{blank, copy_texts, count_text, decimal, holds_text, is_blank, optional_view, same,
    starts, trim, trimmed, views};

verus! {

/// A backup that waits for a person's choices.
#[derive(Debug)]
pub struct PendingConflict {
    pub project_id: String,
    pub project_name: String,
    pub backup: ConflictBackup,
    /// One choice for each conflict.
    pub choices: Vec<ConflictChoice>,
}

/// Everything the window knows.
#[derive(Debug)]
pub struct ProjectManager {
    /// The system this runs on.
    pub platform: Platform,
    pub projects: Vec<Project>,
    pub selected_project: usize,
    pub route: Route,
    pub onboarding_step: OnboardingStep,
    pub overlay: OverlayState,
    pub display_name: String,
    pub filter_options: LibraryFilterOptions,
    /// The range the tempo slider is set to.
    pub bpm_range: BpmRange,
    /// The tempo the exact slider is set to.
    pub bpm_exact: u16,
    pub bpm_filter_mode: BpmFilterMode,
    pub bpm_filter: Option<BpmFilter>,
    pub bpm_popover_open: bool,
    /// Whether projects are being read for their tempo.
    pub bpm_filter_loading: bool,
    pub genre_values: Vec<String>,
    pub tag_values: Vec<String>,
    /// The project whose labels are being edited.
    pub metadata_input_project_id: Option<String>,
    /// The labels as they were before the edit.
    pub metadata_input_baseline: ProjectMetadata,
    /// The project whose labels are being saved.
    pub metadata_saving: Option<String>,
    pub providers: Vec<ProviderListing>,
    pub catalog_state: CatalogState,
    pub auth_phase: AuthPhase,
    pub automatic_backups: bool,
    pub automatic_backup_scheduler: AutomaticBackupScheduler,
    pub verify_uploads: bool,
    /// How much history providers keep after successful backups.
    pub version_retention: VersionRetention,
    pub appearance: Appearance,
    /// What is remembered between launches.
    pub state: AppState,
    pub settings_open: bool,
    /// Folders being watched for projects, and what each one holds.
    pub watched_folders: Vec<WatchedFolder>,
    /// Whether a folder is being scanned.
    pub scanning: bool,
    /// Whether connected provider catalogues are being refreshed.
    pub remote_refreshing: bool,
    /// A provider changed while a refresh was running; run once more after it.
    pub remote_refresh_pending: bool,
    /// Provider catalogue failures from the latest refresh.
    pub remote_discovery_errors: Vec<String>,
    pub pending_conflict: Option<PendingConflict>,
}

/// What is to be done once the manager has changed.
#[derive(Debug)]
pub struct Effects {
    pub notice: Option<Notice>,
    /// Whether the state is to be saved.
    pub save: bool,
    /// The places of the providers whose projects are to be read.
    pub refresh: Vec<usize>,
}

// ---------------------------------------------------------------------------
// Providers
// ---------------------------------------------------------------------------

/// A listing that is connected where the state says so.
pub open spec fn remembered(listing: ProviderListing, connected: Seq<String>) -> ProviderListing {
    if holds_text(connected, listing.entry.id@) {
        ProviderListing { availability: ProviderAvailability::Connected, ..listing }
    } else {
        listing
    }
}

/// Whether a provider is listed as connected.
pub open spec fn lists_connected(list: Seq<ProviderListing>, id: Seq<char>) -> bool {
    exists|i: int|
        0 <= i < list.len() && (#[trigger] list[i]).entry.id@ == id && list[i].availability
            is Connected
}

/// A published listing that is connected where the state or the list so far
/// says so.
pub open spec fn carried_over(
    listing: ProviderListing,
    current: Seq<ProviderListing>,
    connected: Seq<String>,
) -> ProviderListing {
    if holds_text(connected, listing.entry.id@) || lists_connected(current, listing.entry.id@) {
        ProviderListing { availability: ProviderAvailability::Connected, ..listing }
    } else {
        listing
    }
}

/// Whether a provider is a folder.
pub open spec fn is_folder(listing: ProviderListing) -> bool {
    starts(listing.entry.id@, "local:"@)
}

/// The folders among providers.
pub open spec fn folders_of(list: Seq<ProviderListing>) -> Seq<ProviderListing> {
    list.filter(|listing: ProviderListing| is_folder(listing))
}

/// Whether a provider is one of the person's own folders, connected where the
/// state says so.
pub open spec fn is_own_folder(
    on: Platform,
    listing: ProviderListing,
    path: Seq<char>,
    connected: Seq<String>,
) -> bool {
    &&& is_local_listing(on, listing, path)
    &&& listing.availability == (if holds_text(connected, listing.entry.id@) {
        ProviderAvailability::Connected
    } else {
        ProviderAvailability::OnYourNetwork
    })
}

/// The places of the connected providers.
pub open spec fn connected_places(list: Seq<ProviderListing>) -> Seq<usize>
    decreases list.len(),
{
    if list.len() == 0 {
        Seq::empty()
    } else {
        let before = connected_places(list.drop_last());
        if list.last().availability is Connected {
            before.push((list.len() - 1) as usize)
        } else {
            before
        }
    }
}

fn is_listed_connected(list: &Vec<ProviderListing>, id: &str) -> (r: bool)
    ensures
        r == lists_connected(list@, id@),
{
    let mut i: usize = 0;
    while i < list.len()
        invariant
            i <= list@.len(),
            forall|j: int|
                0 <= j < i ==> !((#[trigger] list@[j]).entry.id@ == id@ && list@[j].availability
                    is Connected),
        decreases list@.len() - i,
    {
        if same(list[i].entry.id.as_str(), id) && list[i].is_connected() {
            return true;
        }
        i = i + 1;
    }
    false
}

/// The person's own folders as providers.
fn own_folders(on: Platform, state: &AppState) -> (r: Vec<ProviderListing>)
    ensures
        r@.len() == state.local_providers@.len(),
        forall|i: int|
            0 <= i < r@.len() ==> is_own_folder(
                on,
                #[trigger] r@[i],
                state.local_providers@[i]@,
                state.connected_providers@,
            ),
{
    let mut out: Vec<ProviderListing> = Vec::new();
    let mut i: usize = 0;
    while i < state.local_providers.len()
        invariant
            i <= state.local_providers@.len(),
            out@.len() == i,
            forall|j: int|
                0 <= j < i ==> is_own_folder(
                    on,
                    #[trigger] out@[j],
                    state.local_providers@[j]@,
                    state.connected_providers@,
                ),
        decreases state.local_providers@.len() - i,
    {
        let mut listing = local_provider(on, state.local_providers[i].as_str());
        if state.is_provider_connected(listing.entry.id.as_str()) {
            listing.mark_connected();
        }
        out.push(listing);
        i = i + 1;
    }
    out
}

/// Whether these are the providers to start with: those of a file, then the
/// person's own folders, each connected where the state says so.
pub open spec fn starts_with_providers(
    on: Platform,
    providers: Seq<ProviderListing>,
    file: Seq<ProviderListing>,
    state: AppState,
) -> bool {
    &&& providers.len() == file.len() + state.local_providers@.len()
    &&& forall|i: int|
        0 <= i < file.len() ==> #[trigger] providers[i] == remembered(
            file[i],
            state.connected_providers@,
        )
    &&& forall|i: int|
        0 <= i < state.local_providers@.len() ==> is_own_folder(
            on,
            #[trigger] providers[file.len() + i],
            state.local_providers@[i]@,
            state.connected_providers@,
        )
}

fn initial_providers(
    on: Platform,
    file: Vec<ProviderListing>,
    state: &AppState,
) -> (r: Vec<ProviderListing>)
    ensures
        starts_with_providers(on, r@, file@, *state),
{
    let ghost all = file@;
    let mut rest = file;
    let mut out: Vec<ProviderListing> = Vec::new();
    assert(all.skip(0) =~= all);
    while rest.len() > 0
        invariant
            out@.len() + rest@.len() == all.len(),
            rest@ == all.skip(out@.len() as int),
            forall|i: int|
                0 <= i < out@.len() ==> #[trigger] out@[i] == remembered(
                    all[i],
                    state.connected_providers@,
                ),
        decreases rest@.len(),
    {
        let mut listing = rest.remove(0);
        if state.is_provider_connected(listing.entry.id.as_str()) {
            listing.mark_connected();
        }
        out.push(listing);
        assert(rest@ =~= all.skip(out@.len() as int));
    }
    let ghost head = out@;
    let mut own = own_folders(on, state);
    let ghost tail = own@;
    out.append(&mut own);
    assert(out@ =~= head + tail);
    assert forall|i: int| 0 <= i < state.local_providers@.len() implies is_own_folder(
        on,
        #[trigger] out@[all.len() + i],
        state.local_providers@[i]@,
        state.connected_providers@,
    ) by {
        assert(out@[all.len() + i] == tail[i]);
    }
    out
}

// ---------------------------------------------------------------------------
// Selection
// ---------------------------------------------------------------------------

/// Where the selection goes in a list that has changed: to the project that was
/// selected, or to the first.
pub open spec fn reselected(before: Seq<Project>, selected: usize, after: Seq<Project>) -> int {
    if selected < before.len() && has_project(after, before[selected as int].id@) {
        project_index(after, before[selected as int].id@)
    } else {
        0
    }
}

fn reselect(selected: &Option<String>, projects: &Vec<Project>) -> (r: usize)
    ensures
        match *selected {
            Some(id) => r == (if has_project(projects@, id@) {
                project_index(projects@, id@)
            } else {
                0
            }),
            None => r == 0,
        },
{
    match selected {
        Some(id) => match find_project(projects, id.as_str()) {
            Some(index) => index,
            None => 0,
        },
        None => 0,
    }
}

// ---------------------------------------------------------------------------
// Refreshing
// ---------------------------------------------------------------------------

/// What reading the projects of a provider came to.
#[derive(Debug)]
pub struct CatalogueRead {
    pub provider_id: String,
    pub catalogue: Result<RemoteCatalogue, String>,
}

impl CatalogueRead {
    /// Whether the counts of every project fit.
    pub open spec fn counts_fit(self) -> bool {
        self.catalogue matches Ok(catalogue) ==> forall|i: int|
            0 <= i < catalogue.projects@.len() ==> ((#[trigger] catalogue.projects@[i]).info
                matches Some(info) ==> info.counts_fit())
    }
}

/// Whether the counts of every project of every provider fit.
pub open spec fn all_counts_fit(reads: Seq<CatalogueRead>) -> bool {
    forall|i: int| 0 <= i < reads.len() ==> (#[trigger] reads[i]).counts_fit()
}

/// Whether `after` is a library with what was read of a provider taken over.
pub open spec fn takes_over(
    before: Seq<Project>,
    read: CatalogueRead,
    after: Seq<Project>,
    now: Moment,
) -> bool {
    match read.catalogue {
        Err(_) => after == before,
        Ok(catalogue) => folds_in_all(
            without_rows(before, read.provider_id@),
            catalogue.projects@,
            after,
            now,
        ),
    }
}

/// Whether `after` is a library with what was read of each provider taken over,
/// one by one.
pub open spec fn takes_over_all(
    before: Seq<Project>,
    reads: Seq<CatalogueRead>,
    after: Seq<Project>,
    now: Moment,
) -> bool
    decreases reads.len(),
{
    if reads.len() == 0 {
        after == before
    } else {
        exists|middle: Seq<Project>|
            takes_over_all(before, reads.drop_last(), middle, now) && #[trigger] takes_over(
                middle,
                reads.last(),
                after,
                now,
            )
    }
}

/// What went wrong in reading providers.
pub open spec fn read_errors(reads: Seq<CatalogueRead>) -> Seq<Seq<char>>
    decreases reads.len(),
{
    if reads.len() == 0 {
        Seq::empty()
    } else {
        let before = read_errors(reads.drop_last());
        match reads.last().catalogue {
            Err(error) => before.push(error@),
            Ok(catalogue) => if catalogue.unavailable > 0 {
                before.push(
                    decimal(catalogue.unavailable as nat) + " project(s) on "@
                        + reads.last().provider_id@ + " could not be read"@,
                )
            } else {
                before
            },
        }
    }
}

/// Fold what was read of providers into the library.
fn take_over(
    projects: &mut Vec<Project>,
    errors: &mut Vec<String>,
    reads: Vec<CatalogueRead>,
    now: Moment,
)
    requires
        old(errors)@.len() == 0,
        all_counts_fit(reads@),
    ensures
        takes_over_all(old(projects)@, reads@, final(projects)@, now),
        views(final(errors)@) == read_errors(reads@),
{
    let ghost all = reads@;
    let ghost start = projects@;
    let mut rest = reads;
    let ghost mut done: int = 0;
    assert(all.skip(0) =~= all);
    assert(all.take(0).len() == 0);
    assert(views(errors@) =~= Seq::<Seq<char>>::empty());
    while rest.len() > 0
        invariant
            0 <= done,
            done + rest@.len() == all.len(),
            rest@ == all.skip(done),
            all_counts_fit(all),
            takes_over_all(start, all.take(done), projects@, now),
            views(errors@) == read_errors(all.take(done)),
        decreases rest@.len(),
    {
        let ghost middle = projects@;
        let ghost before = views(errors@);
        let ghost first = rest@[0];
        assert(first == all[done]);
        assert(first.counts_fit());
        let read = rest.remove(0);
        assert(rest@ =~= all.skip(done + 1));
        assert(all.take(done + 1).drop_last() =~= all.take(done));
        assert(all.take(done + 1).last() == first);
        match read.catalogue {
            Err(error) => {
                let ghost text = error@;
                errors.push(error);
                assert(views(errors@) =~= before.push(text));
            },
            Ok(catalogue) => {
                if catalogue.unavailable > 0 {
                    let mut message = count_text(catalogue.unavailable);
                    message.append(" project(s) on ");
                    message.append(read.provider_id.as_str());
                    message.append(" could not be read");
                    let ghost text = message@;
                    errors.push(message);
                    assert(views(errors@) =~= before.push(text));
                }
                replace_provider_projects(
                    projects,
                    read.provider_id.as_str(),
                    catalogue.projects,
                    now,
                );
            },
        }
        assert(takes_over(middle, first, projects@, now));
        proof {
            done = done + 1;
        }
    }
    assert(all.take(done) =~= all);
}

// ---------------------------------------------------------------------------
// Watched folders
// ---------------------------------------------------------------------------

/// Whether a folder lies beneath a watched one without being one itself.
pub open spec fn lies_beneath_a_root(on: Platform, folder: Seq<char>, roots: Seq<String>) -> bool {
    exists|i: int|
        0 <= i < roots.len() && !same_path(on, folder, (#[trigger] roots[i])@) && is_beneath(
            on,
            folder,
            roots[i]@,
        )
}

/// The scans of folders that are still watched.
pub open spec fn still_watched(
    on: Platform,
    folders: Seq<WatchedFolder>,
    roots: Seq<String>,
) -> Seq<WatchedFolder>
    decreases folders.len(),
{
    if folders.len() == 0 {
        Seq::empty()
    } else {
        let before = still_watched(on, folders.drop_last(), roots);
        if lists_path(on, roots, folders.last().path@) {
            before.push(folders.last())
        } else {
            before
        }
    }
}

/// The place of the first scan of a folder; the length where there is none.
pub open spec fn scan_index(on: Platform, folders: Seq<WatchedFolder>, path: Seq<char>) -> int
    decreases folders.len(),
{
    if folders.len() == 0 {
        0
    } else {
        let before = scan_index(on, folders.drop_last(), path);
        if before < folders.len() - 1 || same_path(on, folders.last().path@, path) {
            before
        } else {
            folders.len() as int
        }
    }
}

/// The scans with one more, in the place of an earlier scan of the same folder.
pub open spec fn with_scan(
    on: Platform,
    folders: Seq<WatchedFolder>,
    scan: WatchedFolder,
) -> Seq<WatchedFolder> {
    let at = scan_index(on, folders, scan.path@);
    if at < folders.len() {
        folders.update(at, scan)
    } else {
        folders.push(scan)
    }
}

fn is_beneath_a_root(on: Platform, folder: &str, roots: &Vec<String>) -> (r: bool)
    ensures
        r == lies_beneath_a_root(on, folder@, roots@),
{
    let mut i: usize = 0;
    while i < roots.len()
        invariant
            i <= roots@.len(),
            forall|j: int|
                0 <= j < i ==> !(!same_path(on, folder@, (#[trigger] roots@[j])@) && is_beneath(
                    on,
                    folder@,
                    roots@[j]@,
                )),
        decreases roots@.len() - i,
    {
        if !equal(on, folder, roots[i].as_str()) && starts_with(on, folder, roots[i].as_str()) {
            return true;
        }
        i = i + 1;
    }
    false
}

/// Forget the scans of folders that are no longer watched.
pub fn retain_watched(on: Platform, folders: &mut Vec<WatchedFolder>, roots: &Vec<String>)
    ensures
        final(folders)@ == still_watched(on, old(folders)@, roots@),
{
    let ghost all = folders@;
    let mut rest: Vec<WatchedFolder> = Vec::new();
    std::mem::swap(&mut rest, folders);
    let ghost mut done: int = 0;
    assert(all.skip(0) =~= all);
    assert(all.take(0).len() == 0);
    while rest.len() > 0
        invariant
            0 <= done,
            done + rest@.len() == all.len(),
            rest@ == all.skip(done),
            folders@ == still_watched(on, all.take(done), roots@),
        decreases rest@.len(),
    {
        let ghost first = rest@[0];
        assert(first == all[done]);
        let folder = rest.remove(0);
        assert(rest@ =~= all.skip(done + 1));
        assert(all.take(done + 1).drop_last() =~= all.take(done));
        assert(all.take(done + 1).last() == first);
        if listed(on, roots, folder.path.as_str()) {
            folders.push(folder);
        }
        proof {
            done = done + 1;
        }
    }
    assert(all.take(done) =~= all);
}

/// Put a scan in the place of an earlier one of the same folder, or behind all.
pub fn place_scan(on: Platform, folders: &mut Vec<WatchedFolder>, scan: WatchedFolder)
    ensures
        final(folders)@ == with_scan(on, old(folders)@, scan),
{
    let count: usize = folders.len();
    let ghost all = folders@;
    let mut found: usize = 0;
    let mut i: usize = 0;
    assert(all.take(0).len() == 0);
    while i < count
        invariant
            i <= count == all.len(),
            folders@ == all,
            found <= i,
            found == scan_index(on, all.take(i as int), scan.path@),
        decreases count - i,
    {
        assert(all.take(i + 1).drop_last() =~= all.take(i as int));
        if found == i && !equal(on, folders[i].path.as_str(), scan.path.as_str()) {
            found = i + 1;
        }
        i = i + 1;
    }
    assert(all.take(count as int) =~= all);
    if found < count {
        folders.set(found, scan);
    } else {
        folders.push(scan);
    }
}

// ---------------------------------------------------------------------------
// The manager
// ---------------------------------------------------------------------------

/// The screen to start with: the introduction until it was completed and there
/// is a name.
pub open spec fn initial_route(state: AppState) -> Route {
    if !state.onboarding_complete || is_blank(state.display_name@) {
        Route::Onboarding
    } else {
        Route::Library
    }
}

/// How many projects there are that no provider has.
pub open spec fn count_unbacked(projects: Seq<Project>) -> nat
    decreases projects.len(),
{
    if projects.len() == 0 {
        0
    } else {
        count_unbacked(projects.drop_last()) + (if projects.last().status is NeverBackedUp {
            1nat
        } else {
            0
        })
    }
}

fn unbacked_projects(projects: &Vec<Project>) -> (r: usize)
    ensures
        r == count_unbacked(projects@),
        r <= projects@.len(),
{
    let mut count: usize = 0;
    let mut i: usize = 0;
    assert(projects@.take(0).len() == 0);
    while i < projects.len()
        invariant
            i <= projects@.len(),
            count <= i,
            count == count_unbacked(projects@.take(i as int)),
        decreases projects@.len() - i,
    {
        assert(projects@.take(i + 1).drop_last() =~= projects@.take(i as int));
        if projects[i].status == ProjectStatus::NeverBackedUp {
            count = count + 1;
        }
        i = i + 1;
    }
    assert(projects@.take(i as int) =~= projects@);
    count
}

/// What a refreshed library holds, in words.
pub open spec fn refreshed_text(found: nat, unbacked: nat) -> Seq<char> {
    if found == 0 {
        "No projects yet. Watch a folder, or add one."@
    } else if unbacked == 0 {
        decimal(found) + " project(s), all backed up."@
    } else {
        decimal(found) + " project(s) · "@ + decimal(unbacked) + " only on this computer."@
    }
}

/// What an import turned up, in words.
pub open spec fn import_text(missing: nat) -> Seq<char> {
    if missing == 0 {
        "Read and ready to back up."@
    } else if missing == 1 {
        "Read. One plugin isn't on this computer."@
    } else {
        "Read. "@ + decimal(missing) + " plugins aren't on this computer."@
    }
}

/// A library with a project in the place of an earlier one with its id, or
/// behind all.
pub open spec fn with_project(projects: Seq<Project>, project: Project) -> Seq<Project> {
    if has_project(projects, project.id@) {
        projects.update(project_index(projects, project.id@), project)
    } else {
        projects.push(project)
    }
}

fn place_project(projects: &mut Vec<Project>, project: Project) -> (r: usize)
    ensures
        final(projects)@ == with_project(old(projects)@, project),
        r == project_index(old(projects)@, project.id@),
{
    match find_project(projects, project.id.as_str()) {
        Some(at) => {
            projects.set(at, project);
            at
        },
        None => {
            let at: usize = projects.len();
            projects.push(project);
            at
        },
    }
}

/// The folder a project file lies in.
pub open spec fn project_root(on: Platform, project: Project) -> Option<Seq<char>> {
    match project.live_set {
        Some(set) => parent_of(on, set@),
        None => None,
    }
}

/// The individually added projects once this one is among them, unless a
/// watched folder covers it.
pub open spec fn recorded_projects(
    on: Platform,
    state: AppState,
    project: Project,
) -> Seq<Seq<char>> {
    match project_root(on, project) {
        Some(root) => if covered(on, state.watched_folders@, root) {
            views(state.projects@)
        } else {
            with_path(on, state.projects@, root)
        },
        None => views(state.projects@),
    }
}

fn record_root(on: Platform, state: &mut AppState, project: &Project) -> (r: bool)
    ensures
        *final(state) == (AppState { projects: final(state).projects, ..*old(state) }),
        views(final(state).projects@) == recorded_projects(on, *old(state), *project),
        r == (project_root(on, *project) is Some),
{
    let root = match &project.live_set {
        Some(set) => parent(on, set.as_str()),
        None => None,
    };
    match root {
        Some(root) => {
            state.add_project(on, root.as_str());
            true
        },
        None => false,
    }
}

/// What is said of an import.
pub open spec fn imported(project: Project, replaces: bool) -> NoticeView {
    says(
        NoticeLevel::Success,
        project.name@ + (if replaces {
            " refreshed"@
        } else {
            " added"@
        }),
        import_text(project.missing_plugins@.len()),
    )
}

fn import_notice(project: &Project, replaces: bool) -> (r: Notice)
    ensures
        r@ == imported(*project, replaces),
{
    let missing: usize = project.missing_plugins.len();
    let detail = if missing == 0 {
        "Read and ready to back up.".to_owned()
    } else if missing == 1 {
        "Read. One plugin isn't on this computer.".to_owned()
    } else {
        joined3("Read. ", count_text(missing).as_str(), " plugins aren't on this computer.")
    };
    let title = joined2(
        project.name.as_str(),
        if replaces {
            " refreshed"
        } else {
            " added"
        },
    );
    Notice::success(title.as_str(), detail.as_str())
}

/// The rows that are nowhere on this computer.
pub open spec fn provider_rows(projects: Seq<Project>) -> Seq<Project>
    decreases projects.len(),
{
    if projects.len() == 0 {
        Seq::empty()
    } else {
        let before = provider_rows(projects.drop_last());
        if projects.last().live_set is None {
            before.push(projects.last())
        } else {
            before
        }
    }
}

fn take_provider_rows(projects: Vec<Project>) -> (r: Vec<Project>)
    ensures
        r@ == provider_rows(projects@),
{
    let ghost all = projects@;
    let mut rest = projects;
    let mut out: Vec<Project> = Vec::new();
    let ghost mut done: int = 0;
    assert(all.skip(0) =~= all);
    assert(all.take(0).len() == 0);
    while rest.len() > 0
        invariant
            0 <= done,
            done + rest@.len() == all.len(),
            rest@ == all.skip(done),
            out@ == provider_rows(all.take(done)),
        decreases rest@.len(),
    {
        let ghost first = rest@[0];
        assert(first == all[done]);
        let project = rest.remove(0);
        assert(rest@ =~= all.skip(done + 1));
        assert(all.take(done + 1).drop_last() =~= all.take(done));
        assert(all.take(done + 1).last() == first);
        if project.live_set.is_none() {
            out.push(project);
        }
        proof {
            done = done + 1;
        }
    }
    assert(all.take(done) =~= all);
    out
}

impl ProjectManager {
    /// The manager at launch.
    pub fn new(
        on: Platform,
        state: AppState,
        projects: Vec<Project>,
        file_providers: Option<Vec<ProviderListing>>,
    ) -> (r: Self)
        ensures
            r.platform == on,
            r.projects == projects,
            r.selected_project == 0,
            r.route == initial_route(state),
            r.onboarding_step is Profile,
            r.overlay == (OverlayState { host: OverlayHost::Main, overlay: Overlay::Hidden }),
            r.display_name == state.display_name,
            are_options(r.filter_options, projects@),
            r.bpm_range == (BpmRange { min: 1, max: 300 }),
            r.bpm_exact == 120,
            r.bpm_filter_mode is Range,
            r.bpm_filter is None,
            !r.bpm_popover_open,
            !r.bpm_filter_loading,
            projects@.len() > 0 ==> {
                &&& optional_view(r.metadata_input_project_id) == Some(projects@[0].id@)
                &&& r.metadata_input_baseline@ == projects@[0].metadata@
            },
            projects@.len() == 0 ==> {
                &&& r.metadata_input_project_id is None
                &&& r.metadata_input_baseline@ == (None::<Seq<char>>, Seq::<Seq<char>>::empty())
            },
            views(r.genre_values@) == genres_of(r.metadata_input_baseline@),
            views(r.tag_values@) == r.metadata_input_baseline@.1,
            r.metadata_saving is None,
            starts_with_providers(
                on,
                r.providers@,
                match file_providers {
                    Some(file) => file@,
                    None => Seq::empty(),
                },
                state,
            ),
            r.catalog_state == (if file_providers is Some {
                CatalogState::FromFile
            } else {
                CatalogState::Loading
            }),
            r.auth_phase is Ready,
            r.automatic_backups == state.automatic_backups,
            r.automatic_backup_scheduler@ == attempted(state),
            r.verify_uploads == state.verify_uploads,
            r.version_retention == VersionRetention::of_key(state.version_retention@),
            r.appearance == Appearance::of_key(state.appearance@),
            r.state == state,
            !r.settings_open,
            r.watched_folders@.len() == 0,
            !r.scanning,
            !r.remote_refreshing,
            !r.remote_refresh_pending,
            r.remote_discovery_errors@.len() == 0,
            r.pending_conflict is None,
    {
        let route = if !state.onboarding_complete || blank(state.display_name.as_str()) {
            Route::Onboarding
        } else {
            Route::Library
        };
        let filter_options = library_filter_options(&projects);
        let (metadata_input_project_id, baseline) = if projects.len() > 0 {
            (Some(projects[0].id.clone()), projects[0].metadata.clone())
        } else {
            (None, ProjectMetadata::default())
        };
        let genre_values = baseline.genres();
        let tag_values = copy_texts(&baseline.tags);
        let catalog_state = if file_providers.is_some() {
            CatalogState::FromFile
        } else {
            CatalogState::Loading
        };
        let providers = initial_providers(
            on,
            match file_providers {
                Some(file) => file,
                None => Vec::new(),
            },
            &state,
        );
        let attempts = state.backup_attempts();
        proof {
            let recorded = state.backup_attempts.listed();
            let known = revisions_of(attempts@);
            let wanted = attempted(state);
            assert forall|id: Seq<char>| #[trigger] known.dom().contains(id)
                == wanted.dom().contains(id) by {
                attempts_survive_a_restart(recorded, attempts@, id);
            }
            assert(known.dom() =~= wanted.dom());
            assert forall|id: Seq<char>| #[trigger] known.dom().contains(id) implies known[id]
                == wanted[id] by {
                attempts_survive_a_restart(recorded, attempts@, id);
            }
            assert(known =~= wanted);
        }
        let automatic_backup_scheduler = AutomaticBackupScheduler::from_attempted_revisions(
            attempts,
        );
        ProjectManager {
            platform: on,
            projects,
            selected_project: 0,
            route,
            onboarding_step: OnboardingStep::Profile,
            overlay: OverlayState::default(),
            display_name: state.display_name.clone(),
            filter_options,
            bpm_range: BpmRange::full(),
            bpm_exact: DEFAULT_EXACT_BPM,
            bpm_filter_mode: BpmFilterMode::default(),
            bpm_filter: None,
            bpm_popover_open: false,
            bpm_filter_loading: false,
            genre_values,
            tag_values,
            metadata_input_project_id,
            metadata_input_baseline: baseline,
            metadata_saving: None,
            providers,
            catalog_state,
            auth_phase: AuthPhase::Ready,
            automatic_backups: state.automatic_backups,
            automatic_backup_scheduler,
            verify_uploads: state.verify_uploads,
            version_retention: VersionRetention::from_key(state.version_retention.as_str()),
            appearance: Appearance::from_key(state.appearance.as_str()),
            state,
            settings_open: false,
            watched_folders: Vec::new(),
            scanning: false,
            remote_refreshing: false,
            remote_refresh_pending: false,
            remote_discovery_errors: Vec::new(),
            pending_conflict: None,
        }
    }

    /// Whether `after` is the manager with a refresh begun, which reads the
    /// providers at `reads`: those that are connected, unless a refresh runs
    /// already, which is then followed by another.
    pub open spec fn refreshes(self, after: ProjectManager, reads: Seq<usize>) -> bool {
        if self.remote_refreshing {
            &&& after == (ProjectManager { remote_refresh_pending: true, ..self })
            &&& reads == Seq::<usize>::empty()
        } else if connected_places(self.providers@).len() == 0 {
            &&& after == (ProjectManager {
                remote_discovery_errors: after.remote_discovery_errors,
                ..self
            })
            &&& after.remote_discovery_errors@.len() == 0
            &&& reads == Seq::<usize>::empty()
        } else {
            &&& after == (ProjectManager {
                remote_refreshing: true,
                remote_refresh_pending: false,
                ..self
            })
            &&& reads == connected_places(self.providers@)
        }
    }

    /// Begin to refresh the projects of connected providers; gives the places
    /// of the providers to read.
    pub fn refresh_remote_projects(&mut self) -> (r: Vec<usize>)
        ensures
            old(self).refreshes(*final(self), r@),
    {
        let mut reads: Vec<usize> = Vec::new();
        if self.remote_refreshing {
            self.remote_refresh_pending = true;
            return reads;
        }
        let mut i: usize = 0;
        assert(self.providers@.take(0).len() == 0);
        while i < self.providers.len()
            invariant
                i <= self.providers@.len(),
                *self == *old(self),
                reads@ == connected_places(self.providers@.take(i as int)),
            decreases self.providers@.len() - i,
        {
            assert(self.providers@.take(i + 1).drop_last() =~= self.providers@.take(i as int));
            if self.providers[i].is_connected() {
                reads.push(i);
            }
            i = i + 1;
        }
        assert(self.providers@.take(i as int) =~= self.providers@);
        if reads.len() == 0 {
            self.remote_discovery_errors = Vec::new();
            assert(reads@ =~= Seq::<usize>::empty());
            return reads;
        }
        self.remote_refreshing = true;
        self.remote_refresh_pending = false;
        reads
    }

    /// Whether `after` and `next` are what follows once catalogues were read.
    pub open spec fn merges(
        self,
        reads: Seq<CatalogueRead>,
        now: Moment,
        after: ProjectManager,
        next: Seq<usize>,
    ) -> bool {
        &&& exists|merged: Seq<Project>|
            #[trigger] takes_over_all(self.projects@, reads, merged, now)
                && is_sorted_from(
                merged,
                after.projects@,
                SortOrder::of_key(self.state.sort_order@),
            )
        &&& after.selected_project == reselected(
            self.projects@,
            self.selected_project,
            after.projects@,
        )
        &&& exists|errors: Vec<String>|
            {
                let done = ProjectManager {
                    projects: after.projects,
                    selected_project: after.selected_project,
                    remote_refreshing: false,
                    remote_discovery_errors: errors,
                    ..self
                };
                &&& #[trigger] views(errors@) == read_errors(reads)
                &&& if self.remote_refresh_pending {
                    done.refreshes(after, next)
                } else {
                    after == done && next.len() == 0
                }
            }
    }

    /// Take over what was read of the providers: their projects join the
    /// library in the saved order, and the selected project stays selected.
    pub fn remote_projects_read(&mut self, reads: Vec<CatalogueRead>, now: Moment) -> (r: Vec<usize>)
        requires
            all_counts_fit(reads@),
        ensures
            old(self).merges(reads@, now, *final(self), r@),
    {
        let selected = self.selected_id();
        let ghost before = self.projects@;
        self.remote_refreshing = false;
        let mut errors: Vec<String> = Vec::new();
        let mut projects: Vec<Project> = Vec::new();
        std::mem::swap(&mut projects, &mut self.projects);
        take_over(&mut projects, &mut errors, reads, now);
        let ghost merged = projects@;
        sort_projects(&mut projects, self.sort_order());
        self.projects = projects;
        self.remote_discovery_errors = errors;
        self.selected_project = reselect(&selected, &self.projects);
        assert(takes_over_all(before, reads@, merged, now));
        if self.remote_refresh_pending {
            let r = self.refresh_remote_projects();
            return r;
        }
        Vec::new()
    }

    /// Take over the published catalogue, or note that it cannot be reached.
    /// The person's own folders are carried across: the published list does not
    /// know them.
    pub fn catalog_fetched(&mut self, catalog: Result<Vec<ProviderListing>, String>) -> (r: Vec<usize>)
        ensures
            match catalog {
                Err(_) => *final(self) == (ProjectManager {
                    catalog_state: CatalogState::Unreachable,
                    ..*old(self)
                }) && r@.len() == 0,
                Ok(catalog) => {
                    &&& final(self).providers@ == fetched_providers(
                        catalog@,
                        old(self).providers@,
                        old(self).state.connected_providers@,
                    )
                    &&& (ProjectManager {
                        providers: final(self).providers,
                        catalog_state: CatalogState::Live,
                        ..*old(self)
                    }).refreshes(*final(self), r@)
                },
            },
    {
        let catalog = match catalog {
            Ok(catalog) => catalog,
            Err(_) => {
                self.catalog_state = CatalogState::Unreachable;
                return Vec::new();
            },
        };
        let ghost all = catalog@;
        let ghost current = self.providers@;
        let ghost connected = self.state.connected_providers@;
        let mut rest = catalog;
        let mut out: Vec<ProviderListing> = Vec::new();
        assert(all.skip(0) =~= all);
        while rest.len() > 0
            invariant
                *self == *old(self),
                current == self.providers@,
                connected == self.state.connected_providers@,
                out@.len() + rest@.len() == all.len(),
                rest@ == all.skip(out@.len() as int),
                forall|i: int|
                    0 <= i < out@.len() ==> #[trigger] out@[i] == carried_over(
                        all[i],
                        current,
                        connected,
                    ),
            decreases rest@.len(),
        {
            let mut listing = rest.remove(0);
            if self.state.is_provider_connected(listing.entry.id.as_str()) || is_listed_connected(
                &self.providers,
                listing.entry.id.as_str(),
            ) {
                listing.mark_connected();
            }
            out.push(listing);
            assert(rest@ =~= all.skip(out@.len() as int));
        }
        let ghost head = out@;
        let mut rest: Vec<ProviderListing> = Vec::new();
        std::mem::swap(&mut rest, &mut self.providers);
        let ghost keep = |listing: ProviderListing| is_folder(listing);
        let ghost mut done: int = 0;
        proof {
            reveal(Seq::filter);
            assert(current.skip(0) =~= current);
            assert(current.take(0) =~= Seq::<ProviderListing>::empty());
            assert(head + Seq::<ProviderListing>::empty() =~= head);
        }
        while rest.len() > 0
            invariant
                0 <= done,
                done + rest@.len() == current.len(),
                rest@ == current.skip(done),
                keep == (|listing: ProviderListing| is_folder(listing)),
                out@ == head + current.take(done).filter(keep),
            decreases rest@.len(),
        {
            let ghost first = rest@[0];
            assert(first == current[done]);
            let listing = rest.remove(0);
            proof {
                assert(rest@ =~= current.skip(done + 1));
                assert(current.take(done + 1).drop_last() =~= current.take(done));
                assert(current.take(done + 1).last() == first);
                reveal(Seq::filter);
            }
            let ghost so_far = out@;
            if listing.is_local() {
                out.push(listing);
                assert(out@ =~= head + current.take(done).filter(keep).push(first));
            }
            proof {
                done = done + 1;
            }
        }
        assert(current.take(done) =~= current);
        self.providers = out;
        self.catalog_state = CatalogState::Live;
        assert(self.providers@ =~= fetched_providers(all, current, connected));
        self.refresh_remote_projects()
    }

    fn selected_id(&self) -> (r: Option<String>)
        ensures
            r is Some == (self.selected_project < self.projects@.len()),
            r matches Some(id) ==> id@ == self.projects@[self.selected_project as int].id@,
    {
        if self.selected_project < self.projects.len() {
            Some(self.projects[self.selected_project].id.clone())
        } else {
            None
        }
    }

    /// The order the library is in.
    pub fn sort_order(&self) -> (r: SortOrder)
        ensures
            r == SortOrder::of_key(self.state.sort_order@),
    {
        SortOrder::from_key(self.state.sort_order.as_str())
    }

    /// Whether `after` is what follows once an order was chosen, and `changed` whether
    /// it is another one.
    pub open spec fn re_sorts(
        self,
        order: SortOrder,
        after: ProjectManager,
        changed: bool,
    ) -> bool {
        &&& changed == (SortOrder::of_key(self.state.sort_order@) != order)
        &&& !changed ==> after == self
        &&& changed ==> {
            &&& after == (ProjectManager {
                projects: after.projects,
                selected_project: after.selected_project,
                state: after.state,
                ..self
            })
            &&& after.state == (AppState {
                sort_order: after.state.sort_order,
                ..self.state
            })
            &&& after.state.sort_order@ == order.key_text()
            &&& is_sorted_from(self.projects@, after.projects@, order)
            &&& after.selected_project == reselected(
                self.projects@,
                self.selected_project,
                after.projects@,
            )
        }
    }

    /// Put the library in another order, and remember the choice. The selected
    /// project stays selected. Says whether anything changed.
    pub fn set_sort_order(&mut self, order: SortOrder) -> (r: bool)
        ensures
            old(self).re_sorts(order, *final(self), r),
    {
        if self.sort_order() == order {
            return false;
        }
        self.state.sort_order = order.key().to_owned();
        let selected = self.selected_id();
        let mut projects: Vec<Project> = Vec::new();
        std::mem::swap(&mut projects, &mut self.projects);
        sort_projects(&mut projects, order);
        self.projects = projects;
        self.selected_project = reselect(&selected, &self.projects);
        true
    }

    /// Remember where a recorded path lies on this computer.
    pub fn path_alias_chosen(&mut self, from: &str, path: &str) -> (r: Effects)
        ensures
            *final(self) == (ProjectManager { state: final(self).state, ..*old(self) }),
            final(self).state == (AppState {
                path_aliases: final(self).state.path_aliases,
                ..old(self).state
            }),
            alias_views(final(self).state.path_aliases@) == aliases_with(
                alias_views(old(self).state.path_aliases@),
                from@,
                path@,
            ),
            r.save,
            r.refresh@.len() == 0,
            notice_view(r.notice) == Some(
                says(
                    NoticeLevel::Success,
                    "Path mapping saved"@,
                    "Projects referring to "@ + from@ + " will look in "@ + path@ + "."@,
                ),
            ),
    {
        self.state.set_path_alias(from, path);
        let mut message = joined3("Projects referring to ", from, " will look in ");
        message.append(path);
        message.append(".");
        Effects {
            notice: Some(Notice::success("Path mapping saved", message.as_str())),
            save: true,
            refresh: Vec::new(),
        }
    }

    /// Whether `after` and `effects` are what follows once a folder was chosen to back
    /// up into.
    pub open spec fn takes_folder(
        self,
        path: Seq<char>,
        after: ProjectManager,
        effects: Effects,
    ) -> bool {
        &&& {
            let id = "local:"@ + path;
            let before = self.providers@;
            let at = provider_index(before, id);
            let listing = after.providers@[at];
            &&& 0 <= at <= before.len()
            &&& after.providers@ == (if at < before.len() {
                before.update(at, listing)
            } else {
                before.push(listing)
            })
            &&& is_local_listing(self.platform, listing, path)
            &&& listing.availability is Connected
            &&& notice_view(effects.notice) == Some(
                says(
                    NoticeLevel::Success,
                    "Local destination added"@,
                    listing.entry.name@ + " is ready to use. Nothing has been uploaded yet."@,
                ),
            )
            &&& views(after.state.local_providers@) == with_path(
                self.platform,
                self.state.local_providers@,
                path,
            )
            &&& views(after.state.connected_providers@) == (if holds_text(
                self.state.connected_providers@,
                id,
            ) {
                views(self.state.connected_providers@)
            } else {
                views(self.state.connected_providers@).push(id)
            })
            &&& optional_view(after.state.primary_provider) == (match self.state.primary_provider {
                Some(known) => Some(known@),
                None => Some(id),
            })
            &&& after.state == (AppState {
                local_providers: after.state.local_providers,
                connected_providers: after.state.connected_providers,
                primary_provider: after.state.primary_provider,
                ..self.state
            })
        }
        &&& (ProjectManager {
            providers: after.providers,
            state: after.state,
            ..self
        }).refreshes(after, effects.refresh@)
        &&& effects.save
    }

    /// Use a folder for backups. Adding the same folder twice replaces rather
    /// than duplicates: the identity is the path.
    pub fn local_folder_chosen(&mut self, path: &str) -> (r: Effects)
        ensures
            old(self).takes_folder(path@, *final(self), r),
    {
        let mut listing = local_provider(self.platform, path);
        listing.mark_connected();
        let id = listing.entry.id.clone();
        let message = joined2(
            listing.entry.name.as_str(),
            " is ready to use. Nothing has been uploaded yet.",
        );
        let found = crate::catalog::find_provider(&self.providers, id.as_str());
        match found {
            Some(at) => {
                self.providers.set(at, listing);
            },
            None => {
                self.providers.push(listing);
            },
        }
        self.state.add_local_provider(self.platform, path);
        self.state.connect_provider(id.as_str());
        let refresh = self.refresh_remote_projects();
        Effects {
            notice: Some(Notice::success("Local destination added", message.as_str())),
            save: true,
            refresh,
        }
    }

    /// Whether `after` and `effects` are what follows once a folder was scanned.
    pub open spec fn watches(
        self,
        folder: WatchedFolder,
        home: Option<Seq<char>>,
        read: Seq<ReadProject>,
        now: i64,
        after: ProjectManager,
        effects: Effects,
    ) -> bool {
        &&& {
            let place = crate::library::home_text(folder.path@, home);
            let found = folder.projects@.len();
            if lies_beneath_a_root(self.platform, folder.path@, self.state.watched_folders@) {
                &&& after == self
                &&& !effects.save
                &&& notice_view(effects.notice) == Some(
                    says(
                        NoticeLevel::Info,
                        "Already watching these projects"@,
                        place + " is already beneath one of your watched library roots."@,
                    ),
                )
            } else {
                &&& after == (ProjectManager {
                    projects: after.projects,
                    watched_folders: after.watched_folders,
                    state: after.state,
                    ..self
                })
                &&& views(after.state.watched_folders@) == with_path(
                    self.platform,
                    self.state.watched_folders@,
                    folder.path@,
                )
                &&& after.watched_folders@ == with_scan(
                    self.platform,
                    still_watched(
                        self.platform,
                        self.watched_folders@,
                        after.state.watched_folders@,
                    ),
                    folder,
                )
                &&& loads_library(
                    AppState {
                        watched_folders: after.state.watched_folders,
                        ..self.state
                    },
                    after.state,
                    after.projects@,
                    read,
                    now,
                )
                &&& effects.save
                &&& notice_view(effects.notice) == Some(
                    if found == 0 {
                        says(
                            NoticeLevel::Warning,
                            "Nothing found there"@,
                            "No supported projects were found beneath "@ + place + "."@,
                        )
                    } else {
                        says(
                            NoticeLevel::Success,
                            "Watching "@ + place,
                            decimal(found) + " project"@ + (if found == 1 {
                                ""@
                            } else {
                                "s"@
                            }) + " · "@ + crate::sizes::bytes_text(
                                crate::library::bytes_sum(folder.projects@),
                            )
                                + ". Nothing has been uploaded — you choose what gets backed up."@,
                        )
                    },
                )
            }
        }
        &&& effects.refresh@.len() == 0
    }

    /// Record a scanned folder, in the place of an earlier scan of the same
    /// path, and list its projects. Finding projects is not uploading them.
    pub fn record_watched_folder(
        &mut self,
        folder: WatchedFolder,
        home: &Option<String>,
        read: Vec<ReadProject>,
        now: i64,
    ) -> (r: Effects)
        requires
            crate::library::bytes_sum(folder.projects@) <= u64::MAX,
        ensures
            old(self).watches(folder, optional_view(*home), read@, now, *final(self), r),
    {
        let found: usize = folder.project_count();
        let place = folder.display_path(home);
        let size = format_bytes(folder.total_bytes());
        if is_beneath_a_root(self.platform, folder.path.as_str(), &self.state.watched_folders) {
            let message = joined2(
                place.as_str(),
                " is already beneath one of your watched library roots.",
            );
            return Effects {
                notice: Some(Notice::info("Already watching these projects", message.as_str())),
                save: false,
                refresh: Vec::new(),
            };
        }
        self.state.watch(self.platform, folder.path.as_str());
        retain_watched(self.platform, &mut self.watched_folders, &self.state.watched_folders);
        place_scan(self.platform, &mut self.watched_folders, folder);
        let (projects, _) = load_library(&mut self.state, read, now);
        self.projects = projects;
        let notice = if found == 0 {
            let message = joined3("No supported projects were found beneath ", place.as_str(), ".");
            Notice::warning("Nothing found there", message.as_str())
        } else {
            let mut message = count_text(found);
            message.append(" project");
            message.append(
                if found == 1 {
                    ""
                } else {
                    "s"
                },
            );
            message.append(" · ");
            message.append(size.as_str());
            message.append(". Nothing has been uploaded — you choose what gets backed up.");
            Notice::success(joined2("Watching ", place.as_str()).as_str(), message.as_str())
        };
        Effects { notice: Some(notice), save: true, refresh: Vec::new() }
    }

    /// Whether `after` and `effects` are what follows once a project was added.
    pub open spec fn takes_in(
        self,
        project: Project,
        after: ProjectManager,
        effects: Effects,
    ) -> bool {
        &&& after == (ProjectManager {
            projects: after.projects,
            selected_project: after.selected_project,
            route: Route::Library,
            state: after.state,
            ..self
        })
        &&& after.projects@ == with_project(self.projects@, project)
        &&& after.selected_project == project_index(self.projects@, project.id@)
        &&& after.state == (AppState {
            projects: after.state.projects,
            ..self.state
        })
        &&& views(after.state.projects@) == recorded_projects(self.platform, self.state, project)
        &&& effects.save == (project_root(self.platform, project) is Some)
        &&& notice_view(effects.notice) == Some(
            imported(project, has_project(self.projects@, project.id@)),
        )
        &&& effects.refresh@.len() == 0
    }

    /// Add an imported project, in the place of an earlier import of the same
    /// one: adding it twice is a refresh.
    pub fn insert_project(&mut self, project: Project) -> (r: Effects)
        ensures
            old(self).takes_in(project, *final(self), r),
    {
        let save = record_root(self.platform, &mut self.state, &project);
        let replaces = find_project(&self.projects, project.id.as_str()).is_some();
        let notice = import_notice(&project, replaces);
        self.selected_project = place_project(&mut self.projects, project);
        self.route = Route::Library;
        Effects { notice: Some(notice), save, refresh: Vec::new() }
    }

    /// Whether `after` and `effects` are what follows once the library was read again.
    pub open spec fn reloads(
        self,
        read: Seq<ReadProject>,
        now: i64,
        after: ProjectManager,
        effects: Effects,
    ) -> bool {
        &&& exists|loaded: Seq<Project>|
            #[trigger] loads_library(self.state, after.state, loaded, read, now)
                && is_sorted_from(
                loaded + provider_rows(self.projects@),
                after.projects@,
                SortOrder::of_key(self.state.sort_order@),
            )
        &&& (ProjectManager {
            projects: after.projects,
            state: after.state,
            selected_project: 0,
            route: Route::Library,
            overlay: OverlayState { overlay: Overlay::Hidden, ..self.overlay },
            ..self
        }).refreshes(after, effects.refresh@)
        &&& notice_view(effects.notice) == Some(
            says(
                NoticeLevel::Info,
                "Library refreshed"@,
                refreshed_text(
                    after.projects@.len(),
                    count_unbacked(after.projects@),
                ),
            ),
        )
        &&& effects.save == (after.state.first_seen.listed().len() != self.state.first_seen.listed().len())
    }

    /// Read every watched folder and project anew, and keep the rows that only
    /// providers have.
    pub fn reload_library(&mut self, read: Vec<ReadProject>, now: i64) -> (r: Effects)
        ensures
            old(self).reloads(read@, now, *final(self), r),
    {
        let mut projects: Vec<Project> = Vec::new();
        std::mem::swap(&mut projects, &mut self.projects);
        let mut rows = take_provider_rows(projects);
        let ghost kept = rows@;
        let ghost before = self.state;
        let (loaded, changed) = load_library(&mut self.state, read, now);
        let ghost fresh = loaded@;
        let mut projects = loaded;
        projects.append(&mut rows);
        assert(projects@ =~= fresh + kept);
        sort_projects(&mut projects, self.sort_order());
        self.projects = projects;
        self.selected_project = 0;
        self.route = Route::Library;
        self.overlay.clear();
        assert(loads_library(before, self.state, fresh, read@, now));
        let refresh = self.refresh_remote_projects();
        let found: usize = self.projects.len();
        let unbacked: usize = unbacked_projects(&self.projects);
        let message = if found == 0 {
            "No projects yet. Watch a folder, or add one.".to_owned()
        } else if unbacked == 0 {
            joined2(count_text(found).as_str(), " project(s), all backed up.")
        } else {
            let mut message = joined3(
                count_text(found).as_str(),
                " project(s) · ",
                count_text(unbacked).as_str(),
            );
            message.append(" only on this computer.");
            message
        };
        Effects {
            notice: Some(Notice::info("Library refreshed", message.as_str())),
            save: changed,
            refresh,
        }
    }
}

/// The revisions that were handed to the coordinator before.
pub open spec fn attempted(state: AppState) -> Map<Seq<char>, Moment> {
    let recorded = state.backup_attempts@;
    Map::new(
        |id: Seq<char>| recorded.dom().contains(id) && recorded[id].moment() is Some,
        |id: Seq<char>| recorded[id].moment()->Some_0,
    )
}

/// The recorded prefix that was typed, or a word that one is needed.
pub fn path_alias_prefix(typed: &str) -> (r: Result<String, Notice>)
    ensures
        is_blank(typed@) ==> r is Err && r->Err_0@ == says(
            NoticeLevel::Warning,
            "Recorded path needed"@,
            "Enter the path prefix written by the other computer."@,
        ),
        !is_blank(typed@) ==> r is Ok && r->Ok_0@ == trimmed(typed@),
{
    if blank(typed) {
        return Err(
            Notice::warning(
                "Recorded path needed",
                "Enter the path prefix written by the other computer.",
            ),
        );
    }
    Ok(trim(typed))
}

// ---------------------------------------------------------------------------
// Laws
// ---------------------------------------------------------------------------

/// The selected project stays selected in whatever order the library is put.
pub proof fn sorting_keeps_the_selection(
    before: Seq<Project>,
    selected: usize,
    after: Seq<Project>,
    order: SortOrder,
)
    requires
        is_sorted_from(before, after, order),
        selected < before.len(),
    ensures
        0 <= reselected(before, selected, after) < after.len(),
        after[reselected(before, selected, after)].id@ == before[selected as int].id@,
{
    let project = before[selected as int];
    sorting_keeps_the_values(before, after, order, project);
    assert(before.contains(project));
    let i = choose|i: int| 0 <= i < after.len() && after[i] == project;
    listed_projects_are_found(after, i);
}

/// The list of providers after a published one was fetched.
pub open spec fn fetched_providers(
    catalog: Seq<ProviderListing>,
    current: Seq<ProviderListing>,
    connected: Seq<String>,
) -> Seq<ProviderListing> {
    Seq::new(catalog.len(), |i: int| carried_over(catalog[i], current, connected)) + folders_of(
        current,
    )
}

/// A fetched catalogue keeps every folder of the person's own as it was.
pub proof fn folders_outlive_a_fetch(
    catalog: Seq<ProviderListing>,
    current: Seq<ProviderListing>,
    connected: Seq<String>,
    i: int,
)
    requires
        0 <= i < current.len(),
        is_folder(current[i]),
    ensures
        fetched_providers(catalog, current, connected).contains(current[i]),
{
    let keep = |listing: ProviderListing| is_folder(listing);
    current.lemma_filter_contains(keep, i);
    assert(folders_of(current) == current.filter(keep));
    let at = choose|at: int| 0 <= at < folders_of(current).len() && folders_of(current)[at] == current[i];
    let all = fetched_providers(catalog, current, connected);
    assert(all[catalog.len() + at] == current[i]);
}

/// A provider that is connected is still connected after a catalogue that
/// lists it was fetched.
pub proof fn a_fetch_disconnects_nobody(
    catalog: Seq<ProviderListing>,
    current: Seq<ProviderListing>,
    connected: Seq<String>,
    i: int,
)
    requires
        0 <= i < catalog.len(),
        lists_connected(current, catalog[i].entry.id@),
    ensures
        lists_connected(fetched_providers(catalog, current, connected), catalog[i].entry.id@),
{
    let all = fetched_providers(catalog, current, connected);
    assert(all[i] == carried_over(catalog[i], current, connected));
}

} // verus!
