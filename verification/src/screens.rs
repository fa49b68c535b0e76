//! What each screen shows: its texts, which of its buttons work, and its
//! colours.
use vstd::prelude::*;

use crate::appearance::{status_color, status_shade, Colour};
use crate::catalog::ProviderListing;
use crate::detail::{BpmFilter, MissingPlugin, ProjectDetail};
use crate::filters::BpmFilterMode;
use crate::format::CommitId;
use crate::labels::TypedLabels;
use crate::library::SortOrder;
use crate::manager::ProjectManager;
use crate::navigation::OnboardingStep;
use crate::notice::{joined2, joined3};
use crate::project::{Project, ProjectVersion};
use crate::status::{ProjectAction, ProjectStatus};
use crate::text::{blank, copy_optional, count_text, decimal, is_blank, lowercase,
    optional_view, same, uppercase, views};

verus! {

// ---------------------------------------------------------------------------
// The library
// ---------------------------------------------------------------------------

/// The places of the projects that pass, among the first `n`.
pub open spec fn passing(
    projects: Seq<Project>,
    query: Seq<char>,
    genres: Seq<Seq<char>>,
    tags: Seq<Seq<char>>,
    bpm: Option<BpmFilter>,
    n: int,
) -> Seq<usize>
    decreases n,
{
    if n <= 0 {
        Seq::empty()
    } else {
        let before = passing(projects, query, genres, tags, bpm, n - 1);
        if projects[n - 1].passes(query, genres, tags, bpm) {
            before.push((n - 1) as usize)
        } else {
            before
        }
    }
}

/// How many of the first `n` projects need attention.
pub open spec fn count_attention(projects: Seq<Project>, n: int) -> nat
    decreases n,
{
    if n <= 0 {
        0
    } else {
        count_attention(projects, n - 1) + (if projects[n - 1].status.wants_attention() {
            1nat
        } else {
            0
        })
    }
}

/// What is asked of the list.
#[derive(Debug)]
pub struct ListQuery {
    pub search: String,
    pub genres: Vec<String>,
    pub tags: Vec<String>,
}

/// The sidebar.
#[derive(Debug)]
pub struct LibraryScreen {
    pub owner: String,
    pub summary: String,
    pub sort_order: SortOrder,
    /// The places of the projects that the search and the filters leave.
    pub visible: Vec<usize>,
    /// What is said in place of the list, where it is empty.
    pub empty: Option<&'static str>,
}

/// The filters over the list.
#[derive(Debug)]
pub struct FilterBar {
    pub bpm_label: String,
    /// Whether any filter is on, and badges are shown.
    pub active: bool,
    pub bpm_badge: Option<String>,
    /// Whether there is more than one filter to clear.
    pub clears_all: bool,
    pub apply_label: &'static str,
}

/// A row of the list.
#[derive(Debug)]
pub struct RowScreen {
    pub name: String,
    pub status: String,
    pub colour: Colour,
    pub selected: bool,
    /// How full the bar is, in percent.
    pub bar: u8,
    pub prominent: bool,
}

impl ProjectManager {
    /// The tempo filter that is in force: none while projects are read for it.
    pub open spec fn bpm_in_force(self) -> Option<BpmFilter> {
        if self.bpm_filter_loading {
            None
        } else {
            self.bpm_filter
        }
    }

    /// The places of the projects that the search and the filters leave.
    pub open spec fn visible(self, query: ListQuery) -> Seq<usize> {
        passing(
            self.projects@,
            lowercase(query.search@),
            views(query.genres@),
            views(query.tags@),
            self.bpm_in_force(),
            self.projects@.len() as int,
        )
    }

    /// The places of the projects that the search and the filters leave.
    pub fn visible_projects(&self, query: &ListQuery) -> (r: Vec<usize>)
        ensures
            r@ == self.visible(*query),
            forall|i: int| 0 <= i < r@.len() ==> (#[trigger] r@[i]) < self.projects@.len(),
    {
        let search = query.search.as_str().to_lowercase();
        let bpm = if self.bpm_filter_loading {
            None
        } else {
            self.bpm_filter
        };
        let mut out: Vec<usize> = Vec::new();
        let mut i: usize = 0;
        while i < self.projects.len()
            invariant
                i <= self.projects@.len(),
                search@ == lowercase(query.search@),
                bpm == self.bpm_in_force(),
                out@ == passing(
                    self.projects@,
                    search@,
                    views(query.genres@),
                    views(query.tags@),
                    bpm,
                    i as int,
                ),
                forall|j: int| 0 <= j < out@.len() ==> (#[trigger] out@[j]) < i,
            decreases self.projects@.len() - i,
        {
            if self.projects[i].matches_library_filters(
                search.as_str(),
                &query.genres,
                &query.tags,
                bpm,
            ) {
                out.push(i);
            }
            i = i + 1;
        }
        out
    }

    /// How many projects need attention.
    pub fn attention_count(&self) -> (r: usize)
        ensures
            r == count_attention(self.projects@, self.projects@.len() as int),
    {
        let mut count: usize = 0;
        let mut i: usize = 0;
        while i < self.projects.len()
            invariant
                i <= self.projects@.len(),
                count <= i,
                count == count_attention(self.projects@, i as int),
            decreases self.projects@.len() - i,
        {
            if self.projects[i].status.needs_attention() {
                count = count + 1;
            }
            i = i + 1;
        }
        count
    }

    /// What is said in place of an empty list.
    pub open spec fn empty_text(self, query: ListQuery) -> Option<Seq<char>> {
        if self.visible(query).len() > 0 {
            None
        } else if self.projects@.len() == 0 {
            Some("No projects yet — watch a folder, or add one."@)
        } else if query.genres@.len() > 0 || query.tags@.len() > 0 || self.bpm_in_force() is Some {
            Some("Nothing matches those filters."@)
        } else {
            Some("Nothing matches that search."@)
        }
    }

    /// The sidebar.
    pub fn render_library(&self, query: &ListQuery) -> (r: LibraryScreen)
        ensures
            r.owner@ == uppercase(self.display_name@) + " · ONLINE"@,
            r.summary@ == "[ LIBRARY · "@ + decimal(self.projects@.len()) + " PROJECTS · "@
                + decimal(count_attention(self.projects@, self.projects@.len() as int))
                + " NEED YOU ]"@,
            r.sort_order == SortOrder::of_key(self.state.sort_order@),
            r.visible@ == self.visible(*query),
            match r.empty {
                Some(text) => self.empty_text(*query) == Some(text@),
                None => self.empty_text(*query) is None,
            },
    {
        let mut owner = self.display_name.as_str().to_uppercase();
        owner.append(" · ONLINE");
        let mut summary = joined3(
            "[ LIBRARY · ",
            count_text(self.projects.len()).as_str(),
            " PROJECTS · ",
        );
        summary.append(count_text(self.attention_count()).as_str());
        summary.append(" NEED YOU ]");
        let visible = self.visible_projects(query);
        let filtered = self.bpm_filter.is_some() && !self.bpm_filter_loading;
        let empty = if visible.len() > 0 {
            None
        } else if self.projects.len() == 0 {
            Some("No projects yet — watch a folder, or add one.")
        } else if query.genres.len() > 0 || query.tags.len() > 0 || filtered {
            Some("Nothing matches those filters.")
        } else {
            Some("Nothing matches that search.")
        };
        LibraryScreen { owner, summary, sort_order: self.sort_order(), visible, empty }
    }

    /// The label of the tempo filter.
    pub open spec fn bpm_label_text(self) -> Seq<char> {
        match self.bpm_filter {
            None => if self.bpm_filter_loading {
                "BPM · …"@
            } else {
                "BPM"@
            },
            Some(filter) => "BPM · "@ + filter.label_text() + (if self.bpm_filter_loading {
                "…"@
            } else {
                ""@
            }),
        }
    }

    /// The filters over the list, where so many genres and tags are selected.
    pub fn render_library_filters(&self, genres: usize, tags: usize) -> (r: FilterBar)
        ensures
            r.bpm_label@ == self.bpm_label_text(),
            r.active == (genres > 0 || tags > 0 || self.bpm_filter is Some),
            optional_view(r.bpm_badge) == (match self.bpm_filter {
                Some(filter) => Some("BPM "@ + filter.label_text()),
                None => None,
            }),
            r.clears_all == (genres + tags + (if self.bpm_filter is Some {
                1int
            } else {
                0
            }) > 1),
            r.apply_label@ == (match self.bpm_filter_mode {
                BpmFilterMode::Range => "USE WINDOW  →"@,
                BpmFilterMode::Exact => "USE TARGET  →"@,
            }),
    {
        let bpm = self.bpm_filter.is_some();
        let bpm_label = match self.bpm_filter {
            None => {
                if self.bpm_filter_loading {
                    "BPM · …".to_owned()
                } else {
                    "BPM".to_owned()
                }
            },
            Some(filter) => joined3(
                "BPM · ",
                filter.label().as_str(),
                if self.bpm_filter_loading {
                    "…"
                } else {
                    ""
                },
            ),
        };
        let bpm_badge = match self.bpm_filter {
            Some(filter) => Some(joined2("BPM ", filter.label().as_str())),
            None => None,
        };
        FilterBar {
            bpm_label,
            active: genres > 0 || tags > 0 || bpm,
            bpm_badge,
            clears_all: genres > 1 || tags > 1 || (genres == 1 && tags == 1) || (bpm && (genres > 0
                || tags > 0)),
            apply_label: match self.bpm_filter_mode {
                BpmFilterMode::Range => "USE WINDOW  →",
                BpmFilterMode::Exact => "USE TARGET  →",
            },
        }
    }

    /// A row of the list.
    pub fn render_project_row(&self, index: usize) -> (r: RowScreen)
        requires
            index < self.projects@.len(),
        ensures
            ({
                let project = self.projects@[index as int];
                &&& r.name@ == project.name@
                &&& r.status@ == project.list_status_text()
                &&& r.colour == status_shade(project.status)
                &&& r.selected == (index == self.selected_project)
                &&& r.bar == project.bar()
                &&& r.prominent == (project.status is Syncing || project.status.wants_attention())
            }),
    {
        let project = &self.projects[index];
        RowScreen {
            name: project.name.clone(),
            status: project.list_status(),
            colour: status_color(project.status),
            selected: index == self.selected_project,
            bar: project.backup_progress(),
            prominent: project.backup_bar_is_prominent(),
        }
    }
}

// ---------------------------------------------------------------------------
// A project
// ---------------------------------------------------------------------------

/// A labelled value.
#[derive(Debug)]
pub struct InfoCell {
    pub label: &'static str,
    pub value: String,
    pub colour: Colour,
}

/// A labelled value, by its texts.
pub type CellView = (Seq<char>, Seq<char>, Colour);

/// Labelled values, by their texts.
pub open spec fn cell_views(cells: Seq<InfoCell>) -> Seq<CellView> {
    cells.map_values(|cell: InfoCell| (cell.label@, cell.value@, cell.colour))
}

/// What a project is, once it was read.
pub open spec fn detail_cells(detail: ProjectDetail) -> Seq<CellView> {
    seq![
        ("TEMPO"@, crate::detail::dashed(detail.tempo_parts()), Colour::Bright),
        ("KEY"@, detail.key_text(), Colour::Bright),
        ("TRACKS"@, crate::detail::dashed(detail.tracks_parts()), Colour::Bright),
        ("LENGTH"@, crate::detail::dashed(detail.length_parts()), Colour::Bright),
        ("MADE WITH"@, detail.made_with_text(), Colour::Bright),
        ("FILES"@, detail.files_text(), Colour::Bright),
    ]
}

/// The values shown of a project: what it is, then where it is safe.
pub open spec fn project_cells(project: Project) -> Seq<CellView> {
    (match project.detail {
        Some(detail) => detail_cells(detail),
        None => Seq::empty(),
    }) + seq![
        ("SAFE COPY LIVES ON"@, "Auru Cloud · eu-west"@, Colour::Bright),
        ("LAST CHECKED"@, "Today, 18:42 · verified"@, Colour::Bright),
        ("LATEST SAFE VERSION"@, project.safe_version@, Colour::Bright),
        ("ON THIS COMPUTER"@, project.local_inventory@, status_shade(project.status)),
    ]
}

fn push_cell(cells: &mut Vec<InfoCell>, label: &'static str, value: String, colour: Colour)
    ensures
        cell_views(final(cells)@) == cell_views(old(cells)@).push((label@, value@, colour)),
{
    let ghost before = cell_views(cells@);
    let ghost view = (label@, value@, colour);
    cells.push(InfoCell { label, value, colour });
    assert(cell_views(cells@) =~= before.push(view));
}

fn info_cells(project: &Project) -> (r: Vec<InfoCell>)
    ensures
        cell_views(r@) == project_cells(*project),
{
    let mut cells: Vec<InfoCell> = Vec::new();
    assert(cell_views(cells@) =~= Seq::<CellView>::empty());
    if let Some(detail) = &project.detail {
        push_cell(&mut cells, "TEMPO", detail.tempo_line(), Colour::Bright);
        push_cell(&mut cells, "KEY", detail.key_line(), Colour::Bright);
        push_cell(&mut cells, "TRACKS", detail.tracks_line(), Colour::Bright);
        push_cell(&mut cells, "LENGTH", detail.length_line(), Colour::Bright);
        push_cell(&mut cells, "MADE WITH", detail.made_with(), Colour::Bright);
        push_cell(&mut cells, "FILES", detail.files_line(), Colour::Bright);
        assert(cell_views(cells@) =~= detail_cells(*detail));
    }
    push_cell(&mut cells, "SAFE COPY LIVES ON", "Auru Cloud · eu-west".to_owned(), Colour::Bright);
    push_cell(&mut cells, "LAST CHECKED", "Today, 18:42 · verified".to_owned(), Colour::Bright);
    push_cell(&mut cells, "LATEST SAFE VERSION", project.safe_version.clone(), Colour::Bright);
    push_cell(
        &mut cells,
        "ON THIS COMPUTER",
        project.local_inventory.clone(),
        status_color(project.status),
    );
    assert(cell_views(cells@) =~= project_cells(*project));
    cells
}

/// A plugin that is not on this computer.
#[derive(Debug)]
pub struct PluginRow {
    pub name: String,
    pub detail: String,
    /// The maker's page, where it is known.
    pub link: Option<String>,
    pub link_label: &'static str,
}

/// Whether a row shows a plugin.
pub open spec fn shows_plugin(row: PluginRow, plugin: MissingPlugin) -> bool {
    &&& row.name@ == plugin.name@
    &&& row.detail@ == plugin.detail_text()
    &&& optional_view(row.link) == optional_view(plugin.link)
    &&& row.link_label@ == (if plugin.link is Some {
        "WHERE TO GET IT  ↗"@
    } else {
        "SEARCH BY NAME"@
    })
}

fn plugin_rows(plugins: &Vec<MissingPlugin>) -> (r: Vec<PluginRow>)
    ensures
        r@.len() == plugins@.len(),
        forall|i: int| 0 <= i < r@.len() ==> shows_plugin(#[trigger] r@[i], plugins@[i]),
{
    let mut rows: Vec<PluginRow> = Vec::new();
    let mut i: usize = 0;
    while i < plugins.len()
        invariant
            i <= plugins@.len(),
            rows@.len() == i,
            forall|j: int| 0 <= j < i ==> shows_plugin(#[trigger] rows@[j], plugins@[j]),
        decreases plugins@.len() - i,
    {
        let plugin = &plugins[i];
        rows.push(
            PluginRow {
                name: plugin.name.clone(),
                detail: plugin.detail_line(),
                link: copy_optional(&plugin.link),
                link_label: if plugin.link.is_some() {
                    "WHERE TO GET IT  ↗"
                } else {
                    "SEARCH BY NAME"
                },
            },
        );
        i = i + 1;
    }
    rows
}

/// A version that can be restored.
#[derive(Debug)]
pub struct VersionRow {
    pub title: String,
    pub time: String,
    pub commit: CommitId,
}

/// Whether a row shows a version.
pub open spec fn is_version_row(row: VersionRow, version: ProjectVersion) -> bool {
    &&& row.title@ == version.version@ + " · "@ + version.summary@
    &&& row.time@ == version.created_at@ + " ·"@
    &&& row.commit == version.id
}

fn version_rows(versions: &Vec<ProjectVersion>) -> (r: Vec<VersionRow>)
    ensures
        r@.len() == versions@.len(),
        forall|i: int| 0 <= i < r@.len() ==> is_version_row(#[trigger] r@[i], versions@[i]),
{
    let mut rows: Vec<VersionRow> = Vec::new();
    let mut i: usize = 0;
    while i < versions.len()
        invariant
            i <= versions@.len(),
            rows@.len() == i,
            forall|j: int| 0 <= j < i ==> is_version_row(#[trigger] rows@[j], versions@[j]),
        decreases versions@.len() - i,
    {
        let version = &versions[i];
        rows.push(
            VersionRow {
                title: joined3(version.version.as_str(), " · ", version.summary.as_str()),
                time: joined2(version.created_at.as_str(), " ·"),
                commit: version.id.clone(),
            },
        );
        i = i + 1;
    }
    rows
}

/// The selected project.
#[derive(Debug)]
pub struct DetailScreen {
    pub action_label: &'static str,
    pub action_colour: Colour,
    /// Whether the action can be taken now.
    pub action_enabled: bool,
    pub heading: String,
    pub name: String,
    pub colour: Colour,
    pub status: String,
    pub headline: &'static str,
    pub explanation: String,
    pub save_label: &'static str,
    /// Whether the labels can be saved now.
    pub save_enabled: bool,
    pub cells: Vec<InfoCell>,
    pub path: String,
    /// The plugins that are missing; nothing is said where none is.
    pub plugins: Vec<PluginRow>,
    pub versions: Vec<VersionRow>,
    pub open_label: &'static str,
}

impl ProjectManager {
    /// Whether the labels of a project are being saved.
    pub open spec fn is_saving(self, project: Project) -> bool {
        optional_view(self.metadata_saving) == Some(project.id@)
    }

    /// Whether the edited labels differ from those of a project.
    pub open spec fn is_edited(self, project: Project, typed: TypedLabels) -> bool {
        self.draft_view(typed) != project.metadata@
    }

    pub fn saving(&self, project: &Project) -> (r: bool)
        ensures
            r == self.is_saving(*project),
    {
        match &self.metadata_saving {
            Some(id) => same(id.as_str(), project.id.as_str()),
            None => false,
        }
    }

    pub fn edited(&self, project: &Project, typed: &TypedLabels) -> (r: bool)
        ensures
            r == self.is_edited(*project, *typed),
    {
        !self.metadata_from_inputs(typed).same(&project.metadata)
    }

    /// The selected project.
    pub fn render_project_detail(&self, index: usize, typed: &TypedLabels) -> (r: DetailScreen)
        requires
            index < self.projects@.len(),
        ensures
            ({
                let project = self.projects@[index as int];
                let action = project.status.next_action();
                &&& r.action_label@ == action.label_text()
                &&& r.action_colour == (if project.status is NotDownloaded {
                    Colour::Green
                } else {
                    status_shade(project.status)
                })
                &&& r.action_enabled == !(action is Wait)
                &&& r.heading@ == project.format_text() + " · "@ + uppercase(project.file_name@)
                    + " · "@ + project.size@
                &&& r.name@ == project.name@
                &&& r.colour == status_shade(project.status)
                &&& r.status@ == uppercase(project.status.label_text())
                &&& r.headline@ == project.headline_text()
                &&& r.explanation@ == project.explanation_text()
                &&& r.save_label@ == (if self.is_saving(project) {
                    "SAVING…"@
                } else {
                    "SAVE METADATA"@
                })
                &&& r.save_enabled == (self.is_edited(project, *typed) && !self.is_saving(project))
                &&& cell_views(r.cells@) == project_cells(project)
                &&& r.path@ == project.path_text()
                &&& r.plugins@.len() == project.missing_plugins@.len()
                &&& forall|i: int|
                    0 <= i < r.plugins@.len() ==> shows_plugin(
                        #[trigger] r.plugins@[i],
                        project.missing_plugins@[i],
                    )
                &&& r.versions@.len() == project.versions@.len()
                &&& forall|i: int|
                    0 <= i < r.versions@.len() ==> is_version_row(
                        #[trigger] r.versions@[i],
                        project.versions@[i],
                    )
                &&& r.open_label@ == project.open_text()
            }),
    {
        let project = &self.projects[index];
        let action = project.status.action();
        let colour = status_color(project.status);
        let saving = self.saving(project);
        let mut heading = joined3(
            project.format_label(),
            " · ",
            project.file_name.as_str().to_uppercase().as_str(),
        );
        heading.append(" · ");
        heading.append(project.size.as_str());
        DetailScreen {
            action_label: action.label(),
            action_colour: if project.status == ProjectStatus::NotDownloaded {
                Colour::Green
            } else {
                colour
            },
            action_enabled: action != ProjectAction::Wait,
            heading,
            name: project.name.clone(),
            colour,
            status: project.status.label().to_uppercase(),
            headline: project.status_headline(),
            explanation: project.status_explanation(),
            save_label: if saving {
                "SAVING…"
            } else {
                "SAVE METADATA"
            },
            save_enabled: self.edited(project, typed) && !saving,
            cells: info_cells(project),
            path: project.displayed_path(),
            plugins: plugin_rows(&project.missing_plugins),
            versions: version_rows(&project.versions),
            open_label: project.open_label(),
        }
    }
}

// ---------------------------------------------------------------------------
// The introduction
// ---------------------------------------------------------------------------

/// How many of the first `n` providers are connected.
pub open spec fn count_connected(providers: Seq<ProviderListing>, n: int) -> nat
    decreases n,
{
    if n <= 0 {
        0
    } else {
        count_connected(providers, n - 1) + (if providers[n - 1].availability is Connected {
            1nat
        } else {
            0
        })
    }
}

/// A count of things, in capitals.
pub open spec fn capital_count(count: nat, noun: Seq<char>, what: Seq<char>) -> Seq<char> {
    decimal(count) + noun + (if count == 1 {
        ""@
    } else {
        "S"@
    }) + what
}

fn count_capitals(count: usize, noun: &str, what: &str) -> (r: String)
    ensures
        r@ == capital_count(count as nat, noun@, what@),
{
    let mut out = joined3(
        count_text(count).as_str(),
        noun,
        if count == 1 {
            ""
        } else {
            "S"
        },
    );
    out.append(what);
    out
}

/// A step of the introduction.
#[derive(Debug)]
pub struct OnboardingScreen {
    pub position: String,
    pub title: &'static str,
    pub detail: &'static str,
    /// How far the step is, where that can be said.
    pub status: Option<String>,
    /// Whether the step is done.
    pub done: bool,
    pub button: Option<&'static str>,
    pub can_continue: bool,
    pub continue_label: &'static str,
    pub back_label: &'static str,
}

impl ProjectManager {
    /// How many providers are connected.
    pub fn connected_count(&self) -> (r: usize)
        ensures
            r == count_connected(self.providers@, self.providers@.len() as int),
    {
        let mut count: usize = 0;
        let mut i: usize = 0;
        while i < self.providers.len()
            invariant
                i <= self.providers@.len(),
                count <= i,
                count == count_connected(self.providers@, i as int),
            decreases self.providers@.len() - i,
        {
            if self.providers[i].is_connected() {
                count = count + 1;
            }
            i = i + 1;
        }
        count
    }

    /// Whether the introduction can go on.
    pub open spec fn may_continue(self, typed: Seq<char>) -> bool {
        !(self.onboarding_step is Profile) || !is_blank(typed)
    }

    pub fn can_continue(&self, typed: &str) -> (r: bool)
        ensures
            r == self.may_continue(typed@),
    {
        self.onboarding_step != OnboardingStep::Profile || !blank(typed)
    }

    /// Whether a screen shows the step that the introduction is at.
    pub open spec fn shows_step(self, screen: OnboardingScreen) -> bool {
        let connected = count_connected(self.providers@, self.providers@.len() as int);
        let watched = self.state.watched_folders@.len();
        match self.onboarding_step {
            OnboardingStep::Profile => {
                &&& screen.title@ == "Hello. What should we call you?"@
                &&& screen.detail@
                    == "This name appears in project history. It stays with your local profile — no login or account is created."@
                &&& screen.status is None
                &&& !screen.done
                &&& screen.button is None
            },
            OnboardingStep::Provider => {
                &&& screen.title@ == "Where should your backups live?"@
                &&& screen.detail@
                    == "Connect a hosted provider, a machine on your network, or an ordinary local folder. You can skip this and add one later."@
                &&& optional_view(screen.status) == Some(
                    if connected == 0 {
                        "NO BACKUP DESTINATION CONNECTED"@
                    } else {
                        capital_count(connected, " DESTINATION"@, " CONNECTED"@)
                    },
                )
                &&& screen.done == (connected > 0)
                &&& screen.button matches Some(label)
                &&& label@ == (if connected == 0 {
                    "CHOOSE A BACKUP DESTINATION"@
                } else {
                    "ADD ANOTHER DESTINATION"@
                })
            },
            OnboardingStep::Music => {
                &&& screen.title@ == "Where do you keep your projects?"@
                &&& screen.detail@
                    == "Choose the root above your DAW folders. Auru finds supported projects recursively and preserves that structure for restore. Scanning only looks; nothing is uploaded."@
                &&& optional_view(screen.status) == Some(
                    if watched == 0 {
                        "NO PROJECT FOLDERS WATCHED"@
                    } else {
                        capital_count(watched, " FOLDER"@, " WATCHED"@)
                    },
                )
                &&& screen.done == (watched > 0)
                &&& screen.button matches Some(label)
                &&& label@ == (if self.scanning {
                    "SCANNING…"@
                } else if watched == 0 {
                    "CHOOSE YOUR MUSIC LIBRARY ROOT"@
                } else {
                    "WATCH ANOTHER LIBRARY ROOT"@
                })
            },
        }
    }

    /// The step that the introduction is at.
    pub fn render_onboarding(&self, typed: &str) -> (r: OnboardingScreen)
        ensures
            r.position@ == decimal(self.onboarding_step.place()) + " / "@ + decimal(3),
            self.shows_step(r),
            r.can_continue == self.may_continue(typed@),
            r.continue_label@ == (if self.onboarding_step is Music {
                "OPEN MY LIBRARY →"@
            } else {
                "CONTINUE →"@
            }),
            r.back_label@ == (if self.onboarding_step is Profile {
                "← BACK TO LIBRARY"@
            } else {
                "← BACK"@
            }),
    {
        let (place, total) = self.onboarding_step.position();
        let position = joined3(count_text(place).as_str(), " / ", count_text(total).as_str());
        let can_continue = self.can_continue(typed);
        match self.onboarding_step {
            OnboardingStep::Profile => OnboardingScreen {
                position,
                title: "Hello. What should we call you?",
                detail:
                    "This name appears in project history. It stays with your local profile — no login or account is created.",
                status: None,
                done: false,
                button: None,
                can_continue,
                continue_label: "CONTINUE →",
                back_label: "← BACK TO LIBRARY",
            },
            OnboardingStep::Provider => {
                let connected: usize = self.connected_count();
                OnboardingScreen {
                    position,
                    title: "Where should your backups live?",
                    detail:
                        "Connect a hosted provider, a machine on your network, or an ordinary local folder. You can skip this and add one later.",
                    status: Some(
                        if connected == 0 {
                            "NO BACKUP DESTINATION CONNECTED".to_owned()
                        } else {
                            count_capitals(connected, " DESTINATION", " CONNECTED")
                        },
                    ),
                    done: connected > 0,
                    button: Some(
                        if connected == 0 {
                            "CHOOSE A BACKUP DESTINATION"
                        } else {
                            "ADD ANOTHER DESTINATION"
                        },
                    ),
                    can_continue,
                    continue_label: "CONTINUE →",
                    back_label: "← BACK",
                }
            },
            OnboardingStep::Music => {
                let watched: usize = self.state.watched_folders.len();
                OnboardingScreen {
                    position,
                    title: "Where do you keep your projects?",
                    detail:
                        "Choose the root above your DAW folders. Auru finds supported projects recursively and preserves that structure for restore. Scanning only looks; nothing is uploaded.",
                    status: Some(
                        if watched == 0 {
                            "NO PROJECT FOLDERS WATCHED".to_owned()
                        } else {
                            count_capitals(watched, " FOLDER", " WATCHED")
                        },
                    ),
                    done: watched > 0,
                    button: Some(
                        if self.scanning {
                            "SCANNING…"
                        } else if watched == 0 {
                            "CHOOSE YOUR MUSIC LIBRARY ROOT"
                        } else {
                            "WATCH ANOTHER LIBRARY ROOT"
                        },
                    ),
                    can_continue,
                    continue_label: "OPEN MY LIBRARY →",
                    back_label: "← BACK",
                }
            },
        }
    }
}

} // verus!
