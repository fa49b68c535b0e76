//! What the settings and the overlays show.
use vstd::prelude::*;

use crate::backup::{conflict_value_label, value_text, ConflictChoice, ConflictedField};
use crate::catalog::{preferred_method, AuthHint, CatalogState, ProviderListing};
use crate::json::{content_of, field_at};
use crate::library::{bytes_sum, home_text, FoundProject, WatchedFolder};
use crate::manager::{PendingConflict, ProjectManager};
use crate::navigation::AuthPhase;
use crate::notice::{joined2, joined3};
use crate::project::Project;
use crate::screens::capital_count;
use crate::session::asks_for_sign_in;
use crate::sizes::{bytes_text, format_bytes};
use crate::text::{count_text, decimal, join, joined, uppercase, views};

verus! {

// ---------------------------------------------------------------------------
// Watched folders
// ---------------------------------------------------------------------------

/// How many projects of a folder are named.
pub const NAMED_PROJECTS: usize = 4;

/// A watched folder.
#[derive(Debug)]
pub struct FolderRow {
    pub title: String,
    pub summary: String,
    pub empty: bool,
    /// A few of its projects, each with its size.
    pub projects: Vec<(String, String)>,
    /// How many more there are, in words.
    pub more: Option<String>,
}

/// The named projects of a folder: the first few.
pub open spec fn named(projects: Seq<FoundProject>) -> Seq<(Seq<char>, Seq<char>)> {
    projects.take(
        if projects.len() < NAMED_PROJECTS {
            projects.len() as int
        } else {
            NAMED_PROJECTS as int
        },
    ).map_values(|project: FoundProject| (project.library_text(), project.size_text()))
}

/// Pairs of texts, by their characters.
pub open spec fn pair_views(pairs: Seq<(String, String)>) -> Seq<(Seq<char>, Seq<char>)> {
    pairs.map_values(|pair: (String, String)| (pair.0@, pair.1@))
}

/// Whether a row shows a watched folder.
pub open spec fn shows_folder(row: FolderRow, folder: WatchedFolder, home: Option<Seq<char>>) -> bool {
    let count = folder.projects@.len();
    &&& row.title@ == uppercase(home_text(folder.path@, home))
    &&& row.summary@ == capital_count(count, " PROJECT"@, " · "@) + bytes_text(
        bytes_sum(folder.projects@),
    )
    &&& row.empty == (count == 0)
    &&& pair_views(row.projects@) == named(folder.projects@)
    &&& match row.more {
        Some(text) => count > NAMED_PROJECTS && text@ == "… and "@ + decimal(
            (count - NAMED_PROJECTS) as nat,
        ) + " more"@,
        None => count <= NAMED_PROJECTS,
    }
}

fn folder_row(folder: &WatchedFolder, home: &Option<String>) -> (r: FolderRow)
    requires
        bytes_sum(folder.projects@) <= u64::MAX,
    ensures
        shows_folder(r, *folder, crate::text::optional_view(*home)),
{
    let count: usize = folder.project_count();
    let mut summary = joined3(
        count_text(count).as_str(),
        " PROJECT",
        if count == 1 {
            ""
        } else {
            "S"
        },
    );
    summary.append(" · ");
    summary.append(format_bytes(folder.total_bytes()).as_str());
    let shown: usize = if count < NAMED_PROJECTS {
        count
    } else {
        NAMED_PROJECTS
    };
    let mut projects: Vec<(String, String)> = Vec::new();
    let mut i: usize = 0;
    while i < shown
        invariant
            i <= shown <= folder.projects@.len(),
            projects@.len() == i,
            forall|j: int|
                0 <= j < i ==> (#[trigger] projects@[j]).0@ == folder.projects@[j].library_text()
                    && projects@[j].1@ == folder.projects@[j].size_text(),
        decreases shown - i,
    {
        let project = &folder.projects[i];
        projects.push((project.library_path().to_owned(), project.size_label()));
        i = i + 1;
    }
    assert(pair_views(projects@) =~= named(folder.projects@));
    let more = if count > NAMED_PROJECTS {
        Some(joined3("… and ", count_text(count - NAMED_PROJECTS).as_str(), " more"))
    } else {
        None
    };
    FolderRow {
        title: folder.display_path(home).as_str().to_uppercase(),
        summary,
        empty: count == 0,
        projects,
        more,
    }
}

/// The watched folders.
#[derive(Debug)]
pub struct FoldersPanel {
    /// What is said where there are none.
    pub empty: Option<&'static str>,
    pub folders: Vec<FolderRow>,
    pub watch_label: &'static str,
    /// Whether another folder can be watched now.
    pub can_watch: bool,
    /// What was found altogether, where anything was.
    pub total: Option<String>,
}

/// How many projects the folders hold.
pub open spec fn all_projects(folders: Seq<WatchedFolder>) -> nat
    decreases folders.len(),
{
    if folders.len() == 0 {
        0
    } else {
        all_projects(folders.drop_last()) + folders.last().projects@.len()
    }
}

/// How many bytes the folders hold.
pub open spec fn all_bytes(folders: Seq<WatchedFolder>) -> nat
    decreases folders.len(),
{
    if folders.len() == 0 {
        0
    } else {
        all_bytes(folders.drop_last()) + bytes_sum(folders.last().projects@)
    }
}

/// The totals of some folders are within those of all.
proof fn totals_grow(folders: Seq<WatchedFolder>, n: int)
    requires
        0 <= n <= folders.len(),
    ensures
        all_projects(folders.take(n)) <= all_projects(folders),
        all_bytes(folders.take(n)) <= all_bytes(folders),
    decreases folders.len() - n,
{
    if n < folders.len() {
        totals_grow(folders, n + 1);
        assert(folders.take(n + 1).drop_last() =~= folders.take(n));
    } else {
        assert(folders.take(n) =~= folders);
    }
}

impl ProjectManager {
    /// The watched folders. Finding projects is not uploading them, and the
    /// panel says so.
    pub fn render_watched_folders(&self, home: &Option<String>) -> (r: FoldersPanel)
        requires
            all_projects(self.watched_folders@) <= usize::MAX,
            all_bytes(self.watched_folders@) <= u64::MAX,
        ensures
            match r.empty {
                Some(text) => self.watched_folders@.len() == 0 && text@
                    == "No library root watched yet. Choose the folder above your DAW folders; Auru finds projects recursively and remembers their structure for restore."@,
                None => self.watched_folders@.len() > 0,
            },
            r.folders@.len() == self.watched_folders@.len(),
            forall|i: int|
                0 <= i < r.folders@.len() ==> shows_folder(
                    #[trigger] r.folders@[i],
                    self.watched_folders@[i],
                    crate::text::optional_view(*home),
                ),
            r.can_watch == !self.scanning,
            r.watch_label@ == (if self.scanning {
                "SCANNING…"@
            } else {
                "＋ WATCH ANOTHER LIBRARY ROOT"@
            }),
            match r.total {
                Some(text) => all_projects(self.watched_folders@) > 0 && text@ == decimal(
                    all_projects(self.watched_folders@),
                ) + " PROJECTS · "@ + bytes_text(all_bytes(self.watched_folders@))
                    + " — NOTHING UPLOADS UNTIL YOU CHOOSE"@,
                None => all_projects(self.watched_folders@) == 0,
            },
    {
        let list = &self.watched_folders;
        let mut folders: Vec<FolderRow> = Vec::new();
        let mut projects: usize = 0;
        let mut bytes: u64 = 0;
        let mut i: usize = 0;
        assert(list@.take(0).len() == 0);
        while i < list.len()
            invariant
                i <= list@.len(),
                all_projects(list@) <= usize::MAX,
                all_bytes(list@) <= u64::MAX,
                folders@.len() == i,
                projects == all_projects(list@.take(i as int)),
                bytes == all_bytes(list@.take(i as int)),
                forall|j: int|
                    0 <= j < i ==> shows_folder(
                        #[trigger] folders@[j],
                        list@[j],
                        crate::text::optional_view(*home),
                    ),
            decreases list@.len() - i,
        {
            proof {
                totals_grow(list@, i + 1);
                assert(list@.take(i + 1).drop_last() =~= list@.take(i as int));
            }
            projects = projects + list[i].project_count();
            bytes = bytes + list[i].total_bytes();
            folders.push(folder_row(&list[i], home));
            i = i + 1;
        }
        assert(list@.take(i as int) =~= list@);
        let total = if projects > 0 {
            let mut text = joined3(
                count_text(projects).as_str(),
                " PROJECTS · ",
                format_bytes(bytes).as_str(),
            );
            text.append(" — NOTHING UPLOADS UNTIL YOU CHOOSE");
            Some(text)
        } else {
            None
        };
        FoldersPanel {
            empty: if list.len() == 0 {
                Some(
                    "No library root watched yet. Choose the folder above your DAW folders; Auru finds projects recursively and remembers their structure for restore.",
                )
            } else {
                None
            },
            folders,
            watch_label: if self.scanning {
                "SCANNING…"
            } else {
                "＋ WATCH ANOTHER LIBRARY ROOT"
            },
            can_watch: !self.scanning,
            total,
        }
    }

    /// The recorded prefixes and the folders they mean here.
    pub fn render_path_aliases(&self) -> (r: Vec<String>)
        ensures
            views(r@) == Seq::new(
                self.state.path_aliases@.len(),
                |i: int|
                    self.state.path_aliases@[i].from@ + "  →  "@ + self.state.path_aliases@[i].to@,
            ),
    {
        let aliases = &self.state.path_aliases;
        let mut out: Vec<String> = Vec::new();
        let mut i: usize = 0;
        while i < aliases.len()
            invariant
                i <= aliases@.len(),
                out@.len() == i,
                forall|j: int|
                    0 <= j < i ==> (#[trigger] out@[j])@ == aliases@[j].from@ + "  →  "@
                        + aliases@[j].to@,
            decreases aliases@.len() - i,
        {
            out.push(joined3(aliases[i].from.as_str(), "  →  ", aliases[i].to.as_str()));
            i = i + 1;
        }
        assert(views(out@) =~= Seq::new(
            aliases@.len(),
            |i: int| aliases@[i].from@ + "  →  "@ + aliases@[i].to@,
        ));
        out
    }
}

// ---------------------------------------------------------------------------
// The profile
// ---------------------------------------------------------------------------

/// How many of the first `n` projects are nowhere on this computer.
pub open spec fn count_remote(projects: Seq<Project>, n: int) -> nat
    decreases n,
{
    if n <= 0 {
        0
    } else {
        count_remote(projects, n - 1) + (if projects[n - 1].live_set is None {
            1nat
        } else {
            0
        })
    }
}

/// The profile and what providers hold for it.
#[derive(Debug)]
pub struct ProfilePanel {
    pub current: String,
    pub recovery: String,
    /// What went wrong in the latest refresh; empty where nothing did.
    pub errors: String,
    pub refresh_label: &'static str,
}

impl ProjectManager {
    /// What can be recovered from providers, in words.
    pub open spec fn recovery_text(self) -> Seq<char> {
        let remote = count_remote(self.projects@, self.projects@.len() as int);
        if self.remote_refreshing {
            "Checking connected providers…"@
        } else if remote == 0 {
            "No provider-only projects found."@
        } else if remote == 1 {
            "1 project is ready to download from its provider."@
        } else {
            decimal(remote) + " projects are ready to download from their providers."@
        }
    }

    fn remote_count(&self) -> (r: usize)
        ensures
            r == count_remote(self.projects@, self.projects@.len() as int),
    {
        let mut count: usize = 0;
        let mut i: usize = 0;
        while i < self.projects.len()
            invariant
                i <= self.projects@.len(),
                count <= i,
                count == count_remote(self.projects@, i as int),
            decreases self.projects@.len() - i,
        {
            if self.projects[i].live_set.is_none() {
                count = count + 1;
            }
            i = i + 1;
        }
        count
    }

    /// The profile and what providers hold for it.
    pub fn render_profile_settings(&self) -> (r: ProfilePanel)
        ensures
            r.current@ == "Currently saving as "@ + self.display_name@,
            r.recovery@ == self.recovery_text(),
            r.errors@ == joined(views(self.remote_discovery_errors@), " · "@),
            r.refresh_label@ == (if self.remote_refreshing {
                "CHECKING PROVIDERS…"@
            } else {
                "REFRESH PROVIDER PROJECTS"@
            }),
    {
        let remote: usize = self.remote_count();
        let recovery = if self.remote_refreshing {
            "Checking connected providers…".to_owned()
        } else if remote == 0 {
            "No provider-only projects found.".to_owned()
        } else if remote == 1 {
            "1 project is ready to download from its provider.".to_owned()
        } else {
            joined2(
                count_text(remote).as_str(),
                " projects are ready to download from their providers.",
            )
        };
        ProfilePanel {
            current: joined2("Currently saving as ", self.display_name.as_str()),
            recovery,
            errors: join(&self.remote_discovery_errors, " · "),
            refresh_label: if self.remote_refreshing {
                "CHECKING PROVIDERS…"
            } else {
                "REFRESH PROVIDER PROJECTS"
            },
        }
    }
}

// ---------------------------------------------------------------------------
// Providers
// ---------------------------------------------------------------------------

/// A provider in the settings.
#[derive(Debug)]
pub struct ProviderRow {
    pub name: String,
    pub detail: String,
    /// What signing in will involve.
    pub hint: &'static str,
    pub availability: &'static str,
    pub connected: bool,
}

/// Whether a text is the one-line hint for signing in to a provider.
pub open spec fn is_hint(hint: Seq<char>, listing: ProviderListing) -> bool {
    exists|known: AuthHint|
        #[trigger] known.is_for(preferred_method(listing.entry.auth_methods@)) && hint
            == known.summary@
}

/// A provider in the settings.
pub fn render_settings_provider(listing: &ProviderListing) -> (r: ProviderRow)
    ensures
        r.name@ == listing.entry.name@,
        r.detail@ == listing.detail@,
        is_hint(r.hint@, *listing),
        r.availability@ == listing.availability.label_text(),
        r.connected == (listing.availability is Connected),
{
    let hint = listing.auth_hint();
    assert(hint.is_for(preferred_method(listing.entry.auth_methods@)));
    ProviderRow {
        name: listing.entry.name.clone(),
        detail: listing.detail.clone(),
        hint: hint.summary,
        availability: listing.availability.label(),
        connected: listing.is_connected(),
    }
}

/// A provider in the list to add one from.
#[derive(Debug)]
pub struct PickerRow {
    pub name: String,
    pub description: String,
    pub action: &'static str,
    pub connected: bool,
}

/// Whether a row offers a provider.
pub open spec fn offers_provider(row: PickerRow, listing: ProviderListing) -> bool {
    &&& row.name@ == listing.entry.name@
    &&& row.description@ == listing.entry.description@
    &&& row.connected == (listing.availability is Connected)
    &&& row.action@ == (if listing.availability is Connected {
        "CONNECTED"@
    } else if asks_for_sign_in(listing) {
        "SIGN-IN REQUIRED →"@
    } else {
        "ADD DIRECTLY →"@
    })
}

/// The list of providers to add one from.
#[derive(Debug)]
pub struct PickerPanel {
    pub source: String,
    /// What is said where there is none: that nobody could be asked is another
    /// thing than that there is nobody.
    pub empty: Option<&'static str>,
    pub rows: Vec<PickerRow>,
}

impl ProjectManager {
    /// The list of providers to add one from, as published at a URL.
    pub fn render_provider_picker(&self, registry_url: &str) -> (r: PickerPanel)
        ensures
            r.source@ == self.catalog_state.label_text() + " · "@ + registry_url@,
            match r.empty {
                Some(text) => self.providers@.len() == 0 && text@ == (match self.catalog_state {
                    CatalogState::Loading => "Looking for providers…"@,
                    CatalogState::Unreachable =>
                        "Couldn't reach the provider list. Add a local folder below — it needs no account."@,
                    _ => "No providers yet. Add a local folder below."@,
                }),
                None => self.providers@.len() > 0,
            },
            r.rows@.len() == self.providers@.len(),
            forall|i: int|
                0 <= i < r.rows@.len() ==> offers_provider(
                    #[trigger] r.rows@[i],
                    self.providers@[i],
                ),
    {
        let mut rows: Vec<PickerRow> = Vec::new();
        let mut i: usize = 0;
        while i < self.providers.len()
            invariant
                i <= self.providers@.len(),
                rows@.len() == i,
                forall|j: int|
                    0 <= j < i ==> offers_provider(#[trigger] rows@[j], self.providers@[j]),
            decreases self.providers@.len() - i,
        {
            let listing = &self.providers[i];
            let connected = listing.is_connected();
            rows.push(
                PickerRow {
                    name: listing.entry.name.clone(),
                    description: listing.entry.description.clone(),
                    action: if connected {
                        "CONNECTED"
                    } else if listing.requires_authentication() {
                        "SIGN-IN REQUIRED →"
                    } else {
                        "ADD DIRECTLY →"
                    },
                    connected,
                },
            );
            i = i + 1;
        }
        PickerPanel {
            source: joined3(self.catalog_state.label(), " · ", registry_url),
            empty: if self.providers.len() == 0 {
                Some(
                    match self.catalog_state {
                        CatalogState::Loading => "Looking for providers…",
                        CatalogState::Unreachable =>
                            "Couldn't reach the provider list. Add a local folder below — it needs no account.",
                        _ => "No providers yet. Add a local folder below.",
                    },
                )
            } else {
                None
            },
            rows,
        }
    }
}

/// What the sign-in shows in each of its phases.
#[derive(Debug)]
pub enum AuthContent {
    /// What happens next, and the button that begins it.
    Begin { hint: &'static str, asks_credential: bool, action: &'static str },
    Waiting { title: String, note: &'static str },
    DeviceCode { user_code: String, url: String },
    Complete { detail: String },
    Failed { message: String },
}

/// The sign-in to a provider.
#[derive(Debug)]
pub struct AuthPanel {
    pub eyebrow: &'static str,
    pub title: String,
    pub content: AuthContent,
}

impl ProjectManager {
    /// Whether a panel shows the sign-in to a provider.
    pub open spec fn shows_sign_in(self, panel: AuthPanel, listing: ProviderListing) -> bool {
        &&& panel.title@ == "Connect "@ + listing.entry.name@
        &&& exists|hint: AuthHint|
            #[trigger] hint.is_for(preferred_method(listing.entry.auth_methods@)) && panel.eyebrow@
                == hint.eyebrow@ && (match self.auth_phase {
                AuthPhase::Ready => {
                    &&& panel.content matches AuthContent::Begin { hint: text, asks_credential, action }
                    &&& text@ == hint.detail@
                    &&& asks_credential == hint.accepts_credential
                    &&& action@ == hint.action@
                },
                AuthPhase::Waiting => {
                    &&& panel.content matches AuthContent::Waiting { title, note }
                    &&& title@ == "Waiting for "@ + listing.entry.name@ + "…"@
                    &&& note@ == "Preparing a secure browser sign-in with the provider."@
                },
                AuthPhase::DeviceCode { user_code, verification_uri } => {
                    &&& panel.content matches AuthContent::DeviceCode { user_code: code, url }
                    &&& code@ == user_code@
                    &&& url@ == verification_uri@
                },
                AuthPhase::Complete { detail } => {
                    &&& panel.content matches AuthContent::Complete { detail: said }
                    &&& said@ == detail@
                },
                AuthPhase::Failed(message) => {
                    &&& panel.content matches AuthContent::Failed { message: said }
                    &&& said@ == message@
                },
            })
    }

    /// The sign-in to a provider, as far as the provider is listed.
    pub fn render_authentication(&self, index: usize) -> (r: Option<AuthPanel>)
        ensures
            r is Some == (index < self.providers@.len()),
            r matches Some(panel) ==> self.shows_sign_in(panel, self.providers@[index as int]),
    {
        if index >= self.providers.len() {
            return None;
        }
        let listing = &self.providers[index];
        let hint = listing.auth_hint();
        assert(hint.is_for(preferred_method(listing.entry.auth_methods@)));
        let content = match &self.auth_phase {
            AuthPhase::Ready => AuthContent::Begin {
                hint: hint.detail,
                asks_credential: hint.accepts_credential,
                action: hint.action,
            },
            AuthPhase::Waiting => AuthContent::Waiting {
                title: joined3("Waiting for ", listing.entry.name.as_str(), "…"),
                note: "Preparing a secure browser sign-in with the provider.",
            },
            AuthPhase::DeviceCode { user_code, verification_uri } => AuthContent::DeviceCode {
                user_code: user_code.clone(),
                url: verification_uri.clone(),
            },
            AuthPhase::Complete { detail } => AuthContent::Complete { detail: detail.clone() },
            AuthPhase::Failed(message) => AuthContent::Failed { message: message.clone() },
        };
        Some(
            AuthPanel {
                eyebrow: hint.eyebrow,
                title: joined2("Connect ", listing.entry.name.as_str()),
                content,
            },
        )
    }
}

// ---------------------------------------------------------------------------
// Conflicts
// ---------------------------------------------------------------------------

/// A conflicting field.
#[derive(Debug)]
pub struct ConflictRow {
    pub path: String,
    pub local: String,
    pub remote: String,
    pub choice: ConflictChoice,
}

/// One side of a conflicting field in words.
pub open spec fn side_text(value: Option<serde_json::Value>) -> Seq<char> {
    match value {
        None => "Not present"@,
        Some(value) => value_text(field_at(content_of(value), ""@)->0),
    }
}

/// Whether a row shows a conflicting field with the side that is chosen.
pub open spec fn shows_conflict(row: ConflictRow, field: ConflictedField, choice: ConflictChoice) -> bool {
    &&& row.path@ == field.path@
    &&& row.local@ == side_text(field.local)
    &&& row.remote@ == side_text(field.remote)
    &&& row.choice == choice
}

/// The conflict that waits for choices.
#[derive(Debug)]
pub struct ConflictPanel {
    pub title: String,
    pub rows: Vec<ConflictRow>,
}

/// The conflict that waits for choices, of which there is one for each field at
/// least.
pub fn render_conflict_resolver(pending: &PendingConflict) -> (r: ConflictPanel)
    requires
        pending.choices@.len() >= pending.backup.conflicts@.len(),
    ensures
        r.title@ == "Resolve "@ + pending.project_name@,
        r.rows@.len() == pending.backup.conflicts@.len(),
        forall|i: int|
            0 <= i < r.rows@.len() ==> shows_conflict(
                #[trigger] r.rows@[i],
                pending.backup.conflicts@[i],
                pending.choices@[i],
            ),
{
    let conflicts = pending.backup.conflicts();
    let mut rows: Vec<ConflictRow> = Vec::new();
    let mut i: usize = 0;
    while i < conflicts.len()
        invariant
            i <= conflicts@.len(),
            *conflicts == pending.backup.conflicts,
            pending.choices@.len() >= conflicts@.len(),
            rows@.len() == i,
            forall|j: int|
                0 <= j < i ==> shows_conflict(
                    #[trigger] rows@[j],
                    conflicts@[j],
                    pending.choices@[j],
                ),
        decreases conflicts@.len() - i,
    {
        let field = &conflicts[i];
        rows.push(
            ConflictRow {
                path: field.path.clone(),
                local: conflict_value_label(&field.local),
                remote: conflict_value_label(&field.remote),
                choice: pending.choices[i],
            },
        );
        i = i + 1;
    }
    ConflictPanel { title: joined2("Resolve ", pending.project_name.as_str()), rows }
}

} // verus!
