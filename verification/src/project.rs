//! A project in the library.
use vstd::prelude::*;

use crate::detail::{absent, describe_size, detail_of, inventory, inventory_text,
    missing_plugins_for, size_text, BpmFilter, MissingPlugin, ProjectDetail, ProjectInfo,
    ResolvedPlugin, TempoBounds};
use crate::format::{commit_view, genres_of, same_commit, CommitId, CommitSummary, ImportKind,
    MetadataView, ProjectFormat, ProjectLocation, ProjectMetadata, Sidecar};
use crate::moment::{describe_epoch, describe_modified, epoch_moment, epoch_text, modified_text,
    moment_of_epoch, Moment};
use crate::path::{file_name, file_stem, file_stem_of, name_of, Platform};
use crate::status::{ProjectStatus, SyncDirection};
use crate::text::{blank, contains, count_text, decimal, equal_ignoring_case, is_blank, lowercase,
    occurs, optional_view, same_ignoring_case, trim, trimmed, views};
use crate::text_map::TextMap;

verus! {

/// A version of a project, as the detail page lists it.
#[derive(Debug, PartialEq, Eq)]
pub struct ProjectVersion {
    pub id: CommitId,
    pub version: String,
    pub summary: String,
    pub created_at: String,
}

/// A project as a provider knows it.
#[derive(Debug, PartialEq, Eq)]
pub struct RemoteProjectRef {
    pub provider_id: String,
    pub handle: String,
    pub head: CommitId,
}

/// A project a provider's catalogue lists.
#[derive(Debug)]
pub struct RemoteProjectSeed {
    pub provider_id: String,
    pub provider_name: String,
    pub handle: String,
    pub head: CommitId,
    pub name: String,
    pub file_name: String,
    pub format: ProjectFormat,
    pub metadata: ProjectMetadata,
    pub location: Option<ProjectLocation>,
    /// Unix seconds.
    pub updated_at: i64,
    pub info: Option<ProjectInfo>,
}

/// What reading a project turned up, ready to fold into a [`Project`].
#[derive(Debug)]
pub struct LoadedDetail {
    pub size: String,
    pub inventory: String,
    pub detail: Option<ProjectDetail>,
    pub missing_plugins: Vec<MissingPlugin>,
}

/// What reading a project file gives.
#[derive(Debug)]
pub struct SnapshotRead {
    /// The length of the snapshot.
    pub bytes: u64,
    pub info: Option<ProjectInfo>,
    /// The plugins the project uses, where they can be read.
    pub plugins: Option<Vec<ResolvedPlugin>>,
}

/// The times and the record of a project on disk.
#[derive(Debug)]
pub struct LocalFiles {
    /// When the project file was last written.
    pub modified_at: Option<Moment>,
    /// When its sidecar was last written.
    pub sidecar_modified_at: Option<Moment>,
    /// The sidecar, where it can be read.
    pub sidecar: Option<Sidecar>,
}

/// A project found on disk.
#[derive(Debug)]
pub struct DiskProject {
    pub project_file: String,
    pub directory: String,
    pub format: ProjectFormat,
    pub files: LocalFiles,
}

/// An Ableton project folder: the set in it, and the folder.
#[derive(Debug)]
pub struct Bundle {
    pub live_set: String,
    pub root: String,
}

/// What a picked path means: the file to read, and the place of the project.
#[derive(Debug, PartialEq, Eq)]
pub struct ImportTarget {
    pub project_file: String,
    pub root: String,
}

/// What was found at the file to import.
#[derive(Debug)]
pub enum ImportRead {
    Directory,
    Unreadable(String),
    Read {
        format: ProjectFormat,
        /// How the format found is called, and how the one wanted is.
        format_name: String,
        wanted_name: String,
        snapshot: SnapshotRead,
        files: LocalFiles,
    },
}

/// A project in the library.
#[derive(Debug)]
pub struct Project {
    /// Derived from the project's place, so that adding the same project twice
    /// replaces it.
    pub id: String,
    pub name: String,
    pub file_name: String,
    pub local_path: String,
    pub size: String,
    pub format: ProjectFormat,
    pub status: ProjectStatus,
    pub last_activity: String,
    pub safe_version: String,
    pub local_inventory: String,
    pub versions: Vec<ProjectVersion>,
    /// Progress of a transfer in flight, in percent.
    pub sync_progress: u8,
    /// When the project file was last saved.
    pub modified_at: Option<Moment>,
    /// When this project was last backed up.
    pub backed_up_at: Option<Moment>,
    /// Unix seconds when Auru first saw this project.
    pub added_at: Option<i64>,
    /// The project file on disk.
    pub live_set: Option<String>,
    /// The provider's side of a linked or provider-only project.
    pub remote: Option<RemoteProjectRef>,
    /// Every provider handle recorded for this project.
    pub provider_handles: TextMap<String>,
    /// Labels synced through the provider project profile.
    pub metadata: ProjectMetadata,
    /// The place beneath the watched library root.
    pub location: Option<ProjectLocation>,
    /// What the project is, once it has been read.
    pub detail: Option<ProjectDetail>,
    /// Plugins this computer does not have.
    pub missing_plugins: Vec<MissingPlugin>,
}

// ---------------------------------------------------------------------------
// What is on disk
// ---------------------------------------------------------------------------

impl LocalFiles {
    /// The version the sidecar records.
    pub open spec fn head(self) -> Option<CommitId> {
        match self.sidecar {
            Some(sidecar) => sidecar.local_head,
            None => None,
        }
    }

    pub open spec fn disk_status(self) -> ProjectStatus {
        ProjectStatus::on_disk(self.head() is Some, self.modified_at, self.sidecar_modified_at)
    }

    /// The status the files show.
    pub fn status(&self) -> (r: ProjectStatus)
        ensures
            r == self.disk_status(),
    {
        let has_commit = match &self.sidecar {
            Some(sidecar) => sidecar.local_head.is_some(),
            None => false,
        };
        ProjectStatus::read_from_disk(has_commit, self.modified_at, self.sidecar_modified_at)
    }

    /// When the last backup was made: when the record was written, where there
    /// is a backup at all.
    pub open spec fn backup_time(self) -> Option<Moment> {
        if self.disk_status() is NeverBackedUp {
            None
        } else {
            self.sidecar_modified_at
        }
    }

    fn backed_up_at(&self) -> (r: Option<Moment>)
        ensures
            r == self.backup_time(),
    {
        match self.status() {
            ProjectStatus::NeverBackedUp => None,
            _ => self.sidecar_modified_at,
        }
    }
}

/// What a sidecar links a project to.
#[derive(Debug)]
pub struct ProviderLinks {
    pub remote: Option<RemoteProjectRef>,
    pub handles: TextMap<String>,
    pub metadata: ProjectMetadata,
    pub location: Option<ProjectLocation>,
}

/// The provider, the handle and the version a sidecar names; nothing unless it
/// names all three.
pub open spec fn remote_view(sidecar: Option<Sidecar>) -> Option<(Seq<char>, Seq<char>, Seq<char>)> {
    match sidecar {
        Some(sidecar) => match (sidecar.primary, sidecar.local_head) {
            (Some(primary), Some(head)) => if sidecar.provider_handles@.dom().contains(primary@) {
                Some((primary@, sidecar.provider_handles@[primary@]@, head.text@))
            } else {
                None
            },
            _ => None,
        },
        None => None,
    }
}

/// An optional provider reference by its texts.
pub open spec fn ref_view(remote: Option<RemoteProjectRef>) -> Option<
    (Seq<char>, Seq<char>, Seq<char>),
> {
    match remote {
        Some(remote) => Some((remote.provider_id@, remote.handle@, remote.head.text@)),
        None => None,
    }
}

/// The handles a sidecar records; none where it cannot be read.
pub open spec fn handles_of(sidecar: Option<Sidecar>) -> Map<Seq<char>, String> {
    match sidecar {
        Some(sidecar) => sidecar.provider_handles@,
        None => Map::empty(),
    }
}

/// The labels a sidecar records.
pub open spec fn labels_of(sidecar: Option<Sidecar>) -> MetadataView {
    match sidecar {
        Some(sidecar) => sidecar.metadata@,
        None => (None, Seq::empty()),
    }
}

/// The location a sidecar records.
pub open spec fn place_of(sidecar: Option<Sidecar>) -> Option<ProjectLocation> {
    match sidecar {
        Some(sidecar) => sidecar.location,
        None => None,
    }
}

/// What a project's sidecar links it to; nothing where it cannot be read.
pub fn provider_links_for(sidecar: Option<Sidecar>) -> (r: ProviderLinks)
    ensures
        ref_view(r.remote) == remote_view(sidecar),
        r.handles@ == handles_of(sidecar),
        r.metadata@ == labels_of(sidecar),
        r.location == place_of(sidecar),
{
    match sidecar {
        None => ProviderLinks {
            remote: None,
            handles: TextMap::new(),
            metadata: ProjectMetadata::default(),
            location: None,
        },
        Some(sidecar) => {
            let remote = match (&sidecar.primary, &sidecar.local_head) {
                (Some(primary), Some(head)) => {
                    match sidecar.provider_handles.get(primary.as_str()) {
                        Some(handle) => Some(
                            RemoteProjectRef {
                                provider_id: primary.clone(),
                                handle: handle.clone(),
                                head: head.clone(),
                            },
                        ),
                        None => None,
                    }
                },
                _ => None,
            };
            ProviderLinks {
                remote,
                handles: sidecar.provider_handles,
                metadata: sidecar.metadata,
                location: sidecar.location,
            }
        },
    }
}

/// The name of a project file for a message.
pub open spec fn display_text(on: Platform, path: Seq<char>) -> Seq<char> {
    match name_of(on, path) {
        Some(name) => name,
        None => "this project"@,
    }
}

/// The name of a project file for a message.
pub fn display_name(on: Platform, path: &str) -> (r: String)
    ensures
        r@ == display_text(on, path@),
{
    match file_name(on, path) {
        Some(name) => name,
        None => "this project".to_owned(),
    }
}

/// The name of a project: its file's stem.
pub open spec fn title_text(on: Platform, project_file: Seq<char>) -> Seq<char> {
    match file_stem_of(on, project_file) {
        Some(stem) => stem,
        None => "Untitled"@,
    }
}

fn title(on: Platform, project_file: &str) -> (r: String)
    ensures
        r@ == title_text(on, project_file@),
{
    match file_stem(on, project_file) {
        Some(stem) => stem,
        None => "Untitled".to_owned(),
    }
}

fn prefixed(prefix: &str, text: &str) -> (r: String)
    ensures
        r@ == prefix@ + text@,
{
    let mut out = prefix.to_owned();
    out.append(text);
    out
}

// ---------------------------------------------------------------------------
// Adding a project by hand
// ---------------------------------------------------------------------------

/// The file to read for a picked path: for Ableton the set inside a project
/// folder, and otherwise the path itself.
pub fn import_target(kind: ImportKind, path: &str, bundle: Option<Bundle>) -> (r: ImportTarget)
    ensures
        match bundle {
            Some(bundle) => if kind is AbletonLiveSet {
                r.project_file == bundle.live_set && r.root == bundle.root
            } else {
                r.project_file@ == path@ && r.root@ == path@
            },
            None => r.project_file@ == path@ && r.root@ == path@,
        },
{
    match (kind, bundle) {
        (ImportKind::AbletonLiveSet, Some(bundle)) => ImportTarget {
            project_file: bundle.live_set,
            root: bundle.root,
        },
        _ => ImportTarget { project_file: path.to_owned(), root: path.to_owned() },
    }
}

/// Whether a project is what importing a file gives: on this computer, and not
/// backed up.
pub open spec fn imports(
    on: Platform,
    project: Project,
    target: ImportTarget,
    format: ProjectFormat,
    snapshot: SnapshotRead,
    files: LocalFiles,
) -> bool {
    let detail = match snapshot.info {
        Some(info) => detail_of(info),
        None => None,
    };
    &&& project.id@ == "imported:"@ + target.root@
    &&& project.name@ == title_text(on, target.project_file@)
    &&& project.file_name@ == display_text(on, target.project_file@)
    &&& project.local_path@ == target.root@
    &&& project.size@ == size_text(snapshot.bytes as nat, detail)
    &&& project.format == format
    &&& project.status == ProjectStatus::OutOfSync(SyncDirection::LocalAhead)
    &&& project.last_activity@ == "added just now"@
    &&& project.safe_version@ == "not backed up yet"@
    &&& project.local_inventory@ == (match detail {
        Some(detail) => detail.files_text(),
        None => "ready to back up"@,
    })
    &&& project.versions@.len() == 0
    &&& project.sync_progress == 0
    &&& project.modified_at == files.modified_at
    &&& project.backed_up_at is None
    &&& project.added_at is None
    &&& optional_view(project.live_set) == Some(target.project_file@)
    &&& ref_view(project.remote) == remote_view(files.sidecar)
    &&& project.provider_handles@ == handles_of(files.sidecar)
    &&& project.metadata@ == labels_of(files.sidecar)
    &&& project.location == place_of(files.sidecar)
    &&& project.detail == detail
    &&& project.missing_plugins@ == (match snapshot.plugins {
        Some(plugins) => absent(plugins@),
        None => Seq::empty(),
    })
}

/// Add a project from disk. The error is written for the person who picked the
/// file.
pub fn import_project(
    on: Platform,
    kind: ImportKind,
    path: &str,
    target: ImportTarget,
    read: ImportRead,
) -> (r:
    Result<Project, String>)
    requires
        read matches ImportRead::Read { snapshot, .. } ==> (snapshot.info matches Some(info)
            ==> info.counts_fit()),
    ensures
        match read {
            ImportRead::Directory => r matches Err(message) && message@ == display_text(on, path@)
                + " doesn't contain a project Auru can read."@,
            ImportRead::Unreadable(error) => r matches Err(message) && message@ == "Couldn't read "@
                + display_text(on, target.project_file@) + ". "@ + error@,
            ImportRead::Read { format, format_name, wanted_name, snapshot, files } => {
                if format != kind.project_format() {
                    r matches Err(message) && message@ == display_text(on, target.project_file@)
                        + " is a "@ + format_name@ + " project, not "@ + wanted_name@ + "."@
                } else {
                    r matches Ok(project) && imports(on, project, target, format, snapshot, files)
                }
            },
        },
{
    match read {
        ImportRead::Directory => {
            let mut message = display_name(on, path);
            message.append(" doesn't contain a project Auru can read.");
            Err(message)
        },
        ImportRead::Unreadable(error) => {
            let mut message = "Couldn't read ".to_owned();
            message.append(display_name(on, target.project_file.as_str()).as_str());
            message.append(". ");
            message.append(error.as_str());
            Err(message)
        },
        ImportRead::Read { format, format_name, wanted_name, snapshot, files } => {
            if format != kind.format() {
                let mut message = display_name(on, target.project_file.as_str());
                message.append(" is a ");
                message.append(format_name.as_str());
                message.append(" project, not ");
                message.append(wanted_name.as_str());
                message.append(".");
                return Err(message);
            }
            let detail = match &snapshot.info {
                Some(info) => ProjectDetail::from_project_info(info),
                None => None,
            };
            let missing_plugins = missing_plugins_for(&snapshot.plugins);
            let local_inventory = match &detail {
                Some(detail) => detail.files_line(),
                None => "ready to back up".to_owned(),
            };
            let links = provider_links_for(files.sidecar);
            Ok(
                Project {
                    id: prefixed("imported:", target.root.as_str()),
                    name: title(on, target.project_file.as_str()),
                    file_name: display_name(on, target.project_file.as_str()),
                    local_path: target.root.clone(),
                    size: describe_size(snapshot.bytes, &detail),
                    format,
                    status: ProjectStatus::OutOfSync(SyncDirection::LocalAhead),
                    last_activity: "added just now".to_owned(),
                    safe_version: "not backed up yet".to_owned(),
                    local_inventory,
                    versions: Vec::new(),
                    sync_progress: 0,
                    modified_at: files.modified_at,
                    backed_up_at: None,
                    added_at: None,
                    live_set: Some(target.project_file.clone()),
                    remote: links.remote,
                    provider_handles: links.handles,
                    metadata: links.metadata,
                    location: links.location,
                    detail,
                    missing_plugins,
                },
            )
        },
    }
}

// ---------------------------------------------------------------------------
// History
// ---------------------------------------------------------------------------

/// Whether a row shows a version, which is the `number`-th.
pub open spec fn shows_version(
    row: ProjectVersion,
    commit: CommitSummary,
    number: int,
    now: Moment,
) -> bool {
    &&& row.id.text@ == commit.id.text@
    &&& row.version@ == "v"@ + decimal(number as nat)
    &&& row.summary@ == (if is_blank(commit.message@) {
        "Saved version"@
    } else {
        commit.message@
    })
    &&& row.created_at@ == epoch_text(commit.timestamp, now)
}

/// Whether rows show a history, which lists the newest version first: the
/// oldest is the first version, and each newer one counts up.
pub open spec fn shows_history(
    rows: Seq<ProjectVersion>,
    history: Seq<CommitSummary>,
    now: Moment,
) -> bool {
    rows.len() == history.len() && forall|i: int|
        0 <= i < rows.len() ==> shows_version(
            #[trigger] rows[i],
            history[i],
            history.len() - i,
            now,
        )
}

/// The newest version of a history.
pub open spec fn newest(history: Seq<CommitSummary>) -> Option<Seq<char>> {
    if history.len() == 0 {
        None
    } else {
        Some(history[0].id.text@)
    }
}

fn version_rows(history: &Vec<CommitSummary>, now: Moment) -> (r: Vec<ProjectVersion>)
    ensures
        shows_history(r@, history@, now),
{
    let mut rows: Vec<ProjectVersion> = Vec::new();
    let total: usize = history.len();
    let mut i: usize = 0;
    while i < total
        invariant
            i <= total == history@.len(),
            rows@.len() == i,
            forall|j: int|
                0 <= j < i ==> shows_version(#[trigger] rows@[j], history@[j], total - j, now),
        decreases total - i,
    {
        let commit = &history[i];
        let summary = if blank(commit.message.as_str()) {
            "Saved version".to_owned()
        } else {
            commit.message.clone()
        };
        rows.push(
            ProjectVersion {
                id: commit.id.clone(),
                version: prefixed("v", count_text(total - i).as_str()),
                summary,
                created_at: describe_epoch(commit.timestamp, now),
            },
        );
        i = i + 1;
    }
    rows
}

/// The status once the provider's newest version is known. Where that version
/// is not the one the working copy comes from, the provider is ahead, or, with
/// saves that are not backed up, the two are in conflict.
pub open spec fn reconciled(
    status: ProjectStatus,
    local: Option<LocalFiles>,
    remote_head: Option<Seq<char>>,
) -> ProjectStatus {
    match local {
        None => status,
        Some(files) => if files.sidecar is None || remote_head is None || remote_head
            == commit_view(files.head()) {
            status
        } else if files.disk_status() == ProjectStatus::OutOfSync(SyncDirection::LocalAhead) {
            ProjectStatus::Conflicted
        } else {
            ProjectStatus::OutOfSync(SyncDirection::UpstreamAhead)
        },
    }
}

/// A project's files as far as it has any: none for a provider-only project.
pub open spec fn files_if(live_set: Option<String>, files: LocalFiles) -> Option<LocalFiles> {
    if live_set is Some {
        Some(files)
    } else {
        None
    }
}

// ---------------------------------------------------------------------------
// Search
// ---------------------------------------------------------------------------

/// Whether `needle`, in small letters, occurs in a text in small letters.
pub open spec fn mentions(text: Seq<char>, needle: Seq<char>) -> bool {
    occurs(lowercase(text), needle)
}

/// Whether some text of a list mentions `needle`.
pub open spec fn some_mentions(list: Seq<String>, needle: Seq<char>) -> bool {
    exists|i: int| 0 <= i < list.len() && mentions((#[trigger] list[i])@, needle)
}

/// Whether some text of one list is one of the other, but for ASCII case.
pub open spec fn share_ignoring_case(a: Seq<Seq<char>>, b: Seq<Seq<char>>) -> bool {
    exists|i: int, j: int|
        0 <= i < a.len() && 0 <= j < b.len() && same_ignoring_case(#[trigger] a[i], #[trigger] b[j])
}

fn text_mentions(text: &str, needle: &str) -> (r: bool)
    ensures
        r == mentions(text@, needle@),
{
    contains(text.to_lowercase().as_str(), needle)
}

fn any_mentions(list: &Vec<String>, needle: &str) -> (r: bool)
    ensures
        r == some_mentions(list@, needle@),
{
    let mut i: usize = 0;
    while i < list.len()
        invariant
            i <= list@.len(),
            forall|j: int| 0 <= j < i ==> !mentions((#[trigger] list@[j])@, needle@),
        decreases list@.len() - i,
    {
        if text_mentions(list[i].as_str(), needle) {
            return true;
        }
        i = i + 1;
    }
    false
}

/// Whether two lists share a text but for ASCII case.
pub fn any_shared(a: &Vec<String>, b: &Vec<String>) -> (r: bool)
    ensures
        r == share_ignoring_case(views(a@), views(b@)),
{
    let mut i: usize = 0;
    while i < a.len()
        invariant
            i <= a@.len(),
            forall|k: int, j: int|
                0 <= k < i && 0 <= j < b@.len() ==> !same_ignoring_case(
                    #[trigger] views(a@)[k],
                    #[trigger] views(b@)[j],
                ),
        decreases a@.len() - i,
    {
        let mut j: usize = 0;
        while j < b.len()
            invariant
                i < a@.len(),
                j <= b@.len(),
                forall|m: int|
                    0 <= m < j ==> !same_ignoring_case(
                        views(a@)[i as int],
                        #[trigger] views(b@)[m],
                    ),
            decreases b@.len() - j,
        {
            if equal_ignoring_case(a[i].as_str(), b[j].as_str()) {
                assert(same_ignoring_case(views(a@)[i as int], views(b@)[j as int]));
                return true;
            }
            j = j + 1;
        }
        i = i + 1;
    }
    false
}

impl Project {
    /// Whether a project is what is read of one on disk, without opening it.
    pub open spec fn is_read_from(self, on: Platform, found: DiskProject, now: Moment) -> bool {
        let status = found.files.disk_status();
        &&& self.id@ == "project:"@ + found.project_file@
        &&& self.name@ == title_text(on, found.project_file@)
        &&& self.file_name@ == (match name_of(on, found.project_file@) {
            Some(name) => name,
            None => Seq::empty(),
        })
        &&& self.local_path@ == found.directory@
        &&& self.size@ == Seq::<char>::empty()
        &&& self.format == found.format
        &&& self.status == status
        &&& self.last_activity@ == modified_text(found.files.modified_at, now)
        &&& self.safe_version@ == (if status is NeverBackedUp {
            "not backed up yet"@
        } else {
            "backed up"@
        })
        &&& self.local_inventory@ == Seq::<char>::empty()
        &&& self.versions@.len() == 0
        &&& self.sync_progress == 0
        &&& self.modified_at == found.files.modified_at
        &&& self.backed_up_at == found.files.backup_time()
        &&& self.added_at is None
        &&& optional_view(self.live_set) == Some(found.project_file@)
        &&& ref_view(self.remote) == remote_view(found.files.sidecar)
        &&& self.provider_handles@ == handles_of(found.files.sidecar)
        &&& self.metadata@ == labels_of(found.files.sidecar)
        &&& self.location == place_of(found.files.sidecar)
        &&& self.detail is None
        &&& self.missing_plugins@.len() == 0
    }

    /// The project found on disk; none where a folder holds none. Keyed on the
    /// project file: a folder can hold several.
    pub fn read_from_disk(
        on: Platform,
        found: Option<DiskProject>,
        now: Moment,
    ) -> (r: Option<Self>)
        ensures
            r is Some == found is Some,
            r matches Some(project) ==> project.is_read_from(on, found->Some_0, now),
    {
        match found {
            None => None,
            Some(found) => {
                let status = found.files.status();
                let backed_up_at = found.files.backed_up_at();
                let last_activity = describe_modified(found.files.modified_at, now);
                let safe_version = match status {
                    ProjectStatus::NeverBackedUp => "not backed up yet".to_owned(),
                    _ => "backed up".to_owned(),
                };
                let name = match file_name(on, found.project_file.as_str()) {
                    Some(name) => name,
                    None => String::new(),
                };
                let links = provider_links_for(found.files.sidecar);
                Some(
                    Project {
                        id: prefixed("project:", found.project_file.as_str()),
                        name: title(on, found.project_file.as_str()),
                        file_name: name,
                        local_path: found.directory.clone(),
                        size: String::new(),
                        format: found.format,
                        status,
                        last_activity,
                        safe_version,
                        local_inventory: String::new(),
                        versions: Vec::new(),
                        sync_progress: 0,
                        modified_at: found.files.modified_at,
                        backed_up_at,
                        added_at: None,
                        live_set: Some(found.project_file.clone()),
                        remote: links.remote,
                        provider_handles: links.handles,
                        metadata: links.metadata,
                        location: links.location,
                        detail: None,
                        missing_plugins: Vec::new(),
                    },
                )
            },
        }
    }

    /// Whether polling the files leaves the status alone: an upstream conflict
    /// or an active transfer carries more than modification times.
    pub open spec fn status_is_pinned(self) -> bool {
        self.status is NotDownloaded || self.status is Syncing || self.status is Conflicted
            || self.status == ProjectStatus::OutOfSync(SyncDirection::UpstreamAhead)
    }

    /// Refresh the cheap filesystem facts used by status and automatic backup.
    pub fn refresh_local_file_state(&mut self, files: &LocalFiles, now: Moment)
        ensures
            old(self).live_set is None ==> *final(self) == *old(self),
            old(self).live_set is Some ==> {
                &&& final(self).last_activity@ == modified_text(files.modified_at, now)
                &&& *final(self) == (Project {
                    modified_at: files.modified_at,
                    last_activity: final(self).last_activity,
                    status: if old(self).status_is_pinned() {
                        old(self).status
                    } else {
                        files.disk_status()
                    },
                    backed_up_at: if old(self).status_is_pinned() {
                        old(self).backed_up_at
                    } else {
                        files.backup_time()
                    },
                    ..*old(self)
                })
            },
    {
        if self.live_set.is_none() {
            return;
        }
        self.modified_at = files.modified_at;
        self.last_activity = describe_modified(files.modified_at, now);
        match self.status {
            ProjectStatus::NotDownloaded
            | ProjectStatus::Syncing
            | ProjectStatus::OutOfSync(SyncDirection::UpstreamAhead)
            | ProjectStatus::Conflicted => {
                return;
            },
            _ => {},
        }
        self.status = files.status();
        self.backed_up_at = files.backed_up_at();
    }

    /// Whether a project is the row of one that only its provider has.
    pub open spec fn is_row_of(self, seed: RemoteProjectSeed, now: Moment) -> bool {
        let detail = match seed.info {
            Some(info) => detail_of(info),
            None => None,
        };
        &&& self.id@ == "remote:"@ + seed.provider_id@ + ":"@ + seed.handle@
        &&& self.name == seed.name
        &&& self.file_name == seed.file_name
        &&& self.local_path@ == "Stored on "@ + seed.provider_name@
        &&& self.size@ == Seq::<char>::empty()
        &&& self.format == seed.format
        &&& self.status is NotDownloaded
        &&& self.last_activity@ == "backed up · "@ + epoch_text(seed.updated_at, now)
        &&& self.safe_version@ == epoch_text(seed.updated_at, now)
        &&& self.local_inventory@ == inventory_text(detail)
        &&& self.versions@.len() == 0
        &&& self.sync_progress == 0
        &&& self.modified_at is None
        &&& self.backed_up_at == epoch_moment(seed.updated_at)
        &&& self.added_at == Some(seed.updated_at)
        &&& self.live_set is None
        &&& ref_view(self.remote) == Some((seed.provider_id@, seed.handle@, seed.head.text@))
        &&& self.provider_handles@ == Map::<Seq<char>, String>::empty().insert(
            seed.provider_id@,
            seed.handle,
        )
        &&& self.metadata == seed.metadata
        &&& self.location == seed.location
        &&& self.detail == detail
        &&& self.missing_plugins@.len() == 0
    }

    /// The row of a project that only its provider has.
    pub fn from_remote(seed: RemoteProjectSeed, now: Moment) -> (r: Self)
        requires
            seed.info matches Some(info) ==> info.counts_fit(),
        ensures
            r.is_row_of(seed, now),
    {
        let detail = match &seed.info {
            Some(info) => ProjectDetail::from_project_info(info),
            None => None,
        };
        let mut provider_handles: TextMap<String> = TextMap::new();
        provider_handles.insert(seed.provider_id.as_str(), seed.handle.clone());
        let mut id = prefixed("remote:", seed.provider_id.as_str());
        id.append(":");
        id.append(seed.handle.as_str());
        let safe_version = describe_epoch(seed.updated_at, now);
        Project {
            id,
            name: seed.name,
            file_name: seed.file_name,
            local_path: prefixed("Stored on ", seed.provider_name.as_str()),
            size: String::new(),
            format: seed.format,
            status: ProjectStatus::NotDownloaded,
            last_activity: prefixed("backed up · ", safe_version.as_str()),
            safe_version,
            local_inventory: inventory(&detail),
            versions: Vec::new(),
            sync_progress: 0,
            modified_at: None,
            backed_up_at: moment_of_epoch(seed.updated_at),
            added_at: Some(seed.updated_at),
            live_set: None,
            remote: Some(
                RemoteProjectRef {
                    provider_id: seed.provider_id,
                    handle: seed.handle,
                    head: seed.head,
                },
            ),
            provider_handles,
            metadata: seed.metadata,
            location: seed.location,
            detail,
            missing_plugins: Vec::new(),
        }
    }

    /// Everything the detail page shows of a project file; blank for one that
    /// cannot be read.
    pub fn detail_for(snapshot: Option<SnapshotRead>) -> (r: LoadedDetail)
        requires
            snapshot matches Some(read) ==> (read.info matches Some(info) ==> info.counts_fit()),
        ensures
            match snapshot {
                None => r.size@ == Seq::<char>::empty() && r.inventory@ == Seq::<char>::empty()
                    && r.detail is None && r.missing_plugins@.len() == 0,
                Some(read) => {
                    &&& r.detail == (match read.info {
                        Some(info) => detail_of(info),
                        None => None,
                    })
                    &&& r.size@ == size_text(read.bytes as nat, r.detail)
                    &&& r.inventory@ == inventory_text(r.detail)
                    &&& r.missing_plugins@ == (match read.plugins {
                        Some(plugins) => absent(plugins@),
                        None => Seq::empty(),
                    })
                },
            },
    {
        match snapshot {
            None => LoadedDetail {
                size: String::new(),
                inventory: String::new(),
                detail: None,
                missing_plugins: Vec::new(),
            },
            Some(read) => {
                let detail = match &read.info {
                    Some(info) => ProjectDetail::from_project_info(info),
                    None => None,
                };
                LoadedDetail {
                    size: describe_size(read.bytes, &detail),
                    inventory: inventory(&detail),
                    missing_plugins: missing_plugins_for(&read.plugins),
                    detail,
                }
            },
        }
    }

    /// Whether the project is what someone typed in the search box: an empty
    /// box shows everything, and otherwise the name, the file name, the genre
    /// or a tag has to mention it.
    pub open spec fn is_found_by(self, query: Seq<char>) -> bool {
        let needle = lowercase(trimmed(query));
        ||| is_blank(query)
        ||| mentions(self.name@, needle)
        ||| mentions(self.file_name@, needle)
        ||| (self.metadata.genre matches Some(genre) && mentions(genre@, needle))
        ||| some_mentions(self.metadata.tags@, needle)
    }

    pub fn matches_search(&self, query: &str) -> (r: bool)
        ensures
            r == self.is_found_by(query@),
    {
        let query = trim(query);
        if query.as_str().is_empty() {
            return true;
        }
        let needle = query.as_str().to_lowercase();
        let in_genre = match &self.metadata.genre {
            Some(genre) => text_mentions(genre.as_str(), needle.as_str()),
            None => false,
        };
        text_mentions(self.name.as_str(), needle.as_str()) || text_mentions(
            self.file_name.as_str(),
            needle.as_str(),
        ) || in_genre || any_mentions(&self.metadata.tags, needle.as_str())
    }

    /// The whole numbers around the project's tempo.
    pub open spec fn tempo_bounds(self) -> Option<TempoBounds> {
        match self.detail {
            Some(detail) => match detail.tempo {
                Some(tempo) => tempo.bounds,
                None => None,
            },
            None => None,
        }
    }

    /// Whether the project passes the search box and every active filter
    /// group. Values within a group are alternatives; the groups combine.
    pub open spec fn passes(
        self,
        query: Seq<char>,
        genres: Seq<Seq<char>>,
        tags: Seq<Seq<char>>,
        bpm: Option<BpmFilter>,
    ) -> bool {
        &&& self.is_found_by(query)
        &&& genres.len() == 0 || share_ignoring_case(genres_of(self.metadata@), genres)
        &&& tags.len() == 0 || share_ignoring_case(views(self.metadata.tags@), tags)
        &&& bpm matches Some(filter) ==> filter.admits(self.tempo_bounds())
    }

    pub fn matches_library_filters(
        &self,
        query: &str,
        genres: &Vec<String>,
        tags: &Vec<String>,
        bpm: Option<BpmFilter>,
    ) -> (r: bool)
        ensures
            r == self.passes(query@, views(genres@), views(tags@), bpm),
    {
        assert(views(genres@).len() == genres@.len());
        assert(views(tags@).len() == tags@.len());
        if !self.matches_search(query) {
            return false;
        }
        if genres.len() > 0 && !any_shared(&self.metadata.genres(), genres) {
            return false;
        }
        if tags.len() > 0 && !any_shared(&self.metadata.tags, tags) {
            return false;
        }
        match bpm {
            None => true,
            Some(filter) => {
                let bounds = match &self.detail {
                    Some(detail) => match &detail.tempo {
                        Some(tempo) => tempo.bounds,
                        None => None,
                    },
                    None => None,
                };
                filter.matches(bounds)
            },
        }
    }

    /// Fold in what [`Self::detail_for`] read.
    pub fn apply_detail(&mut self, loaded: LoadedDetail)
        ensures
            *final(self) == (Project {
                size: loaded.size,
                local_inventory: loaded.inventory,
                detail: loaded.detail,
                missing_plugins: loaded.missing_plugins,
                ..*old(self)
            }),
    {
        self.size = loaded.size;
        self.local_inventory = loaded.inventory;
        self.detail = loaded.detail;
        self.missing_plugins = loaded.missing_plugins;
    }

    pub open spec fn format_text(self) -> Seq<char> {
        match self.format {
            ProjectFormat::Dawproject => "DAWPROJECT"@,
            ProjectFormat::AbletonLiveSet => "ABLETON LIVE SET"@,
            ProjectFormat::BitwigProject => "BITWIG STUDIO PROJECT"@,
            ProjectFormat::FlStudio => "FL STUDIO PROJECT"@,
            ProjectFormat::Auru => "AURU PROJECT"@,
        }
    }

    pub fn format_label(&self) -> (r: &'static str)
        ensures
            r@ == self.format_text(),
    {
        match self.format {
            ProjectFormat::Dawproject => "DAWPROJECT",
            ProjectFormat::AbletonLiveSet => "ABLETON LIVE SET",
            ProjectFormat::BitwigProject => "BITWIG STUDIO PROJECT",
            ProjectFormat::FlStudio => "FL STUDIO PROJECT",
            ProjectFormat::Auru => "AURU PROJECT",
        }
    }

    pub open spec fn open_text(self) -> Seq<char> {
        match self.format {
            ProjectFormat::AbletonLiveSet => "OPEN IN ABLETON LIVE  ⌘↵"@,
            ProjectFormat::BitwigProject => "OPEN IN BITWIG STUDIO  ⌘↵"@,
            ProjectFormat::FlStudio => "OPEN IN FL STUDIO  ⌘↵"@,
            ProjectFormat::Dawproject => "OPEN IN YOUR DAW  ⌘↵"@,
            ProjectFormat::Auru => "OPEN IN AURU STUDIO  ⌘↵"@,
        }
    }

    pub fn open_label(&self) -> (r: &'static str)
        ensures
            r@ == self.open_text(),
    {
        match self.format {
            ProjectFormat::AbletonLiveSet => "OPEN IN ABLETON LIVE  ⌘↵",
            ProjectFormat::BitwigProject => "OPEN IN BITWIG STUDIO  ⌘↵",
            ProjectFormat::FlStudio => "OPEN IN FL STUDIO  ⌘↵",
            ProjectFormat::Dawproject => "OPEN IN YOUR DAW  ⌘↵",
            ProjectFormat::Auru => "OPEN IN AURU STUDIO  ⌘↵",
        }
    }

    pub open spec fn list_status_text(self) -> Seq<char> {
        match self.status {
            ProjectStatus::NeverBackedUp => "only on this computer"@,
            ProjectStatus::NotDownloaded => "stored with your provider"@,
            ProjectStatus::Downloaded => self.last_activity@,
            ProjectStatus::Syncing => "backing up…"@,
            ProjectStatus::OutOfSync(SyncDirection::LocalAhead) => "changes waiting · "@
                + self.last_activity@,
            ProjectStatus::OutOfSync(SyncDirection::UpstreamAhead) =>
                "a newer provider version is available"@,
            ProjectStatus::Conflicted => "conflict · needs you"@,
        }
    }

    pub fn list_status(&self) -> (r: String)
        ensures
            r@ == self.list_status_text(),
    {
        match self.status {
            ProjectStatus::NeverBackedUp => "only on this computer".to_owned(),
            ProjectStatus::NotDownloaded => "stored with your provider".to_owned(),
            ProjectStatus::Downloaded => self.last_activity.clone(),
            ProjectStatus::Syncing => "backing up…".to_owned(),
            ProjectStatus::OutOfSync(SyncDirection::LocalAhead) => prefixed(
                "changes waiting · ",
                self.last_activity.as_str(),
            ),
            ProjectStatus::OutOfSync(SyncDirection::UpstreamAhead) =>
                "a newer provider version is available".to_owned(),
            ProjectStatus::Conflicted => "conflict · needs you".to_owned(),
        }
    }

    pub open spec fn headline_text(self) -> Seq<char> {
        match self.status {
            ProjectStatus::NeverBackedUp => "This project exists only on this computer."@,
            ProjectStatus::NotDownloaded =>
                "A safe copy lives with your provider — it isn't on this computer."@,
            ProjectStatus::Downloaded => "Backed up and verified. Safe to unplug."@,
            ProjectStatus::Syncing => "Copying and verifying this project now."@,
            ProjectStatus::OutOfSync(SyncDirection::LocalAhead) =>
                "Changes on this computer aren't backed up."@,
            ProjectStatus::OutOfSync(SyncDirection::UpstreamAhead) =>
                "A newer version was saved from another computer."@,
            ProjectStatus::Conflicted => "This computer and the provider have different edits."@,
        }
    }

    pub fn status_headline(&self) -> (r: &'static str)
        ensures
            r@ == self.headline_text(),
    {
        match self.status {
            ProjectStatus::NeverBackedUp => "This project exists only on this computer.",
            ProjectStatus::NotDownloaded =>
                "A safe copy lives with your provider — it isn't on this computer.",
            ProjectStatus::Downloaded => "Backed up and verified. Safe to unplug.",
            ProjectStatus::Syncing => "Copying and verifying this project now.",
            ProjectStatus::OutOfSync(SyncDirection::LocalAhead) =>
                "Changes on this computer aren't backed up.",
            ProjectStatus::OutOfSync(SyncDirection::UpstreamAhead) =>
                "A newer version was saved from another computer.",
            ProjectStatus::Conflicted => "This computer and the provider have different edits.",
        }
    }

    pub open spec fn explanation_text(self) -> Seq<char> {
        match self.status {
            ProjectStatus::NeverBackedUp => "If this computer is lost or stolen, so is this work."@,
            ProjectStatus::NotDownloaded => if self.size@.len() == 0 {
                "Restore it beneath a library root on this computer."@
            } else {
                "Restore it beneath a library root on this computer ("@ + self.size@ + ")."@
            },
            ProjectStatus::Downloaded => "Every file was verified on Auru Cloud."@,
            ProjectStatus::Syncing =>
                "You can keep working. Auru PM will verify every file when it finishes."@,
            ProjectStatus::OutOfSync(SyncDirection::LocalAhead) =>
                "If this laptop is lost now, these edits go with it."@,
            ProjectStatus::OutOfSync(SyncDirection::UpstreamAhead) =>
                "This computer has yesterday's copy — download before you edit."@,
            ProjectStatus::Conflicted =>
                "Nothing is lost. Compare both versions and choose what to keep."@,
        }
    }

    pub fn status_explanation(&self) -> (r: String)
        ensures
            r@ == self.explanation_text(),
    {
        match self.status {
            ProjectStatus::NeverBackedUp =>
                "If this computer is lost or stolen, so is this work.".to_owned(),
            ProjectStatus::NotDownloaded => {
                if self.size.as_str().is_empty() {
                    "Restore it beneath a library root on this computer.".to_owned()
                } else {
                    let mut out = prefixed(
                        "Restore it beneath a library root on this computer (",
                        self.size.as_str(),
                    );
                    out.append(").");
                    out
                }
            },
            ProjectStatus::Downloaded => "Every file was verified on Auru Cloud.".to_owned(),
            ProjectStatus::Syncing =>
                "You can keep working. Auru PM will verify every file when it finishes.".to_owned(),
            ProjectStatus::OutOfSync(SyncDirection::LocalAhead) =>
                "If this laptop is lost now, these edits go with it.".to_owned(),
            ProjectStatus::OutOfSync(SyncDirection::UpstreamAhead) =>
                "This computer has yesterday's copy — download before you edit.".to_owned(),
            ProjectStatus::Conflicted =>
                "Nothing is lost. Compare both versions and choose what to keep.".to_owned(),
        }
    }

    /// Mark the project as being transferred, where its action is a transfer.
    pub fn begin_transfer(&mut self) -> (r: bool)
        ensures
            r == old(self).status.next_action().transfers(),
            !r ==> *final(self) == *old(self),
            r ==> final(self).last_activity@ == "started just now"@ && *final(self) == (Project {
                status: ProjectStatus::Syncing,
                sync_progress: 0,
                last_activity: final(self).last_activity,
                ..*old(self)
            }),
    {
        if !self.status.action().starts_transfer() {
            return false;
        }
        self.status = ProjectStatus::Syncing;
        self.sync_progress = 0;
        self.last_activity = "started just now".to_owned();
        true
    }

    /// Whether `after` is `self` with a history applied to it.
    pub open spec fn has_history_applied(
        self,
        after: Project,
        history: Seq<CommitSummary>,
        files: LocalFiles,
        now: Moment,
    ) -> bool {
        let head = newest(history);
        &&& after.status == reconciled(self.status, files_if(self.live_set, files), head)
        &&& ref_view(after.remote) == (match (ref_view(self.remote), head) {
            (Some((provider_id, handle, _)), Some(head)) => Some((provider_id, handle, head)),
            (remote, _) => remote,
        })
        &&& shows_history(after.versions@, history, now)
        &&& after.safe_version@ == (if history.len() > 0 {
            epoch_text(history[0].timestamp, now)
        } else {
            self.safe_version@
        })
        &&& after == (Project {
            status: after.status,
            remote: after.remote,
            versions: after.versions,
            safe_version: after.safe_version,
            ..self
        })
    }

    /// Mark a transfer as done and take over the provider's history.
    pub fn finish_transfer(&mut self, history: Vec<CommitSummary>, files: &LocalFiles, now: Moment)
        ensures
            !(old(self).status is Syncing) ==> *final(self) == *old(self),
            old(self).status is Syncing ==> {
                &&& final(self).last_activity@ == "backed up · just now"@
                &&& (Project {
                    status: ProjectStatus::Downloaded,
                    sync_progress: 100,
                    last_activity: final(self).last_activity,
                    backed_up_at: Some(now),
                    ..*old(self)
                }).has_history_applied(*final(self), history@, *files, now)
            },
    {
        if self.status == ProjectStatus::Syncing {
            self.status = ProjectStatus::Downloaded;
            self.sync_progress = 100;
            self.last_activity = "backed up · just now".to_owned();
            self.backed_up_at = Some(now);
            self.apply_history(history, files, now);
        }
    }

    /// Take a failed transfer back to what the files show.
    pub fn fail_transfer(&mut self, files: &LocalFiles)
        ensures
            !(old(self).status is Syncing) ==> *final(self) == *old(self),
            old(self).status is Syncing ==> *final(self) == (Project {
                status: if old(self).live_set is Some {
                    files.disk_status()
                } else {
                    ProjectStatus::OutOfSync(SyncDirection::LocalAhead)
                },
                sync_progress: 0,
                ..*old(self)
            }),
    {
        if self.status != ProjectStatus::Syncing {
            return;
        }
        self.status = if self.live_set.is_some() {
            files.status()
        } else {
            ProjectStatus::OutOfSync(SyncDirection::LocalAhead)
        };
        self.sync_progress = 0;
    }

    /// Take over the provider's history, newest version first.
    pub fn apply_history(&mut self, history: Vec<CommitSummary>, files: &LocalFiles, now: Moment)
        ensures
            old(self).has_history_applied(*final(self), history@, *files, now),
    {
        let head = if history.len() > 0 {
            Some(history[0].id.clone())
        } else {
            None
        };
        assert(commit_view(head) == newest(history@));
        self.reconcile_remote_head(&head, files);
        match (head, self.remote.take()) {
            (Some(head), Some(remote)) => {
                self.remote = Some(
                    RemoteProjectRef { provider_id: remote.provider_id, handle: remote.handle, head },
                );
            },
            (_, remote) => {
                self.remote = remote;
            },
        }
        self.versions = version_rows(&history, now);
        if self.versions.len() > 0 {
            self.safe_version = self.versions[0].created_at.clone();
        }
    }

    fn reconcile_remote_head(&mut self, remote_head: &Option<CommitId>, files: &LocalFiles)
        ensures
            *final(self) == (Project {
                status: reconciled(
                    old(self).status,
                    files_if(old(self).live_set, *files),
                    commit_view(*remote_head),
                ),
                ..*old(self)
            }),
    {
        if self.live_set.is_none() {
            return;
        }
        let local_head = match &files.sidecar {
            None => {
                return;
            },
            Some(sidecar) => &sidecar.local_head,
        };
        if remote_head.is_none() || same_commit(remote_head, local_head) {
            return;
        }
        self.status = if files.status() == ProjectStatus::OutOfSync(SyncDirection::LocalAhead) {
            ProjectStatus::Conflicted
        } else {
            ProjectStatus::OutOfSync(SyncDirection::UpstreamAhead)
        };
    }

    /// How full the row's backup bar is, in percent: a transfer fills as it
    /// copies, a project only the provider has reads empty, and the rest full.
    pub open spec fn bar(self) -> u8 {
        match self.status {
            ProjectStatus::Syncing => self.sync_progress,
            ProjectStatus::NotDownloaded => 0,
            _ => 100,
        }
    }

    pub fn backup_progress(&self) -> (r: u8)
        ensures
            r == self.bar(),
    {
        match self.status {
            ProjectStatus::Syncing => self.sync_progress,
            ProjectStatus::NotDownloaded => 0,
            _ => 100,
        }
    }

    /// Whether the bar is drawn at full strength: for work in flight and for
    /// anything a person has to decide about.
    pub fn backup_bar_is_prominent(&self) -> (r: bool)
        ensures
            r == (self.status is Syncing || self.status.wants_attention()),
    {
        self.status == ProjectStatus::Syncing || self.status.needs_attention()
    }

    pub open spec fn path_text(self) -> Seq<char> {
        match (self.status, self.location) {
            (ProjectStatus::NotDownloaded, None) => "Not on this computer"@,
            (ProjectStatus::NotDownloaded, Some(location)) => "Restore location · "@
                + location.relative_path@,
            (_, None) => self.local_path@,
            (_, Some(location)) => self.local_path@ + " · Library path · "@
                + location.relative_path@,
        }
    }

    pub fn displayed_path(&self) -> (r: String)
        ensures
            r@ == self.path_text(),
    {
        match (self.status, &self.location) {
            (ProjectStatus::NotDownloaded, None) => "Not on this computer".to_owned(),
            (ProjectStatus::NotDownloaded, Some(location)) => prefixed(
                "Restore location · ",
                location.relative_path.as_str(),
            ),
            (_, None) => self.local_path.clone(),
            (_, Some(location)) => {
                let mut out = prefixed(self.local_path.as_str(), " · Library path · ");
                out.append(location.relative_path.as_str());
                out
            },
        }
    }
}

} // verus!
