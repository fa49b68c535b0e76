//! The open project: its labels, its history and its detail, and the filters
//! over the list.
use vstd::prelude::*;

use crate::backup::ProjectProfile;
use crate::badge_input::{badge_values, segments};
use crate::catalog::{same_listing, ProviderListing};
use crate::detail::BpmFilter;
use crate::filters::{commit_bpm_range_inputs, extend_unique_metadata_values, supported, with_labels,
    BpmFilterMode, BpmRange, MetadataBadgeField, DEFAULT_EXACT_BPM};
use crate::format::{copy_location, genres_of, CommitSummary, MetadataView, ProjectMetadata};
use crate::library::{are_options, find_project, has_project, library_filter_options, project_index};
use crate::manager::ProjectManager;
use crate::moment::Moment;
use crate::notice::{joined2, says, Notice, NoticeLevel};
use crate::project::{LoadedDetail, LocalFiles, Project};
use crate::recovery::history_provider;
use crate::text::{copy_optional, copy_texts, join, joined, optional_view, same, values_of, views};
use crate::transfers::own_provider;

verus! {

// ---------------------------------------------------------------------------
// Labels
// ---------------------------------------------------------------------------

/// A list of labels with those that are typed but not committed yet.
pub open spec fn drafted(values: Seq<Seq<char>>, typed: Seq<char>) -> Seq<Seq<char>> {
    with_labels(values, values_of(segments(typed)))
}

/// Labels as they are stored: the genres as one text, the tags as a list.
pub open spec fn stored(genres: Seq<Seq<char>>, tags: Seq<Seq<char>>) -> MetadataView {
    (
        if genres.len() == 0 {
            None
        } else {
            Some(joined(genres, ", "@))
        },
        tags,
    )
}

fn draft(values: &Vec<String>, typed: &str) -> (r: Vec<String>)
    ensures
        views(r@) == drafted(views(values@), typed@),
{
    let mut out = copy_texts(values);
    extend_unique_metadata_values(&mut out, &badge_values(typed));
    out
}

fn store(genres: Vec<String>, tags: Vec<String>) -> (r: ProjectMetadata)
    ensures
        r@ == stored(views(genres@), views(tags@)),
{
    assert(views(genres@).len() == genres@.len());
    let genre = if genres.len() == 0 {
        None
    } else {
        Some(join(&genres, ", "))
    };
    ProjectMetadata { genre, tags }
}

/// What is typed into the two fields for labels.
#[derive(Debug)]
pub struct TypedLabels {
    pub genre: String,
    pub tags: String,
}

/// Labels to save.
#[derive(Debug)]
pub struct MetadataJob {
    pub project_id: String,
    pub project_name: String,
    /// The project file, where it is on this computer.
    pub project_path: Option<String>,
    /// The provider that knows the project, as it is listed, and the project's
    /// handle there.
    pub target: Option<(ProviderListing, String)>,
    pub profile: ProjectProfile,
}

/// What asking to save labels came to.
#[derive(Debug)]
pub enum MetadataOutcome {
    Nothing,
    Refused(Notice),
    Save(MetadataJob),
}

/// What to do with the fields for labels, and what saving came to.
#[derive(Debug)]
pub struct MetadataStep {
    pub clear_genre: bool,
    pub clear_tags: bool,
    pub outcome: MetadataOutcome,
}

/// The place of the provider whose row a project is.
pub open spec fn row_provider(providers: Seq<ProviderListing>, project: Project) -> Option<int> {
    match project.remote {
        Some(remote) => own_provider(providers, Some(remote.provider_id@)),
        None => None,
    }
}

/// Whether `after` is a library in which a project has other labels.
pub open spec fn labels_one(
    before: Seq<Project>,
    after: Seq<Project>,
    id: Seq<char>,
    labels: MetadataView,
) -> bool {
    if has_project(before, id) {
        let at = project_index(before, id);
        &&& after == before.update(at, after[at])
        &&& after[at] == (Project { metadata: after[at].metadata, ..before[at] })
        &&& after[at].metadata@ == labels
    } else {
        after == before
    }
}

fn set_labels(projects: &mut Vec<Project>, id: &str, metadata: &ProjectMetadata)
    ensures
        labels_one(old(projects)@, final(projects)@, id@, metadata@),
{
    if let Some(at) = find_project(projects, id) {
        projects[at].metadata = metadata.clone();
    }
}

impl ProjectManager {
    /// The labels as they are edited.
    pub open spec fn draft_view(self, typed: TypedLabels) -> MetadataView {
        stored(
            drafted(views(self.genre_values@), typed.genre@),
            drafted(views(self.tag_values@), typed.tags@),
        )
    }

    /// The labels as they are edited.
    pub fn metadata_from_inputs(&self, typed: &TypedLabels) -> (r: ProjectMetadata)
        ensures
            r@ == self.draft_view(*typed),
    {
        store(
            draft(&self.genre_values, typed.genre.as_str()),
            draft(&self.tag_values, typed.tags.as_str()),
        )
    }

    /// Add labels to the edit.
    pub fn add_metadata_badges(&mut self, field: MetadataBadgeField, values: &Vec<String>)
        ensures
            match field {
                MetadataBadgeField::Genre => {
                    &&& *final(self) == (ProjectManager {
                        genre_values: final(self).genre_values,
                        ..*old(self)
                    })
                    &&& views(final(self).genre_values@) == with_labels(
                        views(old(self).genre_values@),
                        views(values@),
                    )
                },
                MetadataBadgeField::Tag => {
                    &&& *final(self) == (ProjectManager {
                        tag_values: final(self).tag_values,
                        ..*old(self)
                    })
                    &&& views(final(self).tag_values@) == with_labels(
                        views(old(self).tag_values@),
                        views(values@),
                    )
                },
            },
    {
        match field {
            MetadataBadgeField::Genre => {
                extend_unique_metadata_values(&mut self.genre_values, values);
            },
            MetadataBadgeField::Tag => {
                extend_unique_metadata_values(&mut self.tag_values, values);
            },
        }
    }

    /// Add what is typed to the edit. Says whether there was anything, and the
    /// field is to be emptied.
    pub fn commit_pending_metadata_input(&mut self, field: MetadataBadgeField, typed: &str) -> (r: bool)
        ensures
            r == (values_of(segments(typed@)).len() > 0),
            match field {
                MetadataBadgeField::Genre => {
                    &&& *final(self) == (ProjectManager {
                        genre_values: final(self).genre_values,
                        ..*old(self)
                    })
                    &&& views(final(self).genre_values@) == drafted(
                        views(old(self).genre_values@),
                        typed@,
                    )
                },
                MetadataBadgeField::Tag => {
                    &&& *final(self) == (ProjectManager {
                        tag_values: final(self).tag_values,
                        ..*old(self)
                    })
                    &&& views(final(self).tag_values@) == drafted(
                        views(old(self).tag_values@),
                        typed@,
                    )
                },
            },
    {
        let values = badge_values(typed);
        assert(views(values@).len() == values@.len());
        if values.len() == 0 {
            return false;
        }
        self.add_metadata_badges(field, &values);
        true
    }

    /// Take a label out of the edit.
    pub fn remove_metadata_badge(&mut self, field: MetadataBadgeField, index: usize)
        ensures
            match field {
                MetadataBadgeField::Genre => if index < old(self).genre_values@.len() {
                    &&& *final(self) == (ProjectManager {
                        genre_values: final(self).genre_values,
                        ..*old(self)
                    })
                    &&& final(self).genre_values@ == old(self).genre_values@.remove(index as int)
                } else {
                    *final(self) == *old(self)
                },
                MetadataBadgeField::Tag => if index < old(self).tag_values@.len() {
                    &&& *final(self) == (ProjectManager {
                        tag_values: final(self).tag_values,
                        ..*old(self)
                    })
                    &&& final(self).tag_values@ == old(self).tag_values@.remove(index as int)
                } else {
                    *final(self) == *old(self)
                },
            },
    {
        match field {
            MetadataBadgeField::Genre => {
                if index < self.genre_values.len() {
                    let _ = self.genre_values.remove(index);
                }
            },
            MetadataBadgeField::Tag => {
                if index < self.tag_values.len() {
                    let _ = self.tag_values.remove(index);
                }
            },
        }
    }

    /// Whether the edit is to be taken from the selected project anew: another
    /// project was selected, or its labels changed while nothing was edited.
    pub open spec fn edit_is_stale(self, typed: TypedLabels) -> bool {
        let project = self.projects@[self.selected_project as int];
        let another = optional_view(self.metadata_input_project_id) != Some(project.id@);
        let clean = self.draft_view(typed) == self.metadata_input_baseline@;
        self.selected_project < self.projects@.len() && (another || (clean && project.metadata@
            != self.metadata_input_baseline@))
    }

    /// Keep the edit with the selected project, without overwriting an edit in
    /// progress. Says whether the fields are to be emptied.
    pub fn sync_metadata_inputs(&mut self, typed: &TypedLabels) -> (r: bool)
        ensures
            r == old(self).edit_is_stale(*typed),
            !r ==> *final(self) == *old(self),
            r ==> old(self).edits_anew(*final(self)),
    {
        if self.selected_project >= self.projects.len() {
            return false;
        }
        let project = &self.projects[self.selected_project];
        let another = match &self.metadata_input_project_id {
            Some(id) => !same(id.as_str(), project.id.as_str()),
            None => true,
        };
        let clean = self.metadata_from_inputs(typed).same(&self.metadata_input_baseline);
        if !another && (!clean || project.metadata.same(&self.metadata_input_baseline)) {
            return false;
        }
        let id = project.id.clone();
        let metadata = project.metadata.clone();
        self.genre_values = metadata.genres();
        self.tag_values = copy_texts(&metadata.tags);
        self.metadata_input_project_id = Some(id);
        self.metadata_input_baseline = metadata;
        true
    }

    /// Whether `after` is the manager whose edit starts from the selected
    /// project.
    pub open spec fn edits_anew(self, after: ProjectManager) -> bool {
        let project = self.projects@[self.selected_project as int];
        &&& after == (ProjectManager {
            genre_values: after.genre_values,
            tag_values: after.tag_values,
            metadata_input_project_id: after.metadata_input_project_id,
            metadata_input_baseline: after.metadata_input_baseline,
            ..self
        })
        &&& views(after.genre_values@) == genres_of(project.metadata@)
        &&& views(after.tag_values@) == project.metadata@.1
        &&& optional_view(after.metadata_input_project_id) == Some(project.id@)
        &&& after.metadata_input_baseline@ == project.metadata@
    }

    /// Whether `outcome` is what saving the edit of a project comes to, where
    /// `committed` is the manager in which everything typed is committed.
    pub open spec fn saves_labels(
        self,
        committed: ProjectManager,
        index: int,
        after: ProjectManager,
        outcome: MetadataOutcome,
    ) -> bool {
        let labels = stored(views(committed.genre_values@), views(committed.tag_values@));
        if index >= self.projects@.len() {
            after == committed && outcome is Nothing
        } else {
            let project = self.projects@[index];
            let provider = row_provider(self.providers@, project);
            if labels == project.metadata@ || optional_view(self.metadata_saving) == Some(
                project.id@,
            ) {
                after == committed && outcome is Nothing
            } else if project.live_set is None && provider is None {
                &&& after == committed
                &&& outcome matches MetadataOutcome::Refused(notice)
                &&& notice@ == says(
                    NoticeLevel::Error,
                    "Can't save project metadata"@,
                    "Reconnect this project's provider and try again."@,
                )
            } else {
                &&& outcome matches MetadataOutcome::Save(job)
                &&& job.project_id@ == project.id@
                &&& job.project_name@ == project.name@
                &&& optional_view(job.project_path) == optional_view(project.live_set)
                &&& match provider {
                    Some(at) => job.target matches Some((listing, handle)) && same_listing(
                        listing,
                        self.providers@[at],
                    ) && handle@ == project.remote->0.handle@,
                    None => job.target is None,
                }
                &&& job.profile.display_name@ == project.name@
                &&& job.profile.format == project.format
                &&& job.profile.metadata@ == labels
                &&& job.profile.location == project.location
                &&& after == (ProjectManager { metadata_saving: after.metadata_saving, ..committed })
                &&& optional_view(after.metadata_saving) == Some(project.id@)
            }
        }
    }

    fn save_committed(&mut self, index: usize) -> (r: MetadataOutcome)
        ensures
            old(self).saves_labels(*old(self), index as int, *final(self), r),
    {
        if index >= self.projects.len() {
            return MetadataOutcome::Nothing;
        }
        let project = &self.projects[index];
        let metadata = store(copy_texts(&self.genre_values), copy_texts(&self.tag_values));
        let saving = match &self.metadata_saving {
            Some(id) => same(id.as_str(), project.id.as_str()),
            None => false,
        };
        if metadata.same(&project.metadata) || saving {
            return MetadataOutcome::Nothing;
        }
        let target = match &project.remote {
            Some(remote) => match crate::catalog::find_provider(
                &self.providers,
                remote.provider_id.as_str(),
            ) {
                Some(at) => Some((self.providers[at].clone(), remote.handle.clone())),
                None => None,
            },
            None => None,
        };
        if project.live_set.is_none() && target.is_none() {
            return MetadataOutcome::Refused(
                Notice::error(
                    "Can't save project metadata",
                    "Reconnect this project's provider and try again.",
                ),
            );
        }
        let job = MetadataJob {
            project_id: project.id.clone(),
            project_name: project.name.clone(),
            project_path: copy_optional(&project.live_set),
            target,
            profile: ProjectProfile {
                display_name: project.name.clone(),
                format: project.format,
                metadata,
                location: copy_location(&project.location),
            },
        };
        self.metadata_saving = Some(project.id.clone());
        MetadataOutcome::Save(job)
    }

    /// Ask to save the edit of a project: what is typed is committed first.
    pub fn save_project_metadata(&mut self, index: usize, typed: &TypedLabels) -> (r: MetadataStep)
        ensures
            r.clear_genre == (values_of(segments(typed.genre@)).len() > 0),
            r.clear_tags == (values_of(segments(typed.tags@)).len() > 0),
            views(final(self).genre_values@) == drafted(views(old(self).genre_values@), typed.genre@),
            views(final(self).tag_values@) == drafted(views(old(self).tag_values@), typed.tags@),
            old(self).saves_labels(
                ProjectManager {
                    genre_values: final(self).genre_values,
                    tag_values: final(self).tag_values,
                    ..*old(self)
                },
                index as int,
                *final(self),
                r.outcome,
            ),
    {
        let clear_genre = self.commit_pending_metadata_input(
            MetadataBadgeField::Genre,
            typed.genre.as_str(),
        );
        let clear_tags = self.commit_pending_metadata_input(
            MetadataBadgeField::Tag,
            typed.tags.as_str(),
        );
        let outcome = self.save_committed(index);
        MetadataStep { clear_genre, clear_tags, outcome }
    }

    /// Whether `after` and `said` are what follows once labels were saved, or could not
    /// be.
    pub open spec fn keeps_labels(
        self,
        project_id: Seq<char>,
        project_name: Seq<char>,
        metadata: ProjectMetadata,
        result: Result<(), String>,
        after: ProjectManager,
        said: crate::notice::NoticeView,
    ) -> bool {
        match result {
            Err(message) => {
                &&& after == (ProjectManager { metadata_saving: None, ..self })
                &&& said == says(NoticeLevel::Error, "Couldn't save project metadata"@, message@)
            },
            Ok(_) => {
                &&& after == (ProjectManager {
                    projects: after.projects,
                    metadata_saving: None,
                    metadata_input_baseline: metadata,
                    ..self
                })
                &&& labels_one(
                    self.projects@,
                    after.projects@,
                    project_id,
                    metadata@,
                )
                &&& said == says(
                    NoticeLevel::Success,
                    project_name + " metadata saved"@,
                    "Genre and tags are up to date."@,
                )
            },
        }
    }

    /// Take over how saving labels ended.
    pub fn metadata_saved(
        &mut self,
        project_id: &str,
        project_name: &str,
        metadata: ProjectMetadata,
        result: Result<(), String>,
    ) -> (r: Notice)
        ensures
            old(self).keeps_labels(project_id@, project_name@, metadata, result, *final(self), r@),
    {
        self.metadata_saving = None;
        match result {
            Err(message) => Notice::error("Couldn't save project metadata", message.as_str()),
            Ok(()) => {
                set_labels(&mut self.projects, project_id, &metadata);
                self.metadata_input_baseline = metadata;
                Notice::success(
                    joined2(project_name, " metadata saved").as_str(),
                    "Genre and tags are up to date.",
                )
            },
        }
    }
}

// ---------------------------------------------------------------------------
// History and detail
// ---------------------------------------------------------------------------

/// Whose history is read.
#[derive(Debug, PartialEq, Eq)]
pub enum HistorySource {
    /// That of the working copy at this path.
    Working(String),
    /// That of a provider's project by its handle.
    Remote(String),
}

/// A history to read.
#[derive(Debug)]
pub struct HistoryRead {
    pub project_id: String,
    /// The provider, as it is listed.
    pub listing: ProviderListing,
    pub source: HistorySource,
}

/// A project file to read.
#[derive(Debug)]
pub struct DetailRead {
    pub project_id: String,
    pub path: String,
}

/// What to do once a project was selected.
#[derive(Debug)]
pub struct SelectStep {
    pub clear_inputs: bool,
    pub history: Option<HistoryRead>,
    pub detail: Option<DetailRead>,
}

impl ProjectManager {
    /// Whether `read` is the history to read for a project: none where it is
    /// known, or where no provider has it.
    pub open spec fn reads_history(
        self,
        index: int,
        primary: Option<Seq<char>>,
        read: Option<HistoryRead>,
    ) -> bool {
        if index >= self.projects@.len() || self.projects@[index].versions@.len() > 0 {
            read is None
        } else {
            let project = self.projects@[index];
            match history_provider(self.providers@, project, primary) {
                None => read is None,
                Some(provider) => {
                    &&& read is Some
                    &&& read->0.project_id@ == project.id@
                    &&& same_listing(read->0.listing, self.providers@[provider])
                    &&& match project.live_set {
                        Some(path) => read->0.source matches HistorySource::Working(working)
                            && working@ == path@,
                        None => read->0.source matches HistorySource::Remote(handle) && handle@
                            == project.remote->0.handle@,
                    }
                },
            }
        }
    }

    /// The history to read for a project.
    pub fn load_project_history(&self, index: usize, primary: &Option<String>) -> (r: Option<HistoryRead>)
        ensures
            self.reads_history(index as int, optional_view(*primary), r),
    {
        if index >= self.projects.len() || self.projects[index].versions.len() > 0 {
            return None;
        }
        let project = &self.projects[index];
        let provider: usize = match self.history_provider_for(project, primary) {
            Some(provider) => provider,
            None => {
                return None;
            },
        };
        let source = match (&project.live_set, &project.remote) {
            (Some(path), _) => HistorySource::Working(path.clone()),
            (None, Some(remote)) => HistorySource::Remote(remote.handle.clone()),
            (None, None) => {
                return None;
            },
        };
        Some(
            HistoryRead {
                project_id: project.id.clone(),
                listing: self.providers[provider].clone(),
                source,
            },
        )
    }

    /// Take over a history that was read.
    pub fn history_loaded(
        &mut self,
        project_id: &str,
        history: Vec<CommitSummary>,
        files: &LocalFiles,
        now: Moment,
    )
        ensures
            *final(self) == (ProjectManager { projects: final(self).projects, ..*old(self) }),
            ({
                let at = project_index(old(self).projects@, project_id@);
                if has_project(old(self).projects@, project_id@) {
                    &&& final(self).projects@ == old(self).projects@.update(
                        at,
                        final(self).projects@[at],
                    )
                    &&& old(self).projects@[at].has_history_applied(
                        final(self).projects@[at],
                        history@,
                        *files,
                        now,
                    )
                } else {
                    final(self).projects@ == old(self).projects@
                }
            }),
    {
        if let Some(at) = find_project(&self.projects, project_id) {
            self.projects[at].apply_history(history, files, now);
        }
    }

    /// Take over what reading a project file turned up. The project is found by
    /// its id: the list may have moved meanwhile.
    pub fn detail_loaded(&mut self, project_id: &str, loaded: LoadedDetail)
        ensures
            *final(self) == (ProjectManager { projects: final(self).projects, ..*old(self) }),
            final(self).projects@ == with_detail(old(self).projects@, project_id@, loaded),
    {
        if let Some(at) = find_project(&self.projects, project_id) {
            self.projects[at].apply_detail(loaded);
        }
    }

    /// Select a project: its labels can be edited, and what is not known of it
    /// yet is read.
    pub fn select_project(&mut self, index: usize, typed: &TypedLabels, primary: &Option<String>) -> (r:
        SelectStep)
        ensures
            ({
                let selected = ProjectManager { selected_project: index, ..*old(self) };
                &&& r.clear_inputs == selected.edit_is_stale(*typed)
                &&& !r.clear_inputs ==> *final(self) == selected
                &&& r.clear_inputs ==> selected.edits_anew(*final(self))
                &&& selected.reads_history(index as int, optional_view(*primary), r.history)
                &&& if index < old(self).projects@.len() && old(self).projects@[index as int].detail
                    is None && old(self).projects@[index as int].live_set is Some {
                    &&& r.detail is Some
                    &&& r.detail->0.project_id@ == old(self).projects@[index as int].id@
                    &&& r.detail->0.path@ == old(self).projects@[index as int].live_set->0@
                } else {
                    r.detail is None
                }
            }),
    {
        self.selected_project = index;
        let clear_inputs = self.sync_metadata_inputs(typed);
        let history = self.load_project_history(index, primary);
        let mut detail: Option<DetailRead> = None;
        if index < self.projects.len() && self.projects[index].detail.is_none() {
            if let Some(path) = &self.projects[index].live_set {
                detail = Some(
                    DetailRead {
                        project_id: self.projects[index].id.clone(),
                        path: path.clone(),
                    },
                );
            }
        }
        SelectStep { clear_inputs, history, detail }
    }
}

/// A library in which a project was read.
pub open spec fn with_detail(projects: Seq<Project>, id: Seq<char>, loaded: LoadedDetail) -> Seq<Project> {
    if has_project(projects, id) {
        let at = project_index(projects, id);
        projects.update(
            at,
            Project {
                size: loaded.size,
                local_inventory: loaded.inventory,
                detail: loaded.detail,
                missing_plugins: loaded.missing_plugins,
                ..projects[at]
            },
        )
    } else {
        projects
    }
}

// ---------------------------------------------------------------------------
// Filters
// ---------------------------------------------------------------------------

/// The files to read before projects can be filtered by tempo: of each project
/// that was not read, its id and its file.
pub open spec fn unread(projects: Seq<Project>) -> Seq<(Seq<char>, Seq<char>)>
    decreases projects.len(),
{
    if projects.len() == 0 {
        Seq::empty()
    } else {
        let before = unread(projects.drop_last());
        match (projects.last().detail, projects.last().live_set) {
            (None, Some(path)) => before.push((projects.last().id@, path@)),
            _ => before,
        }
    }
}

/// Files to read, by their texts.
pub open spec fn detail_reads(reads: Seq<DetailRead>) -> Seq<(Seq<char>, Seq<char>)> {
    reads.map_values(|read: DetailRead| (read.project_id@, read.path@))
}

/// What was read of a project.
#[derive(Debug)]
pub struct ReadDetail {
    pub project_id: String,
    pub detail: LoadedDetail,
}

/// A library in which projects were read, one by one.
pub open spec fn with_details(projects: Seq<Project>, reads: Seq<ReadDetail>) -> Seq<Project>
    decreases reads.len(),
{
    if reads.len() == 0 {
        projects
    } else {
        with_detail(
            with_details(projects, reads.drop_last()),
            reads.last().project_id@,
            reads.last().detail,
        )
    }
}

impl ProjectManager {
    /// The genres and tags to offer, where they changed. Says whether they did.
    pub fn sync_library_filter_options(&mut self) -> (r: bool)
        ensures
            *final(self) == (ProjectManager {
                filter_options: final(self).filter_options,
                ..*old(self)
            }),
            !r ==> *final(self) == *old(self),
            r ==> are_options(final(self).filter_options, old(self).projects@),
            !r ==> exists|options: crate::library::LibraryFilterOptions|
                #[trigger] are_options(options, old(self).projects@) && views(options.genres@)
                    == views(old(self).filter_options.genres@) && views(options.tags@) == views(
                    old(self).filter_options.tags@,
                ),
            r ==> views(final(self).filter_options.genres@) != views(
                old(self).filter_options.genres@,
            ) || views(final(self).filter_options.tags@) != views(old(self).filter_options.tags@),
    {
        let options = library_filter_options(&self.projects);
        if crate::text::same_lists(&options.genres, &self.filter_options.genres)
            && crate::text::same_lists(&options.tags, &self.filter_options.tags) {
            assert(are_options(options, self.projects@));
            return false;
        }
        self.filter_options = options;
        true
    }

    /// The tempo filter that the sliders are set to.
    pub open spec fn chosen_bpm(self) -> BpmFilter {
        match self.bpm_filter_mode {
            BpmFilterMode::Range => BpmFilter::Range {
                min: self.bpm_range.min,
                max: self.bpm_range.max,
            },
            BpmFilterMode::Exact => BpmFilter::Exact(self.bpm_exact),
        }
    }

    /// Filter by tempo; a range takes what is typed for its ends. Gives the
    /// files to read before the filter can tell.
    pub fn apply_bpm_filter(&mut self, min: Option<u16>, max: Option<u16>) -> (r: Vec<DetailRead>)
        requires
            old(self).bpm_range.wf(),
        ensures
            final(self).bpm_range.wf(),
            old(self).bpm_filter_mode is Exact ==> final(self).bpm_range == old(self).bpm_range,
            old(self).bpm_filter_mode is Range ==> {
                let a = if min is Some { supported(min->0) } else { old(self).bpm_range.min };
                let b = if max is Some { supported(max->0) } else { old(self).bpm_range.max };
                final(self).bpm_range == (BpmRange {
                    min: if a <= b { a } else { b },
                    max: if a <= b { b } else { a },
                })
            },
            ({
                let set = ProjectManager {
                    bpm_range: final(self).bpm_range,
                    bpm_popover_open: false,
                    ..*old(self)
                };
                (ProjectManager { bpm_filter: Some(set.chosen_bpm()), ..set }).loads_missing(
                    *final(self),
                    detail_reads(r@),
                )
            }),
    {
        if self.bpm_filter_mode == BpmFilterMode::Range {
            self.bpm_range = commit_bpm_range_inputs(self.bpm_range, min, max);
        }
        let filter = match self.bpm_filter_mode {
            BpmFilterMode::Range => BpmFilter::Range {
                min: self.bpm_range.min,
                max: self.bpm_range.max,
            },
            BpmFilterMode::Exact => BpmFilter::Exact(self.bpm_exact),
        };
        self.bpm_filter = Some(filter);
        self.bpm_popover_open = false;
        self.load_missing_bpm_details()
    }

    /// Filter by tempo no longer, and put the sliders back.
    pub fn clear_bpm_filter(&mut self)
        ensures
            *final(self) == (ProjectManager {
                bpm_filter: None,
                bpm_popover_open: false,
                bpm_range: BpmRange { min: 1, max: 300 },
                bpm_exact: 120,
                ..*old(self)
            }),
            final(self).bpm_range.wf(),
    {
        self.bpm_filter = None;
        self.bpm_popover_open = false;
        self.bpm_range = BpmRange::full();
        self.bpm_exact = DEFAULT_EXACT_BPM;
    }

    /// Whether `after` is the manager that reads the projects whose tempo is
    /// not known, unless it does so already.
    pub open spec fn loads_missing(self, after: ProjectManager, reads: Seq<(Seq<char>, Seq<char>)>) -> bool {
        if self.bpm_filter_loading || unread(self.projects@).len() == 0 {
            after == self && reads.len() == 0
        } else {
            after == (ProjectManager { bpm_filter_loading: true, ..self }) && reads == unread(
                self.projects@,
            )
        }
    }

    /// Begin to read the projects whose tempo is not known.
    pub fn load_missing_bpm_details(&mut self) -> (r: Vec<DetailRead>)
        ensures
            old(self).loads_missing(*final(self), detail_reads(r@)),
    {
        let mut reads: Vec<DetailRead> = Vec::new();
        assert(detail_reads(reads@) =~= Seq::<(Seq<char>, Seq<char>)>::empty());
        if self.bpm_filter_loading {
            return reads;
        }
        let mut i: usize = 0;
        assert(self.projects@.take(0).len() == 0);
        while i < self.projects.len()
            invariant
                *self == *old(self),
                i <= self.projects@.len(),
                detail_reads(reads@) == unread(self.projects@.take(i as int)),
            decreases self.projects@.len() - i,
        {
            assert(self.projects@.take(i + 1).drop_last() =~= self.projects@.take(i as int));
            if self.projects[i].detail.is_none() {
                if let Some(path) = &self.projects[i].live_set {
                    let ghost before = detail_reads(reads@);
                    reads.push(
                        DetailRead {
                            project_id: self.projects[i].id.clone(),
                            path: path.clone(),
                        },
                    );
                    assert(detail_reads(reads@) =~= before.push(
                        (self.projects@[i as int].id@, path@),
                    ));
                }
            }
            i = i + 1;
        }
        assert(self.projects@.take(i as int) =~= self.projects@);
        assert(detail_reads(reads@).len() == reads@.len());
        if reads.len() > 0 {
            self.bpm_filter_loading = true;
        }
        reads
    }

    /// Take over the projects that were read for their tempo.
    pub fn missing_details_loaded(&mut self, reads: Vec<ReadDetail>)
        ensures
            *final(self) == (ProjectManager {
                projects: final(self).projects,
                bpm_filter_loading: false,
                ..*old(self)
            }),
            final(self).projects@ == with_details(old(self).projects@, reads@),
    {
        let ghost all = reads@;
        let ghost before = self.projects@;
        let mut rest = reads;
        let ghost mut done: int = 0;
        self.bpm_filter_loading = false;
        assert(all.skip(0) =~= all);
        assert(all.take(0).len() == 0);
        while rest.len() > 0
            invariant
                0 <= done,
                done + rest@.len() == all.len(),
                rest@ == all.skip(done),
                *self == (ProjectManager {
                    projects: self.projects,
                    bpm_filter_loading: false,
                    ..*old(self)
                }),
                before == old(self).projects@,
                self.projects@ == with_details(before, all.take(done)),
            decreases rest@.len(),
        {
            let ghost first = rest@[0];
            assert(first == all[done]);
            let read = rest.remove(0);
            assert(rest@ =~= all.skip(done + 1));
            assert(all.take(done + 1).drop_last() =~= all.take(done));
            assert(all.take(done + 1).last() == first);
            self.detail_loaded(read.project_id.as_str(), read.detail);
            proof {
                done = done + 1;
            }
        }
        assert(all.take(done) =~= all);
    }
}

} // verus!
