//! What kinds of projects there are, and the facts recorded beside them.
use vstd::prelude::*;

use crate::path::Platform;
use crate::text::{copy_optional, copy_texts, optional_view, pieces, same, same_lists, split, trimmed_texts,
    values_of, views, Class};
use crate::text_map::TextMap;

verus! {

/// The project formats Auru reads.
#[derive(Clone, Copy, Debug, PartialEq, Eq, Structural)]
pub enum ProjectFormat {
    AbletonLiveSet,
    BitwigProject,
    FlStudio,
    Dawproject,
    Auru,
}

impl ProjectFormat {
    pub open spec fn extension_text(self) -> Seq<char> {
        match self {
            ProjectFormat::AbletonLiveSet => "als"@,
            ProjectFormat::BitwigProject => "bwproject"@,
            ProjectFormat::FlStudio => "flp"@,
            ProjectFormat::Dawproject => "dawproject"@,
            ProjectFormat::Auru => "auru"@,
        }
    }

    /// The extension of the project file.
    pub fn extension(self) -> (r: &'static str)
        ensures
            r@ == self.extension_text(),
    {
        match self {
            ProjectFormat::AbletonLiveSet => "als",
            ProjectFormat::BitwigProject => "bwproject",
            ProjectFormat::FlStudio => "flp",
            ProjectFormat::Dawproject => "dawproject",
            ProjectFormat::Auru => "auru",
        }
    }
}

/// A kind of project that can be added from disk.
///
/// One per DAW, because the DAWs differ in what one points at: an Ableton
/// project is a folder, the others are single files.
#[derive(Clone, Copy, Debug, PartialEq, Eq, Structural)]
pub enum ImportKind {
    AbletonLiveSet,
    BitwigProject,
    FlStudio,
    Dawproject,
    AuruProject,
}

impl ImportKind {
    /// Every kind that can be added, in menu order.
    pub const ALL: [ImportKind; 5] = [
        ImportKind::AbletonLiveSet,
        ImportKind::BitwigProject,
        ImportKind::FlStudio,
        ImportKind::Dawproject,
        ImportKind::AuruProject,
    ];

    pub open spec fn label_text(self) -> Seq<char> {
        match self {
            ImportKind::AbletonLiveSet => "Ableton Live project…"@,
            ImportKind::BitwigProject => "Bitwig Studio project…"@,
            ImportKind::FlStudio => "FL Studio project…"@,
            ImportKind::Dawproject => "DAWproject file…"@,
            ImportKind::AuruProject => "Auru project…"@,
        }
    }

    pub fn label(self) -> (r: &'static str)
        ensures
            r@ == self.label_text(),
    {
        match self {
            ImportKind::AbletonLiveSet => "Ableton Live project…",
            ImportKind::BitwigProject => "Bitwig Studio project…",
            ImportKind::FlStudio => "FL Studio project…",
            ImportKind::Dawproject => "DAWproject file…",
            ImportKind::AuruProject => "Auru project…",
        }
    }

    pub open spec fn prompt_text(self) -> Seq<char> {
        match self {
            ImportKind::AbletonLiveSet => "Choose an Ableton project folder or .als"@,
            ImportKind::BitwigProject => "Choose a .bwproject"@,
            ImportKind::FlStudio => "Choose an .flp"@,
            ImportKind::Dawproject => "Choose a .dawproject file"@,
            ImportKind::AuruProject => "Choose an .auru file"@,
        }
    }

    /// What the file dialog should say it is looking for.
    pub fn prompt(self) -> (r: &'static str)
        ensures
            r@ == self.prompt_text(),
    {
        match self {
            ImportKind::AbletonLiveSet => "Choose an Ableton project folder or .als",
            ImportKind::BitwigProject => "Choose a .bwproject",
            ImportKind::FlStudio => "Choose an .flp",
            ImportKind::Dawproject => "Choose a .dawproject file",
            ImportKind::AuruProject => "Choose an .auru file",
        }
    }

    /// Whether picking a folder makes sense for this kind.
    pub fn accepts_directories(self) -> (r: bool)
        ensures
            r == (self is AbletonLiveSet),
    {
        matches!(self, ImportKind::AbletonLiveSet)
    }

    pub open spec fn project_format(self) -> ProjectFormat {
        match self {
            ImportKind::AbletonLiveSet => ProjectFormat::AbletonLiveSet,
            ImportKind::BitwigProject => ProjectFormat::BitwigProject,
            ImportKind::FlStudio => ProjectFormat::FlStudio,
            ImportKind::Dawproject => ProjectFormat::Dawproject,
            ImportKind::AuruProject => ProjectFormat::Auru,
        }
    }

    pub fn format(self) -> (r: ProjectFormat)
        ensures
            r == self.project_format(),
    {
        match self {
            ImportKind::AbletonLiveSet => ProjectFormat::AbletonLiveSet,
            ImportKind::BitwigProject => ProjectFormat::BitwigProject,
            ImportKind::FlStudio => ProjectFormat::FlStudio,
            ImportKind::Dawproject => ProjectFormat::Dawproject,
            ImportKind::AuruProject => ProjectFormat::Auru,
        }
    }
}

/// The name of a version: the text of a content hash, such as `blake3:9f…`.
#[derive(Debug, PartialEq, Eq)]
pub struct CommitId {
    pub text: String,
}

impl Clone for CommitId {
    fn clone(&self) -> (r: Self)
        ensures
            r == *self,
    {
        CommitId { text: self.text.clone() }
    }
}

impl CommitId {
    pub fn same(&self, other: &CommitId) -> (r: bool)
        ensures
            r == (self.text@ == other.text@),
    {
        same(self.text.as_str(), other.text.as_str())
    }
}

/// An optional version by its text.
pub open spec fn commit_view(id: Option<CommitId>) -> Option<Seq<char>> {
    match id {
        Some(id) => Some(id.text@),
        None => None,
    }
}

/// Whether two optional versions are one.
pub fn same_commit(a: &Option<CommitId>, b: &Option<CommitId>) -> (r: bool)
    ensures
        r == (commit_view(*a) == commit_view(*b)),
{
    match (a, b) {
        (Some(a), Some(b)) => a.same(b),
        (None, None) => true,
        _ => false,
    }
}

/// A version as a provider's history lists it.
#[derive(Debug)]
pub struct CommitSummary {
    pub id: CommitId,
    pub message: String,
    /// Unix seconds.
    pub timestamp: i64,
}

/// Where a project lies beneath a watched folder, with `/` between the names.
#[derive(Debug, PartialEq, Eq)]
pub struct ProjectLocation {
    pub relative_path: String,
}

impl Clone for ProjectLocation {
    fn clone(&self) -> (r: Self)
        ensures
            r == *self,
    {
        ProjectLocation { relative_path: self.relative_path.clone() }
    }
}

/// An optional location by its text.
pub open spec fn location_view(location: Option<ProjectLocation>) -> Option<Seq<char>> {
    match location {
        Some(location) => Some(location.relative_path@),
        None => None,
    }
}

/// A copy of an optional location.
pub fn copy_location(location: &Option<ProjectLocation>) -> (r: Option<ProjectLocation>)
    ensures
        r == *location,
{
    match location {
        Some(location) => Some(location.clone()),
        None => None,
    }
}

/// Where a project lies beneath a watched folder.
pub fn portable_project_location(
    on: Platform,
    library_root: &str,
    project: &str,
) -> (r: Option<ProjectLocation>)
    ensures
        location_view(r) == crate::path::place_beneath(on, library_root@, project@),
{
    match crate::path::portable_place(on, library_root, project) {
        Some(relative_path) => Some(ProjectLocation { relative_path }),
        None => None,
    }
}

/// Labels a person gave a project.
#[derive(Debug, PartialEq, Eq)]
pub struct ProjectMetadata {
    /// Genres with commas between them.
    pub genre: Option<String>,
    pub tags: Vec<String>,
}

/// The genre and the tags of some metadata, by their texts.
pub type MetadataView = (Option<Seq<char>>, Seq<Seq<char>>);

impl View for ProjectMetadata {
    type V = MetadataView;

    open spec fn view(&self) -> MetadataView {
        (optional_view(self.genre), views(self.tags@))
    }
}

impl Clone for ProjectMetadata {
    fn clone(&self) -> (r: Self)
        ensures
            r@ == self@,
    {
        ProjectMetadata { genre: copy_optional(&self.genre), tags: copy_texts(&self.tags) }
    }
}

impl Default for ProjectMetadata {
    fn default() -> (r: Self)
        ensures
            r@ == (None::<Seq<char>>, Seq::<Seq<char>>::empty()),
    {
        let r = ProjectMetadata { genre: None, tags: Vec::new() };
        assert(views(r.tags@) =~= Seq::<Seq<char>>::empty());
        r
    }
}

/// The genres of a project.
pub open spec fn genres_of(metadata: MetadataView) -> Seq<Seq<char>> {
    match metadata.0 {
        Some(genre) => values_of(pieces(genre, Class::Comma)),
        None => Seq::empty(),
    }
}

impl ProjectMetadata {
    /// The genres, each by itself.
    pub fn genres(&self) -> (r: Vec<String>)
        ensures
            views(r@) == genres_of(self@),
    {
        match &self.genre {
            Some(genre) => trimmed_texts(&split(genre.as_str(), Class::Comma)),
            None => {
                let none: Vec<String> = Vec::new();
                assert(views(none@) =~= Seq::<Seq<char>>::empty());
                none
            },
        }
    }

    /// Whether the labels are the same.
    pub fn same(&self, other: &ProjectMetadata) -> (r: bool)
        ensures
            r == (self@ == other@),
    {
        let genre = match (&self.genre, &other.genre) {
            (Some(a), Some(b)) => same(a.as_str(), b.as_str()),
            (None, None) => true,
            _ => false,
        };
        genre && same_lists(&self.tags, &other.tags)
    }
}

/// What a project's sidecar records.
#[derive(Debug)]
pub struct Sidecar {
    /// The provider the project is backed up to.
    pub primary: Option<String>,
    /// The project's handle with each provider.
    pub provider_handles: TextMap<String>,
    /// The version the working copy was last backed up as or restored from.
    pub local_head: Option<CommitId>,
    /// The version that was last read back and found complete.
    pub verified_head: Option<CommitId>,
    pub metadata: ProjectMetadata,
    pub location: Option<ProjectLocation>,
}

} // verus!
