//! Labelling projects, and reading what is shown of them.
use vstd::prelude::*;

use crate::badge_input::{edits, segments, split_of};
use crate::detail::BpmFilter;
use crate::format::{genres_of, MetadataView};
use crate::input_submit::InputEvent;
use crate::labels::{drafted, labels_one, stored, unread, with_detail, with_details, HistoryRead,
    MetadataOutcome, ReadDetail, TypedLabels};
use crate::laws::backup::{a_found_project_has_its_id, is_listed, provider_index_is_first};
use crate::laws::detail::{added_labels_are_there_once, is_there};
use crate::laws::text::{values_are_trimmed_pieces, written_values_are_read_again};
use crate::library::listed_projects_are_found;
use crate::manager::ProjectManager;
use crate::project::{LoadedDetail, Project};
use crate::text::{optional_view, trimmed, values_of, views, Class};

verus! {

// ---------------------------------------------------------------------------
// Typing labels
// ---------------------------------------------------------------------------

/// Labels become labels at a comma or a line's end, or when Enter is pressed: while
/// someone types on, nothing happens, and what follows the last separator waits.
pub proof fn labels_wait_for_a_separator(text: Seq<char>)
    ensures
        edits(InputEvent::PressEnter, text),
        edits(InputEvent::Change, text) <==> text.contains(',') || text.contains('\n'),
        split_of(text, true).1.len() == 0,
        split_of(text, true).0 == values_of(segments(text)),
        text.len() > 0 && (text.last() == ',' || text.last() == '\n') ==> split_of(text, false)
            == split_of(text, true),
        text.len() > 0 && text.last() != ',' && text.last() != '\n' ==> split_of(text, false).1
            == trimmed(segments(text).last()) && split_of(text, false).0 == values_of(
            segments(text).drop_last(),
        ),
{
    if text.contains(',') {
        let i = choose|i: int| 0 <= i < text.len() && text[i] == ',';
        assert(Class::Delimiter.has(text[i]));
    }
    if text.contains('\n') {
        let i = choose|i: int| 0 <= i < text.len() && text[i] == '\n';
        assert(Class::Delimiter.has(text[i]));
    }
    if edits(InputEvent::Change, text) {
        let i = choose|i: int| 0 <= i < text.len() && Class::Delimiter.has(#[trigger] text[i]);
        assert(text.contains(text[i]));
    }
}

/// What was typed counts although nobody pressed Enter: each value of it is among
/// the labels, whatever its case, and those that were there stay.
pub proof fn typed_labels_count(values: Seq<Seq<char>>, typed: Seq<char>, k: int)
    requires
        0 <= k < values_of(segments(typed)).len(),
    ensures
        is_there(drafted(values, typed), values_of(segments(typed))[k]),
        values.is_prefix_of(drafted(values, typed)),
{
    let additions = values_of(segments(typed));
    values_are_trimmed_pieces(typed, Class::Delimiter, k);
    assert(trimmed(additions[k]) == additions[k]);
    added_labels_are_there_once(values, additions, k);
}

/// Genres that are kept are had again as they were, and so are tags. Having no
/// genre is having none.
pub proof fn kept_labels_are_had_again(genres: Seq<Seq<char>>, tags: Seq<Seq<char>>)
    requires
        forall|i: int|
            0 <= i < genres.len() ==> (#[trigger] genres[i]).len() > 0 && trimmed(genres[i])
                == genres[i] && !genres[i].contains(','),
    ensures
        genres_of(stored(genres, tags)) == genres,
        stored(genres, tags).1 == tags,
        genres.len() == 0 <==> stored(genres, tags).0 is None,
{
    written_values_are_read_again(genres);
    if genres.len() == 0 {
        assert(genres =~= Seq::<Seq<char>>::empty());
    }
}

/// A draft is not thrown away under someone's hands: while the same project is
/// selected and something in its labels was changed, the draft stays. It is made
/// anew when another project is selected.
pub proof fn a_changed_draft_stays(manager: ProjectManager, typed: TypedLabels)
    requires
        manager.selected_project < manager.projects@.len(),
    ensures
        ({
            let project = manager.projects@[manager.selected_project as int];
            let same = manager.metadata_input_project_id is Some
                && manager.metadata_input_project_id->0@ == project.id@;
            let changed = manager.draft_view(typed) != manager.metadata_input_baseline@;
            &&& same && changed ==> !manager.edit_is_stale(typed)
            &&& !same ==> manager.edit_is_stale(typed)
            &&& same && !changed ==> (manager.edit_is_stale(typed) <==> project.metadata@
                != manager.metadata_input_baseline@)
        }),
{
}

/// A draft that is made anew shows the labels of the selected project.
pub proof fn a_new_draft_shows_the_projects_labels(manager: ProjectManager, after: ProjectManager)
    requires
        manager.selected_project < manager.projects@.len(),
        manager.edits_anew(after),
    ensures
        ({
            let project = manager.projects@[manager.selected_project as int];
            &&& views(after.genre_values@) == genres_of(project.metadata@)
            &&& views(after.tag_values@) == project.metadata@.1
            &&& after.metadata_input_project_id is Some && after.metadata_input_project_id->0@
                == project.id@
            &&& after.metadata_input_baseline@ == project.metadata@
            &&& after.projects == manager.projects
            &&& after.state == manager.state
        }),
{
}

// ---------------------------------------------------------------------------
// Saving labels
// ---------------------------------------------------------------------------

/// Labels are saved exactly if they changed, are not being saved already, and the
/// project is here or its provider is listed. What is saved are the labels, for
/// that project and at the provider that lists it; the library itself stays as it
/// is until they are saved.
pub proof fn changed_labels_are_saved(
    manager: ProjectManager,
    committed: ProjectManager,
    index: int,
    after: ProjectManager,
    outcome: MetadataOutcome,
)
    requires
        manager.saves_labels(committed, index, after, outcome),
        0 <= index < manager.projects@.len(),
    ensures
        ({
            let project = manager.projects@[index];
            let labels = stored(views(committed.genre_values@), views(committed.tag_values@));
            let saving = manager.metadata_saving is Some && manager.metadata_saving->0@
                == project.id@;
            let reached = project.remote is Some && is_listed(
                manager.providers@,
                project.remote->0.provider_id@,
            );
            &&& outcome is Save <==> labels != project.metadata@ && !saving && (project.live_set
                is Some || reached)
            &&& outcome is Nothing <==> labels == project.metadata@ || saving
            &&& after.projects == committed.projects
            &&& after.state == committed.state
            &&& outcome matches MetadataOutcome::Save(job) ==> {
                &&& job.project_id@ == project.id@
                &&& job.profile.metadata@ == labels
                &&& job.profile.display_name@ == project.name@
                &&& job.profile.format == project.format
                &&& job.profile.location == project.location
                &&& optional_view(job.project_path) == optional_view(project.live_set)
                &&& job.target is Some <==> reached
                &&& reached ==> (job.target->0).0.entry.id@ == project.remote->0.provider_id@ && (
                job.target->0).1@ == project.remote->0.handle@
                &&& after.metadata_saving is Some && after.metadata_saving->0@ == project.id@
            }
        }),
{
    let project = manager.projects@[index];
    if project.remote is Some {
        provider_index_is_first(manager.providers@, project.remote->0.provider_id@);
    }
}

/// Labels that were saved are those of their project, and of no other; nothing else
/// of the project changes.
pub proof fn saved_labels_are_of_their_project(
    before: Seq<Project>,
    after: Seq<Project>,
    id: Seq<char>,
    labels: MetadataView,
    i: int,
)
    requires
        labels_one(before, after, id, labels),
        0 <= i < before.len(),
    ensures
        after.len() == before.len(),
        before[i].id@ != id ==> after[i] == before[i],
        after[i] == (Project { metadata: after[i].metadata, ..before[i] }),
        before[i].id@ == id && (forall|j: int| 0 <= j < i ==> (#[trigger] before[j]).id@ != id)
            ==> after[i].metadata@ == labels,
{
    a_found_project_has_its_id(before, id);
    if before[i].id@ == id {
        listed_projects_are_found(before, i);
    }
}

// ---------------------------------------------------------------------------
// Reading what is shown
// ---------------------------------------------------------------------------

/// A history is read once, of the project that was selected, from the provider that
/// has it; it is not read again while it is there.
pub proof fn a_history_is_read_once(
    manager: ProjectManager,
    index: int,
    primary: Option<Seq<char>>,
    read: Option<HistoryRead>,
)
    requires
        manager.reads_history(index, primary, read),
        0 <= index < manager.projects@.len(),
    ensures
        ({
            let project = manager.projects@[index];
            let provider = if project.live_set is Some {
                primary
            } else if project.remote is Some {
                Some(project.remote->0.provider_id@)
            } else {
                None
            };
            &&& read is Some <==> project.versions@.len() == 0 && provider is Some && is_listed(
                manager.providers@,
                provider->0,
            )
            &&& read matches Some(read) ==> {
                &&& read.project_id@ == project.id@
                &&& read.listing.entry.id@ == provider->0
                &&& project.live_set matches Some(path) ==> read.source is Working
                    && read.source->Working_0@ == path@
                &&& project.live_set is None ==> read.source is Remote && read.source->Remote_0@
                    == project.remote->0.handle@
            }
        }),
{
    let project = manager.projects@[index];
    if project.live_set is Some {
        if primary is Some {
            provider_index_is_first(manager.providers@, primary->0);
        }
    } else if project.remote is Some {
        provider_index_is_first(manager.providers@, project.remote->0.provider_id@);
    }
}

/// What was read of a project is shown with it, and changes no other project, nor
/// anything else of it.
pub proof fn what_was_read_is_shown(
    projects: Seq<Project>,
    id: Seq<char>,
    loaded: LoadedDetail,
    i: int,
)
    requires
        0 <= i < projects.len(),
    ensures
        ({
            let after = with_detail(projects, id, loaded);
            &&& after.len() == projects.len()
            &&& projects[i].id@ != id ==> after[i] == projects[i]
            &&& after[i].status == projects[i].status && after[i].id == projects[i].id
                && after[i].versions == projects[i].versions && after[i].metadata
                == projects[i].metadata && after[i].live_set == projects[i].live_set
            &&& projects[i].id@ == id && (forall|j: int|
                0 <= j < i ==> (#[trigger] projects[j]).id@ != id) ==> after[i].detail
                == loaded.detail && after[i].size == loaded.size && after[i].missing_plugins
                == loaded.missing_plugins && after[i].local_inventory == loaded.inventory
        }),
{
    a_found_project_has_its_id(projects, id);
    if projects[i].id@ == id {
        listed_projects_are_found(projects, i);
    }
}

/// The same of several projects at once.
pub proof fn reading_several_changes_only_those(
    projects: Seq<Project>,
    reads: Seq<ReadDetail>,
    i: int,
)
    requires
        0 <= i < projects.len(),
    ensures
        with_details(projects, reads).len() == projects.len(),
        with_details(projects, reads)[i].id == projects[i].id,
        with_details(projects, reads)[i].status == projects[i].status,
        (forall|k: int| 0 <= k < reads.len() ==> (#[trigger] reads[k]).project_id@ != projects[i].id@)
            ==> with_details(projects, reads)[i] == projects[i],
    decreases reads.len(),
{
    if reads.len() > 0 {
        let rest = reads.drop_last();
        let last = reads.last();
        let before = with_details(projects, rest);
        reading_several_changes_only_those(projects, rest, i);
        what_was_read_is_shown(before, last.project_id@, last.detail, i);
        assert(reads[reads.len() - 1] == last);
        assert(forall|k: int| 0 <= k < rest.len() ==> #[trigger] rest[k] == reads[k]);
    }
}

/// To filter by tempo, every project on this computer of which nothing is known yet
/// is read, and no other.
pub proof fn only_unknown_projects_are_read(projects: Seq<Project>, i: int)
    requires
        0 <= i < projects.len(),
    ensures
        projects[i].detail is None && projects[i].live_set is Some ==> unread(projects).contains(
            (projects[i].id@, projects[i].live_set->0@),
        ),
        forall|k: int|
            0 <= k < unread(projects).len() ==> exists|j: int|
                0 <= j < projects.len() && (#[trigger] projects[j]).detail is None
                    && projects[j].live_set is Some && #[trigger] unread(projects)[k] == (
                    projects[j].id@,
                    projects[j].live_set->0@,
                ),
    decreases projects.len(),
{
    let before = projects.drop_last();
    let rest = unread(before);
    let all = unread(projects);
    assert(projects[projects.len() - 1] == projects.last());
    assert(forall|k: int| 0 <= k < rest.len() ==> #[trigger] all[k] == rest[k]);
    if before.len() > 0 {
        let j = if i < before.len() {
            i
        } else {
            0
        };
        only_unknown_projects_are_read(before, j);
        assert(before[j] == projects[j]);
        if i < before.len() && projects[i].detail is None && projects[i].live_set is Some {
            let want = (projects[i].id@, projects[i].live_set->0@);
            let k = choose|k: int| 0 <= k < rest.len() && rest[k] == want;
            assert(all[k] == want);
        }
    }
    let last = projects.last();
    if last.detail is None && last.live_set is Some {
        assert(all[rest.len() as int] == (last.id@, last.live_set->0@));
    }
    assert forall|k: int| 0 <= k < all.len() implies exists|j: int|
        0 <= j < projects.len() && (#[trigger] projects[j]).detail is None && projects[j].live_set
            is Some && #[trigger] all[k] == (projects[j].id@, projects[j].live_set->0@) by {
        if k < rest.len() {
            assert(before.len() > 0);
            assert(rest[k] == all[k]);
            let j = choose|j: int|
                0 <= j < before.len() && (#[trigger] before[j]).detail is None
                    && before[j].live_set is Some && rest[k] == (
                    before[j].id@,
                    before[j].live_set->0@,
                );
            assert(projects[j] == before[j]);
        } else {
            assert(all[k] == (
                projects[projects.len() - 1].id@,
                projects[projects.len() - 1].live_set->0@,
            ));
        }
    }
}

/// They are read once at a time.
pub proof fn unknown_projects_are_read_once(
    manager: ProjectManager,
    after: ProjectManager,
    reads: Seq<(Seq<char>, Seq<char>)>,
)
    requires
        manager.loads_missing(after, reads),
    ensures
        manager.bpm_filter_loading ==> reads.len() == 0,
        !manager.bpm_filter_loading ==> reads == unread(manager.projects@),
        reads.len() > 0 ==> after.bpm_filter_loading,
        after.projects == manager.projects,
        after.bpm_filter == manager.bpm_filter,
{
    if !manager.bpm_filter_loading && reads.len() == 0 {
        assert(reads =~= unread(manager.projects@));
    }
}

/// The filter that is chosen is the one that is shown: the range where a range is
/// shown, and the tempo where one is.
pub proof fn the_shown_tempo_is_filtered_by(manager: ProjectManager)
    ensures
        manager.bpm_filter_mode is Range ==> manager.chosen_bpm() == (BpmFilter::Range {
            min: manager.bpm_range.min,
            max: manager.bpm_range.max,
        }),
        manager.bpm_filter_mode is Exact ==> manager.chosen_bpm() == BpmFilter::Exact(
            manager.bpm_exact,
        ),
{
}

/// Labels that could not be saved change nothing, and that is said; either way they
/// are not being saved any more.
pub proof fn unsaved_labels_change_nothing(
    manager: ProjectManager,
    project_id: Seq<char>,
    project_name: Seq<char>,
    metadata: crate::format::ProjectMetadata,
    result: Result<(), String>,
    after: ProjectManager,
    said: crate::notice::NoticeView,
    i: int,
)
    requires
        manager.keeps_labels(project_id, project_name, metadata, result, after, said),
        0 <= i < manager.projects@.len(),
    ensures
        after.metadata_saving is None,
        result is Err ==> after.projects == manager.projects && after.metadata_input_baseline
            == manager.metadata_input_baseline,
        result is Err <==> said.level is Error,
        after.projects@.len() == manager.projects@.len(),
        manager.projects@[i].id@ != project_id ==> after.projects@[i] == manager.projects@[i],
        after.projects@[i].status == manager.projects@[i].status,
        result is Ok ==> after.metadata_input_baseline == metadata,
        result is Ok && manager.projects@[i].id@ == project_id && (forall|j: int|
            0 <= j < i ==> (#[trigger] manager.projects@[j]).id@ != project_id)
            ==> after.projects@[i].metadata@ == metadata@,
        after.state == manager.state,
{
    if result is Ok {
        saved_labels_are_of_their_project(
            manager.projects@,
            after.projects@,
            project_id,
            metadata@,
            i,
        );
    }
}

} // verus!
