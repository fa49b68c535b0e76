//! Searching, filtering and sorting the library.
use vstd::prelude::*;

use crate::detail::BpmFilter;
use crate::laws::text::{comes_first, first_difference, same_but_case, stands_in};
use crate::library::SortOrder;
use crate::order::{is_sorted_from, sorts, Ranked};
use crate::project::Project;
use crate::status::ProjectStatus;
use crate::text::{lowercase, occurs_at, trimmed, views};

verus! {

// ---------------------------------------------------------------------------
// Searching
// ---------------------------------------------------------------------------

/// Whether what was typed stands in a text, whatever the case.
pub open spec fn is_typed_in(text: Seq<char>, query: Seq<char>) -> bool {
    stands_in(lowercase(text), lowercase(trimmed(query)))
}

proof fn occurrence_is_standing(text: Seq<char>, part: Seq<char>)
    ensures
        crate::text::occurs(text, part) <==> stands_in(text, part),
{
    if crate::text::occurs(text, part) {
        let at = choose|at: int| occurs_at(text, part, at);
        assert(text.subrange(at, at + part.len()) == part);
    }
    if stands_in(text, part) {
        let at = choose|at: int|
            0 <= at && at + part.len() <= text.len() && #[trigger] text.subrange(
                at,
                at + part.len(),
            ) == part;
        assert(occurs_at(text, part, at));
    }
}

/// A search finds a project by its name, its file, its genre and each of its
/// tags, and by nothing else; a blank one finds every project.
pub proof fn a_search_looks_at_names_and_labels(project: Project, query: Seq<char>)
    ensures
        trimmed(query).len() == 0 ==> project.is_found_by(query),
        is_typed_in(project.name@, query) ==> project.is_found_by(query),
        is_typed_in(project.file_name@, query) ==> project.is_found_by(query),
        project.metadata.genre matches Some(genre) ==> (is_typed_in(genre@, query)
            ==> project.is_found_by(query)),
        forall|i: int|
            0 <= i < project.metadata.tags@.len() && is_typed_in(
                (#[trigger] project.metadata.tags@[i])@,
                query,
            ) ==> project.is_found_by(query),
        project.is_found_by(query) && trimmed(query).len() > 0 ==> {
            ||| is_typed_in(project.name@, query)
            ||| is_typed_in(project.file_name@, query)
            ||| project.metadata.genre is Some && is_typed_in(project.metadata.genre->0@, query)
            ||| exists|i: int|
                0 <= i < project.metadata.tags@.len() && is_typed_in(
                    (#[trigger] project.metadata.tags@[i])@,
                    query,
                )
        },
{
    let needle = lowercase(trimmed(query));
    occurrence_is_standing(lowercase(project.name@), needle);
    occurrence_is_standing(lowercase(project.file_name@), needle);
    if project.metadata.genre is Some {
        occurrence_is_standing(lowercase(project.metadata.genre->0@), needle);
    }
    let tags = project.metadata.tags@;
    assert forall|i: int| 0 <= i < tags.len() implies (is_typed_in((#[trigger] tags[i])@, query)
        <==> crate::project::mentions(tags[i]@, needle)) by {
        occurrence_is_standing(lowercase(tags[i]@), needle);
    }
}

// ---------------------------------------------------------------------------
// Filtering
// ---------------------------------------------------------------------------

/// Whether some text of a list is one of those selected, whatever its case.
pub open spec fn is_among(own: Seq<Seq<char>>, selected: Seq<Seq<char>>) -> bool {
    exists|i: int, j: int|
        0 <= i < own.len() && 0 <= j < selected.len() && same_but_case(
            #[trigger] own[i],
            #[trigger] selected[j],
        )
}

proof fn sharing_is_being_among(own: Seq<Seq<char>>, selected: Seq<Seq<char>>)
    ensures
        crate::project::share_ignoring_case(own, selected) <==> is_among(own, selected),
{
    assert forall|i: int, j: int|
        #![trigger own[i], selected[j]]
        0 <= i < own.len() && 0 <= j < selected.len() implies (crate::text::same_ignoring_case(
        own[i],
        selected[j],
    ) <==> same_but_case(own[i], selected[j])) by {
        crate::laws::text::ignoring_case_is_being_the_same_but_case(own[i], selected[j]);
    }
    if crate::project::share_ignoring_case(own, selected) {
        let (i, j) = choose|i: int, j: int|
            0 <= i < own.len() && 0 <= j < selected.len() && crate::text::same_ignoring_case(
                #[trigger] own[i],
                #[trigger] selected[j],
            );
        assert(same_but_case(own[i], selected[j]));
    }
    if is_among(own, selected) {
        let (i, j) = choose|i: int, j: int|
            0 <= i < own.len() && 0 <= j < selected.len() && same_but_case(
                #[trigger] own[i],
                #[trigger] selected[j],
            );
        assert(crate::text::same_ignoring_case(own[i], selected[j]));
    }
}

/// A project is listed under selected tags only if it carries one of them, in
/// whatever case; and one that carries one is not left out for its tags.
pub proof fn selected_tags_are_carried(
    project: Project,
    query: Seq<char>,
    genres: Seq<Seq<char>>,
    tags: Seq<Seq<char>>,
    bpm: Option<BpmFilter>,
)
    ensures
        project.passes(query, genres, tags, bpm) && tags.len() > 0 ==> exists|i: int, j: int|
            0 <= i < project.metadata.tags@.len() && 0 <= j < tags.len() && same_but_case(
                (#[trigger] project.metadata.tags@[i])@,
                #[trigger] tags[j],
            ),
        (exists|i: int, j: int|
            0 <= i < project.metadata.tags@.len() && 0 <= j < tags.len() && same_but_case(
                (#[trigger] project.metadata.tags@[i])@,
                #[trigger] tags[j],
            )) ==> (project.passes(query, genres, tags, bpm) <==> project.passes(
            query,
            genres,
            Seq::empty(),
            bpm,
        )),
{
    let own = views(project.metadata.tags@);
    sharing_is_being_among(own, tags);
    if is_among(own, tags) {
        let (i, j) = choose|i: int, j: int|
            0 <= i < own.len() && 0 <= j < tags.len() && same_but_case(
                #[trigger] own[i],
                #[trigger] tags[j],
            );
        assert(same_but_case(project.metadata.tags@[i]@, tags[j]));
    }
    if exists|i: int, j: int|
        0 <= i < project.metadata.tags@.len() && 0 <= j < tags.len() && same_but_case(
            (#[trigger] project.metadata.tags@[i])@,
            #[trigger] tags[j],
        ) {
        let (i, j) = choose|i: int, j: int|
            0 <= i < project.metadata.tags@.len() && 0 <= j < tags.len() && same_but_case(
                (#[trigger] project.metadata.tags@[i])@,
                #[trigger] tags[j],
            );
        assert(same_but_case(own[i], tags[j]));
    }
}

/// A project is listed under selected genres only if it has one of them, in
/// whatever case: a text between the commas of its genre field, without the white
/// space around it. One that has one is not left out for its genres.
pub proof fn selected_genres_are_had(
    project: Project,
    query: Seq<char>,
    genres: Seq<Seq<char>>,
    tags: Seq<Seq<char>>,
    bpm: Option<BpmFilter>,
    genre: Seq<char>,
    j: int,
)
    ensures
        project.passes(query, genres, tags, bpm) && genres.len() > 0 ==> {
            &&& project.metadata.genre is Some
            &&& exists|own: Seq<char>, j: int|
                0 <= j < genres.len() && same_but_case(own, #[trigger] genres[j]) && own.len() > 0
                    && #[trigger] stands_in(project.metadata.genre->0@, own) && !own.contains(',')
        },
        project.metadata.genre is Some && project.metadata.genre->0@ == genre && !genre.contains(
            ',',
        ) && trimmed(genre) == genre && genre.len() > 0 && 0 <= j < genres.len() && same_but_case(
            genre,
            genres[j],
        ) ==> (project.passes(query, genres, tags, bpm) <==> project.passes(
            query,
            Seq::empty(),
            tags,
            bpm,
        )),
{
    let own = crate::format::genres_of(project.metadata@);
    sharing_is_being_among(own, genres);
    if project.passes(query, genres, tags, bpm) && genres.len() > 0 {
        let (i, k) = choose|i: int, k: int|
            0 <= i < own.len() && 0 <= k < genres.len() && same_but_case(
                #[trigger] own[i],
                #[trigger] genres[k],
            );
        let text = project.metadata.genre->0@;
        crate::laws::text::values_are_trimmed_pieces(text, crate::text::Class::Comma, i);
        assert(same_but_case(own[i], genres[k]));
        assert(stands_in(text, own[i]));
        assert(!own[i].contains(',')) by {
            if own[i].contains(',') {
                let c = choose|c: int| 0 <= c < own[i].len() && own[i][c] == ',';
                assert(!crate::text::Class::Comma.has(own[i][c]));
            }
        }
    }
    if project.metadata.genre is Some && project.metadata.genre->0@ == genre && !genre.contains(',')
        && trimmed(genre) == genre && genre.len() > 0 && 0 <= j < genres.len() && same_but_case(
        genre,
        genres[j],
    ) {
        assert forall|c: int| 0 <= c < genre.len() implies !crate::text::Class::Comma.has(
            #[trigger] genre[c],
        ) by {
            assert(genre.contains(genre[c]));
        }
        crate::laws::text::an_undivided_text_is_one_value(genre, crate::text::Class::Comma);
        assert(own[0] == genre);
        assert(same_but_case(own[0], genres[j]));
    }
}

/// A project is listed under a tempo only if its tempo is known and fits, and one
/// whose tempo fits is not left out for it.
pub proof fn a_tempo_filter_needs_a_tempo(
    project: Project,
    query: Seq<char>,
    genres: Seq<Seq<char>>,
    tags: Seq<Seq<char>>,
    filter: BpmFilter,
)
    ensures
        project.passes(query, genres, tags, Some(filter)) ==> {
            &&& project.detail is Some
            &&& project.detail->0.tempo is Some
            &&& project.detail->0.tempo->0.bounds is Some
            &&& project.passes(query, genres, tags, None)
        },
        ({
            let tempo = project.detail->0.tempo->0.bounds->0;
            project.detail is Some && project.detail->0.tempo is Some
                && project.detail->0.tempo->0.bounds is Some && project.passes(
                query,
                genres,
                tags,
                None,
            ) ==> (project.passes(query, genres, tags, Some(filter)) <==> match filter {
                BpmFilter::Range { min, max } => min <= tempo.floor && tempo.ceiling <= max,
                BpmFilter::Exact(bpm) => tempo.nearest == bpm,
            })
        }),
{
}

/// The groups of filters combine: what passes them passes the search box and each
/// group by itself.
pub proof fn filters_only_narrow_the_list(
    project: Project,
    query: Seq<char>,
    genres: Seq<Seq<char>>,
    tags: Seq<Seq<char>>,
    bpm: Option<BpmFilter>,
)
    ensures
        project.passes(query, Seq::empty(), Seq::empty(), None) <==> project.is_found_by(query),
        project.passes(query, genres, tags, bpm) <==> {
            &&& project.passes(query, Seq::empty(), Seq::empty(), None)
            &&& project.passes(query, genres, Seq::empty(), None)
            &&& project.passes(query, Seq::empty(), tags, None)
            &&& project.passes(query, Seq::empty(), Seq::empty(), bpm)
        },
{
}

// ---------------------------------------------------------------------------
// Sorting
// ---------------------------------------------------------------------------

/// Whether a project asks for something: it was never backed up, one side is
/// ahead, or both are.
pub open spec fn asks_for_something(status: ProjectStatus) -> bool {
    status is NeverBackedUp || status is OutOfSync || status is Conflicted
}

/// Where attention comes first, what asks for something stands before what does
/// not.
pub proof fn what_asks_comes_first(before: Seq<Project>, after: Seq<Project>, i: int, j: int)
    requires
        is_sorted_from(before, after, SortOrder::AttentionRequired),
        0 <= i < j < after.len(),
        asks_for_something(after[j].status),
    ensures
        asks_for_something(after[i].status),
{
    let places = choose|places: Seq<int>|
        sorts(before, after, places, SortOrder::AttentionRequired);
    assert(after[i].leads(after[j], SortOrder::AttentionRequired));
}

/// Where the latest save comes first, a project stands behind those saved later,
/// and behind every project with a save if it has none.
pub proof fn the_latest_save_comes_first(before: Seq<Project>, after: Seq<Project>, i: int, j: int)
    requires
        is_sorted_from(before, after, SortOrder::LastModifiedLocal),
        0 <= i < j < after.len(),
        after[j].modified_at is Some,
    ensures
        after[i].modified_at is Some,
        after[i].modified_at->0.nanos >= after[j].modified_at->0.nanos,
{
    let places = choose|places: Seq<int>|
        sorts(before, after, places, SortOrder::LastModifiedLocal);
    assert(after[i].leads(after[j], SortOrder::LastModifiedLocal));
}

/// Where the latest backup comes first, a project stands behind those backed up
/// later, and behind every one with a backup if it has none.
pub proof fn the_latest_backup_comes_first(
    before: Seq<Project>,
    after: Seq<Project>,
    i: int,
    j: int,
)
    requires
        is_sorted_from(before, after, SortOrder::LastModifiedRemote),
        0 <= i < j < after.len(),
        after[j].backed_up_at is Some,
    ensures
        after[i].backed_up_at is Some,
        after[i].backed_up_at->0.nanos >= after[j].backed_up_at->0.nanos,
{
    let places = choose|places: Seq<int>|
        sorts(before, after, places, SortOrder::LastModifiedRemote);
    assert(after[i].leads(after[j], SortOrder::LastModifiedRemote));
}

/// Where the latest addition comes first, a project stands behind those added
/// later, and behind every one with a known time if its own is not known.
pub proof fn the_latest_addition_comes_first(
    before: Seq<Project>,
    after: Seq<Project>,
    i: int,
    j: int,
)
    requires
        is_sorted_from(before, after, SortOrder::RecentlyAdded),
        0 <= i < j < after.len(),
        after[j].added_at is Some,
    ensures
        after[i].added_at is Some,
        after[i].added_at->0 >= after[j].added_at->0,
{
    let places = choose|places: Seq<int>| sorts(before, after, places, SortOrder::RecentlyAdded);
    assert(after[i].leads(after[j], SortOrder::RecentlyAdded));
}

/// Whether a project stands before another by its name, whatever the case, or by
/// its place where the names are the same.
pub open spec fn is_named_before(a: Project, b: Project) -> bool {
    if lowercase(a.name@) == lowercase(b.name@) {
        a.local_path@ == b.local_path@ || comes_first(a.local_path@, b.local_path@)
    } else {
        comes_first(lowercase(a.name@), lowercase(b.name@))
    }
}

/// Whether an order makes no difference between two projects but by name.
pub open spec fn ties(a: Project, b: Project, order: SortOrder) -> bool {
    match order {
        SortOrder::NameAscending => true,
        SortOrder::AttentionRequired => asks_for_something(a.status) == asks_for_something(
            b.status,
        ),
        SortOrder::LastModifiedLocal => a.modified_at == b.modified_at,
        SortOrder::LastModifiedRemote => a.backed_up_at == b.backed_up_at,
        SortOrder::RecentlyAdded => a.added_at == b.added_at,
    }
}

/// Under every order, projects between which it makes no difference stand by their
/// names; under the order by name all of them do.
pub proof fn ties_are_broken_by_name(
    before: Seq<Project>,
    after: Seq<Project>,
    order: SortOrder,
    i: int,
    j: int,
)
    requires
        is_sorted_from(before, after, order),
        0 <= i < j < after.len(),
        ties(after[i], after[j], order),
    ensures
        is_named_before(after[i], after[j]),
{
    let places = choose|places: Seq<int>| sorts(before, after, places, order);
    let a = after[i];
    let b = after[j];
    assert(a.leads(b, order));
    if lowercase(a.name@) != lowercase(b.name@) {
        first_difference(lowercase(a.name@), lowercase(b.name@));
    } else if a.local_path@ != b.local_path@ {
        first_difference(a.local_path@, b.local_path@);
    }
}

/// Sorting takes nothing away and adds nothing: each project of the sorted list
/// stood in the list before, at a place of its own, and none is left out.
pub proof fn sorting_loses_no_project(before: Seq<Project>, after: Seq<Project>, order: SortOrder)
    requires
        is_sorted_from(before, after, order),
    ensures
        after.len() == before.len(),
        forall|project: Project| before.contains(project) <==> after.contains(project),
        before.no_duplicates() ==> after.no_duplicates(),
{
    let places = choose|places: Seq<int>| sorts(before, after, places, order);
    assert forall|project: Project| before.contains(project) <==> after.contains(project) by {
        crate::order::sorting_keeps_the_values(before, after, order, project);
    }
    assert forall|i: int, j: int|
        before.no_duplicates() && 0 <= i < after.len() && 0 <= j < after.len() && i
            != j implies after[i] != after[j] by {
        assert(after[i] == before[places[i]]);
        assert(after[j] == before[places[j]]);
        assert(places[i] != places[j]);
    }
}

} // verus!
