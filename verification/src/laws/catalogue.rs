//! What the library lists: projects found in watched folders, projects that only a
//! provider has, and the labels to filter by.
use vstd::prelude::*;

use crate::format::genres_of;
use crate::library::{all_genres, all_placed, all_tags, are_options, first_reached, folds_in,
    folder_roots, folds_in_all, handle_index, has_handle, has_keys, home_text, is_read,
    lists_by_key, lists_root, loads_library, placed, read_once, scanned_roots, seen_with_all,
    spellings, without_rows, LibraryFilterOptions,
    ReadProject, RootView, ScanFolder, ScannedFolder, SortOrder};
use crate::moment::Moment;
use crate::order::{is_sorted_from, sorting_keeps_the_values, Ranked};
use crate::path::{components_of, same_path, Platform};
use crate::project::{Project, RemoteProjectSeed};
use crate::state::AppState;
use crate::text::{lowercase, text_le, values_of, views};

verus! {

// ---------------------------------------------------------------------------
// Projects that only a provider has
// ---------------------------------------------------------------------------

/// A refresh takes out what the provider itself put into the list: the projects
/// that are not on this computer and were listed by it. Every other project stays.
pub proof fn a_refresh_takes_out_only_the_providers_rows(
    projects: Seq<Project>,
    provider_id: Seq<char>,
    project: Project,
)
    ensures
        without_rows(projects, provider_id).contains(project) <==> projects.contains(project) && !(
        project.live_set is None && project.remote is Some && project.remote->0.provider_id@
            == provider_id),
    decreases projects.len(),
{
    if projects.len() > 0 {
        let before = projects.drop_last();
        let rest = without_rows(before, provider_id);
        a_refresh_takes_out_only_the_providers_rows(before, provider_id, project);
        assert(projects == before.push(projects.last()));
        assert(projects.contains(project) <==> before.contains(project) || projects.last()
            == project) by {
            if before.contains(project) {
                let i = choose|i: int| 0 <= i < before.len() && before[i] == project;
                assert(projects[i] == project);
            }
            assert(projects[projects.len() - 1] == projects.last());
        }
        assert(rest.push(projects.last()).contains(project) <==> rest.contains(project)
            || projects.last() == project) by {
            let more = rest.push(projects.last());
            if rest.contains(project) {
                let i = choose|i: int| 0 <= i < rest.len() && rest[i] == project;
                assert(more[i] == project);
            }
            assert(more[rest.len() as int] == projects.last());
        }
    }
}

/// Whether a project is known to a provider under a name.
pub open spec fn is_known_as(
    project: Project,
    provider_id: Seq<char>,
    handle: Seq<char>,
) -> bool {
    project.provider_handles@.dom().contains(provider_id)
        && project.provider_handles@[provider_id]@ == handle
}

proof fn handle_index_is_first_known(
    projects: Seq<Project>,
    provider_id: Seq<char>,
    handle: Seq<char>,
)
    ensures
        ({
            let at = handle_index(projects, provider_id, handle);
            &&& 0 <= at <= projects.len()
            &&& at < projects.len() ==> is_known_as(projects[at], provider_id, handle)
            &&& forall|i: int|
                0 <= i < at ==> !is_known_as(#[trigger] projects[i], provider_id, handle)
        }),
    decreases projects.len(),
{
    if projects.len() > 0 {
        let before = projects.drop_last();
        handle_index_is_first_known(before, provider_id, handle);
        assert(forall|i: int| 0 <= i < before.len() ==> #[trigger] before[i] == projects[i]);
        let last = projects[projects.len() - 1];
        assert(last == projects.last());
        assert(is_known_as(last, provider_id, handle) == has_handle(last, provider_id, handle));
        assert forall|i: int|
            0 <= i < handle_index(projects, provider_id, handle) implies !is_known_as(
            #[trigger] projects[i],
            provider_id,
            handle,
        ) by {
            if i < before.len() {
                assert(before[i] == projects[i]);
            }
        }
    }
}

/// Every project that a provider lists is in the library after a refresh, under the
/// name that the provider has for it, and carries the labels that the provider has
/// for it: those of the last listing under that name.
pub proof fn every_listed_project_is_in_the_library(
    before: Seq<Project>,
    seeds: Seq<RemoteProjectSeed>,
    after: Seq<Project>,
    now: Moment,
    k: int,
) -> (at: int)
    requires
        folds_in_all(before, seeds, after, now),
        0 <= k < seeds.len(),
        forall|l: int|
            k < l < seeds.len() ==> (#[trigger] seeds[l]).provider_id@ == seeds[k].provider_id@
                && seeds[l].handle@ != seeds[k].handle@,
    ensures
        0 <= at < after.len(),
        is_known_as(after[at], seeds[k].provider_id@, seeds[k].handle@),
        forall|i: int|
            0 <= i < at ==> !is_known_as(
                #[trigger] after[i],
                seeds[k].provider_id@,
                seeds[k].handle@,
            ),
        after[at].metadata@ == seeds[k].metadata@,
        seeds[k].location is Some ==> after[at].location is Some,
    decreases seeds.len(),
{
    let rest = seeds.drop_last();
    let last = seeds.last();
    let middle = choose|middle: Seq<Project>|
        folds_in_all(before, rest, middle, now) && #[trigger] folds_in(middle, last, after, now);
    let spot = handle_index(middle, last.provider_id@, last.handle@);
    handle_index_is_first_known(middle, last.provider_id@, last.handle@);
    assert(forall|i: int|
        0 <= i < middle.len() ==> (#[trigger] after[i]).provider_handles
            == middle[i].provider_handles);
    if k == seeds.len() - 1 {
        spot
    } else {
        assert(rest[k] == seeds[k]);
        assert(forall|l: int| k < l < rest.len() ==> #[trigger] rest[l] == seeds[l]);
        let at = every_listed_project_is_in_the_library(before, rest, middle, now, k);
        assert(seeds[seeds.len() - 1] == last);
        at
    }
}

/// A refresh adds only what the provider lists: a project that was not in the list
/// has one of the listings, is not on this computer, and is as the listing says.
pub proof fn only_listed_projects_are_added(
    before: Seq<Project>,
    seeds: Seq<RemoteProjectSeed>,
    after: Seq<Project>,
    now: Moment,
    i: int,
) -> (k: int)
    requires
        folds_in_all(before, seeds, after, now),
        before.len() <= i < after.len(),
    ensures
        0 <= k < seeds.len(),
        after[i].status is NotDownloaded,
        after[i].live_set is None,
        after[i].modified_at is None,
        after[i].versions@.len() == 0,
        after[i].remote is Some,
        after[i].remote->0.provider_id@ == seeds[k].provider_id@,
        after[i].remote->0.handle@ == seeds[k].handle@,
        after[i].remote->0.head.text@ == seeds[k].head.text@,
        after[i].name == seeds[k].name,
        after[i].file_name == seeds[k].file_name,
        after[i].format == seeds[k].format,
        after[i].added_at == Some(seeds[k].updated_at),
        after[i].id@ == "remote:"@ + seeds[k].provider_id@ + ":"@ + seeds[k].handle@,
        is_known_as(after[i], seeds[k].provider_id@, seeds[k].handle@),
    decreases seeds.len(),
{
    if seeds.len() == 0 {
        0
    } else {
        let rest = seeds.drop_last();
        let last = seeds.last();
        let middle = choose|middle: Seq<Project>|
            folds_in_all(before, rest, middle, now) && #[trigger] folds_in(
                middle,
                last,
                after,
                now,
            );
        handle_index_is_first_known(middle, last.provider_id@, last.handle@);
        if i == middle.len() {
            assert(after[i].is_row_of(last, now));
            seeds.len() - 1
        } else {
            let k = only_listed_projects_are_added(before, rest, middle, now, i);
            assert(rest[k] == seeds[k]);
            k
        }
    }
}

/// A project that none of the listings names stays as it was.
pub proof fn unlisted_projects_stay(
    before: Seq<Project>,
    seeds: Seq<RemoteProjectSeed>,
    after: Seq<Project>,
    now: Moment,
    i: int,
)
    requires
        folds_in_all(before, seeds, after, now),
        0 <= i < before.len(),
        forall|k: int|
            0 <= k < seeds.len() ==> !is_known_as(
                before[i],
                (#[trigger] seeds[k]).provider_id@,
                seeds[k].handle@,
            ),
    ensures
        i < after.len(),
        after[i] == before[i],
    decreases seeds.len(),
{
    if seeds.len() > 0 {
        let rest = seeds.drop_last();
        let last = seeds.last();
        let middle = choose|middle: Seq<Project>|
            folds_in_all(before, rest, middle, now) && #[trigger] folds_in(
                middle,
                last,
                after,
                now,
            );
        assert(forall|k: int| 0 <= k < rest.len() ==> #[trigger] rest[k] == seeds[k]);
        unlisted_projects_stay(before, rest, middle, now, i);
        handle_index_is_first_known(middle, last.provider_id@, last.handle@);
        assert(seeds[seeds.len() - 1] == last);
    }
}

// ---------------------------------------------------------------------------
// Labels to filter by
// ---------------------------------------------------------------------------

proof fn spellings_are_values(values: Seq<Seq<char>>, key: Seq<char>)
    ensures
        spellings(values).dom().contains(key) <==> exists|i: int|
            0 <= i < values.len() && lowercase(#[trigger] values[i]) == key,
        spellings(values).dom().contains(key) ==> values.contains(spellings(values)[key])
            && lowercase(spellings(values)[key]) == key,
    decreases values.len(),
{
    if values.len() > 0 {
        let before = values.drop_last();
        spellings_are_values(before, key);
        assert(forall|i: int| 0 <= i < before.len() ==> #[trigger] before[i] == values[i]);
        assert(values[values.len() - 1] == values.last());
        if exists|i: int| 0 <= i < values.len() && lowercase(#[trigger] values[i]) == key {
            let i = choose|i: int| 0 <= i < values.len() && lowercase(#[trigger] values[i]) == key;
            if i < before.len() {
                assert(before[i] == values[i]);
            }
        }
        if spellings(before).dom().contains(key) {
            let i = choose|i: int|
                0 <= i < before.len() && before[i] == spellings(before)[key];
            assert(values[i] == before[i]);
        }
    }
}

/// Whether some options stand for some values: each is one of them, each of them
/// is there but for case, and the options come in the order of their lower case
/// forms, which all differ.
pub open spec fn stand_for(options: Seq<Seq<char>>, values: Seq<Seq<char>>) -> bool {
    &&& forall|i: int| 0 <= i < options.len() ==> values.contains(#[trigger] options[i])
    &&& forall|k: int|
        0 <= k < values.len() ==> exists|i: int|
            0 <= i < options.len() && lowercase(#[trigger] options[i]) == lowercase(
                #[trigger] values[k],
            )
    &&& forall|i: int, j: int|
        #![trigger options[i], options[j]]
        0 <= i < j < options.len() ==> lowercase(options[i]) != lowercase(options[j]) && text_le(
            lowercase(options[i]),
            lowercase(options[j]),
        )
}

proof fn keyed_lists_stand_for_values(options: Seq<Seq<char>>, values: Seq<Seq<char>>)
    requires
        lists_by_key(options, spellings(values)),
    ensures
        stand_for(options, values),
{
    let map = spellings(values);
    let keys = choose|keys: Seq<Seq<char>>| #[trigger] has_keys(options, map, keys);
    assert forall|i: int| 0 <= i < options.len() implies values.contains(#[trigger] options[i])
        && lowercase(options[i]) == keys[i] by {
        assert(keys.contains(keys[i]));
        spellings_are_values(values, keys[i]);
    }
    assert forall|k: int| 0 <= k < values.len() implies exists|i: int|
        0 <= i < options.len() && lowercase(#[trigger] options[i]) == lowercase(
            #[trigger] values[k],
        ) by {
        let key = lowercase(values[k]);
        spellings_are_values(values, key);
        assert(keys.contains(key));
        let i = choose|i: int| 0 <= i < keys.len() && keys[i] == key;
        assert(lowercase(options[i]) == key);
    }
    assert forall|i: int, j: int|
        #![trigger options[i], options[j]]
        0 <= i < j < options.len() implies lowercase(options[i]) != lowercase(options[j])
        && text_le(lowercase(options[i]), lowercase(options[j])) by {
        assert(keys[i] != keys[j]);
    }
}

proof fn all_genres_are_of_projects(projects: Seq<Project>, genre: Seq<char>)
    ensures
        all_genres(projects).contains(genre) <==> exists|p: int|
            0 <= p < projects.len() && genres_of((#[trigger] projects[p]).metadata@).contains(genre),
    decreases projects.len(),
{
    if projects.len() > 0 {
        let before = projects.drop_last();
        let own = genres_of(projects.last().metadata@);
        all_genres_are_of_projects(before, genre);
        in_either(all_genres(before), own, genre);
        assert(forall|i: int| 0 <= i < before.len() ==> #[trigger] before[i] == projects[i]);
        assert(projects[projects.len() - 1] == projects.last());
        if exists|p: int|
            0 <= p < projects.len() && genres_of((#[trigger] projects[p]).metadata@).contains(
                genre,
            ) {
            let p = choose|p: int|
                0 <= p < projects.len() && genres_of((#[trigger] projects[p]).metadata@).contains(
                    genre,
                );
            if p < before.len() {
                assert(before[p] == projects[p]);
            }
        }
    }
}

proof fn all_tags_are_of_projects(projects: Seq<Project>, tag: Seq<char>)
    ensures
        all_tags(projects).contains(tag) <==> exists|p: int|
            0 <= p < projects.len() && values_of(
                views((#[trigger] projects[p]).metadata.tags@),
            ).contains(tag),
    decreases projects.len(),
{
    if projects.len() > 0 {
        let before = projects.drop_last();
        let own = values_of(views(projects.last().metadata.tags@));
        all_tags_are_of_projects(before, tag);
        in_either(all_tags(before), own, tag);
        assert(forall|i: int| 0 <= i < before.len() ==> #[trigger] before[i] == projects[i]);
        assert(projects[projects.len() - 1] == projects.last());
        if exists|p: int|
            0 <= p < projects.len() && values_of(
                views((#[trigger] projects[p]).metadata.tags@),
            ).contains(tag) {
            let p = choose|p: int|
                0 <= p < projects.len() && values_of(
                    views((#[trigger] projects[p]).metadata.tags@),
                ).contains(tag);
            if p < before.len() {
                assert(before[p] == projects[p]);
            }
        }
    }
}

proof fn in_either(a: Seq<Seq<char>>, b: Seq<Seq<char>>, value: Seq<char>)
    ensures
        (a + b).contains(value) <==> a.contains(value) || b.contains(value),
{
    if a.contains(value) {
        let i = choose|i: int| 0 <= i < a.len() && a[i] == value;
        assert((a + b)[i] == value);
    }
    if b.contains(value) {
        let i = choose|i: int| 0 <= i < b.len() && b[i] == value;
        assert((a + b)[a.len() + i] == value);
    }
}

/// Whether a project has a genre.
pub open spec fn has_genre(project: Project, genre: Seq<char>) -> bool {
    genres_of(project.metadata@).contains(genre)
}

/// Whether a project carries a tag.
pub open spec fn has_tag(project: Project, tag: Seq<char>) -> bool {
    values_of(views(project.metadata.tags@)).contains(tag)
}

/// The genres to filter by are those that projects have: every one offered is a
/// genre of some project, every genre of a project is offered but for its case,
/// and none is offered twice.
pub proof fn genres_offered_are_had(
    options: LibraryFilterOptions,
    projects: Seq<Project>,
    p: int,
    genre: Seq<char>,
)
    requires
        are_options(options, projects),
    ensures
        forall|i: int|
            0 <= i < options.genres@.len() ==> exists|q: int|
                0 <= q < projects.len() && has_genre(
                    #[trigger] projects[q],
                    (#[trigger] options.genres@[i])@,
                ),
        0 <= p < projects.len() && has_genre(projects[p], genre) ==> exists|i: int|
            0 <= i < options.genres@.len() && lowercase((#[trigger] options.genres@[i])@)
                == lowercase(genre),
        forall|i: int, j: int|
            #![trigger options.genres@[i], options.genres@[j]]
            0 <= i < j < options.genres@.len() ==> lowercase(options.genres@[i]@) != lowercase(
                options.genres@[j]@,
            ) && text_le(lowercase(options.genres@[i]@), lowercase(options.genres@[j]@)),
{
    let all = all_genres(projects);
    let shown = views(options.genres@);
    keyed_lists_stand_for_values(shown, all);
    assert(forall|i: int|
        0 <= i < shown.len() ==> #[trigger] shown[i] == options.genres@[i]@);
    assert forall|i: int| 0 <= i < options.genres@.len() implies exists|q: int|
        0 <= q < projects.len() && has_genre(
            #[trigger] projects[q],
            (#[trigger] options.genres@[i])@,
        ) by {
        assert(all.contains(shown[i]));
        all_genres_are_of_projects(projects, shown[i]);
        let q = choose|q: int|
            0 <= q < projects.len() && genres_of((#[trigger] projects[q]).metadata@).contains(
                shown[i],
            );
        assert(has_genre(projects[q], options.genres@[i]@));
    }
    if 0 <= p < projects.len() && has_genre(projects[p], genre) {
        all_genres_are_of_projects(projects, genre);
        let k = choose|k: int| 0 <= k < all.len() && all[k] == genre;
        assert(lowercase(all[k]) == lowercase(genre));
        let i = choose|i: int|
            0 <= i < shown.len() && lowercase(#[trigger] shown[i]) == lowercase(all[k]);
        assert(lowercase(options.genres@[i]@) == lowercase(genre));
    }
    assert forall|i: int, j: int|
        #![trigger options.genres@[i], options.genres@[j]]
        0 <= i < j < options.genres@.len() implies lowercase(options.genres@[i]@) != lowercase(
        options.genres@[j]@,
    ) && text_le(lowercase(options.genres@[i]@), lowercase(options.genres@[j]@)) by {
        assert(shown[i] == options.genres@[i]@ && shown[j] == options.genres@[j]@);
    }
}

/// The tags to filter by are those that projects carry, in the same way.
pub proof fn tags_offered_are_carried(
    options: LibraryFilterOptions,
    projects: Seq<Project>,
    p: int,
    tag: Seq<char>,
)
    requires
        are_options(options, projects),
    ensures
        forall|i: int|
            0 <= i < options.tags@.len() ==> exists|q: int|
                0 <= q < projects.len() && has_tag(
                    #[trigger] projects[q],
                    (#[trigger] options.tags@[i])@,
                ),
        0 <= p < projects.len() && has_tag(projects[p], tag) ==> exists|i: int|
            0 <= i < options.tags@.len() && lowercase((#[trigger] options.tags@[i])@)
                == lowercase(tag),
        forall|i: int, j: int|
            #![trigger options.tags@[i], options.tags@[j]]
            0 <= i < j < options.tags@.len() ==> lowercase(options.tags@[i]@) != lowercase(
                options.tags@[j]@,
            ) && text_le(lowercase(options.tags@[i]@), lowercase(options.tags@[j]@)),
{
    let all = all_tags(projects);
    let shown = views(options.tags@);
    keyed_lists_stand_for_values(shown, all);
    assert(forall|i: int|
        0 <= i < shown.len() ==> #[trigger] shown[i] == options.tags@[i]@);
    assert forall|i: int| 0 <= i < options.tags@.len() implies exists|q: int|
        0 <= q < projects.len() && has_tag(
            #[trigger] projects[q],
            (#[trigger] options.tags@[i])@,
        ) by {
        assert(all.contains(shown[i]));
        all_tags_are_of_projects(projects, shown[i]);
        let q = choose|q: int|
            0 <= q < projects.len() && values_of(
                views((#[trigger] projects[q]).metadata.tags@),
            ).contains(shown[i]);
        assert(has_tag(projects[q], options.tags@[i]@));
    }
    if 0 <= p < projects.len() && has_tag(projects[p], tag) {
        all_tags_are_of_projects(projects, tag);
        let k = choose|k: int| 0 <= k < all.len() && all[k] == tag;
        assert(lowercase(all[k]) == lowercase(tag));
        let i = choose|i: int|
            0 <= i < shown.len() && lowercase(#[trigger] shown[i]) == lowercase(all[k]);
        assert(lowercase(options.tags@[i]@) == lowercase(tag));
    }
    assert forall|i: int, j: int|
        #![trigger options.tags@[i], options.tags@[j]]
        0 <= i < j < options.tags@.len() implies lowercase(options.tags@[i]@) != lowercase(
        options.tags@[j]@,
    ) && text_le(lowercase(options.tags@[i]@), lowercase(options.tags@[j]@)) by {
        assert(shown[i] == options.tags@[i]@ && shown[j] == options.tags@[j]@);
    }
}

proof fn first_spelling(values: Seq<Seq<char>>, k: int)
    requires
        0 <= k < values.len(),
        forall|j: int| 0 <= j < k ==> lowercase(#[trigger] values[j]) != lowercase(values[k]),
    ensures
        spellings(values).dom().contains(lowercase(values[k])),
        spellings(values)[lowercase(values[k])] == values[k],
    decreases values.len(),
{
    let before = values.drop_last();
    assert(forall|j: int| 0 <= j < before.len() ==> #[trigger] before[j] == values[j]);
    if k < before.len() {
        assert(before[k] == values[k]);
        first_spelling(before, k);
    } else {
        assert(values[values.len() - 1] == values.last());
        spellings_are_values(before, lowercase(values[k]));
    }
}

proof fn genres_in_order(projects: Seq<Project>, p: int) -> (rest: Seq<Seq<char>>)
    requires
        0 <= p < projects.len(),
    ensures
        all_genres(projects) == all_genres(projects.take(p)) + genres_of(projects[p].metadata@)
            + rest,
    decreases projects.len(),
{
    let before = projects.drop_last();
    if p == projects.len() - 1 {
        assert(projects.take(p) =~= before);
        assert(projects[p] == projects.last());
        let all = all_genres(before) + genres_of(projects.last().metadata@);
        assert(all + Seq::<Seq<char>>::empty() =~= all);
        Seq::empty()
    } else {
        let rest = genres_in_order(before, p);
        assert(before.take(p) =~= projects.take(p));
        assert(before[p] == projects[p]);
        let own = genres_of(projects.last().metadata@);
        let head = all_genres(projects.take(p)) + genres_of(projects[p].metadata@);
        assert((head + rest) + own =~= head + (rest + own));
        rest + own
    }
}

/// A genre that projects write in several ways is offered as the first of them
/// writes it.
pub proof fn the_first_spelling_is_offered(
    options: LibraryFilterOptions,
    projects: Seq<Project>,
    p: int,
    k: int,
)
    requires
        are_options(options, projects),
        0 <= p < projects.len(),
        0 <= k < genres_of(projects[p].metadata@).len(),
        forall|q: int, genre: Seq<char>|
            0 <= q < p && #[trigger] has_genre(projects[q], genre) ==> lowercase(genre) != lowercase(
                genres_of(projects[p].metadata@)[k],
            ),
        forall|j: int|
            0 <= j < k ==> lowercase(#[trigger] genres_of(projects[p].metadata@)[j]) != lowercase(
                genres_of(projects[p].metadata@)[k],
            ),
    ensures
        exists|i: int|
            0 <= i < options.genres@.len() && (#[trigger] options.genres@[i])@ == genres_of(
                projects[p].metadata@,
            )[k],
{
    let genre = genres_of(projects[p].metadata@)[k];
    let all = all_genres(projects);
    let head = all_genres(projects.take(p));
    let rest = genres_in_order(projects, p);
    let at = head.len() + k;
    assert(all[at] == genre);
    assert forall|j: int| 0 <= j < at implies lowercase(#[trigger] all[j]) != lowercase(all[at]) by {
        if j < head.len() {
            assert(all[j] == head[j]);
            assert(head.contains(head[j]));
            all_genres_are_of_projects(projects.take(p), head[j]);
            let q = choose|q: int|
                0 <= q < projects.take(p).len() && genres_of(
                    (#[trigger] projects.take(p)[q]).metadata@,
                ).contains(head[j]);
            assert(projects.take(p)[q] == projects[q]);
            assert(has_genre(projects[q], head[j]));
        } else {
            assert(all[j] == genres_of(projects[p].metadata@)[j - head.len()]);
        }
    }
    first_spelling(all, at);
    let shown = views(options.genres@);
    let map = spellings(all);
    let keys = choose|keys: Seq<Seq<char>>| #[trigger] has_keys(shown, map, keys);
    assert(keys.contains(lowercase(genre)));
    let i = choose|i: int| 0 <= i < keys.len() && keys[i] == lowercase(genre);
    assert(shown[i] == genre);
    assert(options.genres@[i]@ == genre);
}

// ---------------------------------------------------------------------------
// Loading the library
// ---------------------------------------------------------------------------

proof fn seen_keeps_the_first_time(
    seen: Map<Seq<char>, i64>,
    projects: Seq<ReadProject>,
    now: i64,
    path: Seq<char>,
)
    ensures
        ({
            let all = seen_with_all(seen, projects, now);
            &&& all.dom().contains(path) <==> seen.dom().contains(path) || exists|i: int|
                0 <= i < projects.len() && (#[trigger] projects[i]).project.local_path@ == path
            &&& seen.dom().contains(path) ==> all[path] == seen[path]
            &&& !seen.dom().contains(path) && all.dom().contains(path) ==> all[path] == now
        }),
    decreases projects.len(),
{
    if projects.len() > 0 {
        let before = projects.drop_last();
        seen_keeps_the_first_time(seen, before, now, path);
        assert(forall|i: int| 0 <= i < before.len() ==> #[trigger] before[i] == projects[i]);
        assert(projects[projects.len() - 1] == projects.last());
        if exists|i: int|
            0 <= i < projects.len() && (#[trigger] projects[i]).project.local_path@ == path {
            let i = choose|i: int|
                0 <= i < projects.len() && (#[trigger] projects[i]).project.local_path@ == path;
            if i < before.len() {
                assert(before[i] == projects[i]);
            }
        }
    }
}

proof fn each_id_is_read(read: Seq<ReadProject>, k: int)
    requires
        0 <= k < read.len(),
    ensures
        is_read(read_once(read), read[k].project.id@),
    decreases read.len(),
{
    let before = read.drop_last();
    let rest = read_once(before);
    assert(read[read.len() - 1] == read.last());
    if k < before.len() {
        each_id_is_read(before, k);
        assert(before[k] == read[k]);
        let i = choose|i: int|
            0 <= i < rest.len() && (#[trigger] rest[i]).project.id@ == read[k].project.id@;
        assert(read_once(read)[i] == rest[i]);
    } else if !is_read(rest, read.last().project.id@) {
        assert(read_once(read)[rest.len() as int] == read.last());
    }
}

proof fn read_once_reads(read: Seq<ReadProject>, i: int) -> (k: int)
    requires
        0 <= i < read_once(read).len(),
    ensures
        0 <= k < read.len(),
        read_once(read)[i] == read[k],
        forall|l: int|
            0 <= l < k ==> (#[trigger] read[l]).project.id@ != read[k].project.id@,
    decreases read.len(),
{
    if read.len() == 0 {
        0
    } else {
        let before = read.drop_last();
        let rest = read_once(before);
        assert(forall|l: int| 0 <= l < before.len() ==> before[l] == #[trigger] read[l]);
        if i < rest.len() {
            let k = read_once_reads(before, i);
            assert(before[k] == read[k]);
            k
        } else {
            assert forall|l: int| 0 <= l < read.len() - 1 implies (#[trigger] read[l]).project.id@
                != read.last().project.id@ by {
                each_id_is_read(before, l);
                assert(before[l] == read[l]);
            }
            assert(read[read.len() - 1] == read.last());
            read.len() - 1
        }
    }
}

/// Each project of the library was read, the first time its id came up, and stands
/// there as it was read. It was added when it was first seen: that is kept where it
/// is known, and is now where it is not. The place beneath a watched folder counts
/// before the one it had.
pub proof fn a_project_was_added_when_first_seen(
    before: AppState,
    after: AppState,
    projects: Seq<Project>,
    read: Seq<ReadProject>,
    now: i64,
    i: int,
) -> (k: int)
    requires
        loads_library(before, after, projects, read, now),
        0 <= i < projects.len(),
    ensures
        0 <= k < read.len(),
        projects[i] == (Project {
            location: projects[i].location,
            added_at: projects[i].added_at,
            ..read[k].project
        }),
        forall|l: int| 0 <= l < k ==> (#[trigger] read[l]).project.id@ != read[k].project.id@,
        read[k].location is Some ==> projects[i].location == read[k].location,
        read[k].location is None ==> projects[i].location == read[k].project.location,
        ({
            let path = read[k].project.local_path@;
            projects[i].added_at == Some(
                if before.first_seen@.dom().contains(path) {
                    before.first_seen@[path]
                } else {
                    now
                },
            )
        }),
{
    let order = SortOrder::of_key(before.sort_order@);
    let list = choose|list: Seq<Project>|
        #[trigger] all_placed(list, read_once(read), after.first_seen@) && is_sorted_from(
            list,
            projects,
            order,
        );
    sorting_keeps_the_values(list, projects, order, projects[i]);
    assert(projects.contains(projects[i]));
    let m = choose|m: int| 0 <= m < list.len() && list[m] == projects[i];
    assert(list[m] == placed(read_once(read)[m], after.first_seen@));
    let k = read_once_reads(read, m);
    seen_keeps_the_first_time(
        before.first_seen@,
        read_once(read),
        now,
        read[k].project.local_path@,
    );
    k
}

/// No project that was read is left out of the library.
pub proof fn every_read_project_is_listed(
    before: AppState,
    after: AppState,
    projects: Seq<Project>,
    read: Seq<ReadProject>,
    now: i64,
    k: int,
) -> (i: int)
    requires
        loads_library(before, after, projects, read, now),
        0 <= k < read.len(),
    ensures
        0 <= i < projects.len(),
        projects[i].id@ == read[k].project.id@,
{
    let order = SortOrder::of_key(before.sort_order@);
    let once = read_once(read);
    let list = choose|list: Seq<Project>|
        #[trigger] all_placed(list, once, after.first_seen@) && is_sorted_from(
            list,
            projects,
            order,
        );
    each_id_is_read(read, k);
    let m = choose|m: int|
        0 <= m < once.len() && (#[trigger] once[m]).project.id@ == read[k].project.id@;
    assert(list[m] == placed(once[m], after.first_seen@));
    sorting_keeps_the_values(list, projects, order, list[m]);
    assert(list.contains(list[m]));
    choose|i: int| 0 <= i < projects.len() && projects[i] == list[m]
}

/// A project that two watched folders reach belongs to the one that reaches it
/// first.
pub proof fn the_first_folder_to_reach_a_project_has_it(
    on: Platform,
    roots: Seq<RootView>,
    i: int,
) -> (k: int)
    requires
        0 <= i < first_reached(on, roots).len(),
    ensures
        0 <= k < roots.len(),
        first_reached(on, roots)[i] == roots[k],
        forall|l: int| 0 <= l < k ==> !same_path(on, (#[trigger] roots[l]).0, roots[k].0),
    decreases roots.len(),
{
    if roots.len() == 0 {
        0
    } else {
        let before = roots.drop_last();
        let rest = first_reached(on, before);
        assert(forall|l: int| 0 <= l < before.len() ==> before[l] == #[trigger] roots[l]);
        if i < rest.len() {
            let k = the_first_folder_to_reach_a_project_has_it(on, before, i);
            assert(before[k] == roots[k]);
            k
        } else {
            assert forall|l: int| 0 <= l < roots.len() - 1 implies !same_path(
                on,
                (#[trigger] roots[l]).0,
                roots.last().0,
            ) by {
                crate::library::every_project_is_reached(on, before, l);
                assert(before[l] == roots[l]);
                let m = choose|m: int|
                    0 <= m < rest.len() && same_path(on, (#[trigger] rest[m]).0, roots[l].0);
                if same_path(on, roots[l].0, roots.last().0) {
                    assert(same_path(on, rest[m].0, roots.last().0));
                    assert(lists_root(on, rest, roots.last().0));
                }
            }
            assert(roots[roots.len() - 1] == roots.last());
            roots.len() - 1
        }
    }
}

/// Folders are scanned from the outside in: none comes before one that lies less
/// deep.
pub proof fn outer_folders_are_scanned_first(
    on: Platform,
    folders: Seq<ScanFolder>,
    order: Seq<ScanFolder>,
    i: int,
    j: int,
)
    requires
        is_sorted_from(folders, order, on),
        0 <= i < j < order.len(),
    ensures
        components_of(on, order[i].path@).len() <= components_of(on, order[j].path@).len(),
        order.len() == folders.len(),
{
    assert(order[i].leads(order[j], on));
}

/// The home folder is written short, and nothing else is: what follows it stays, and
/// a path elsewhere stays whole.
pub proof fn only_the_home_folder_is_shortened(path: Seq<char>, home: Seq<char>)
    ensures
        home_text(path, None) == path,
        home.is_prefix_of(path) ==> home_text(path, Some(home)).len() == 1 + path.len()
            - home.len() && home_text(path, Some(home))[0] == '~' && home + home_text(
            path,
            Some(home),
        ).skip(1) == path,
        !home.is_prefix_of(path) ==> home_text(path, Some(home)) == path,
{
    reveal_strlit("~");
    if home.is_prefix_of(path) {
        assert(home_text(path, Some(home)).skip(1) =~= path.skip(home.len() as int));
        assert(home + path.skip(home.len() as int) =~= path);
    }
}

/// Every project that a scan found is reached, at the root it owns: its folder where
/// it has one of its own, and otherwise its file.
pub proof fn every_found_project_is_reached(
    on: Platform,
    scanned: Seq<ScannedFolder>,
    f: int,
    d: int,
)
    requires
        0 <= f < scanned.len(),
        0 <= d < scanned[f].found@.len(),
    ensures
        ({
            let found = scanned[f].found@[d];
            let root = if found.owns_directory {
                found.directory@
            } else {
                found.project_file@
            };
            scanned_roots(on, scanned).contains(
                (root, crate::path::place_beneath(on, scanned[f].path@, root)),
            )
        }),
    decreases scanned.len(),
{
    let before = scanned.drop_last();
    let rest = scanned_roots(on, before);
    let last = scanned.last();
    let own = folder_roots(on, last.path@, last.found@);
    let found = scanned[f].found@[d];
    let root = found.root_text()@;
    let want = (root, crate::path::place_beneath(on, scanned[f].path@, root));
    if f < before.len() {
        assert(before[f] == scanned[f]);
        every_found_project_is_reached(on, before, f, d);
        let k = choose|k: int| 0 <= k < rest.len() && rest[k] == want;
        assert((rest + own)[k] == want);
    } else {
        assert(own[d] == want);
        assert((rest + own)[rest.len() + d] == want);
    }
}

} // verus!
