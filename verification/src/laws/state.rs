//! What is kept between runs.
use vstd::prelude::*;

use crate::laws::text::same_but_case;
use crate::path::{components_of, is_beneath, lists_path, same_path, Platform};
use crate::state::{aliases_with, aliases_without, alias_index, alias_key, config_folder, covered,
    loads, removed_aliases_are_gone, seen_with, with_path, AppState, Environment,
    LoadedState, StateFile};
use crate::text::{optional_view, trim_end_of, trimmed, Class};

verus! {

/// Whether two paths name the same place: they have the same components.
pub open spec fn name_the_same(on: Platform, a: Seq<char>, b: Seq<char>) -> bool {
    components_of(on, a) == components_of(on, b)
}

/// A path that is recorded stands in the list from then on, and everything that
/// stood there before stays where it was. It is added only if no path there names
/// the same place.
pub proof fn recording_a_path_adds_it_once(on: Platform, list: Seq<String>, path: Seq<char>)
    ensures
        ({
            let after = with_path(on, list, path);
            &&& exists|i: int| 0 <= i < after.len() && name_the_same(on, #[trigger] after[i], path)
            &&& after.len() <= list.len() + 1
            &&& forall|i: int| 0 <= i < list.len() ==> #[trigger] after[i] == list[i]@
            &&& after.len() == list.len() <==> exists|i: int|
                0 <= i < list.len() && name_the_same(on, (#[trigger] list[i])@, path)
            &&& after.len() > list.len() ==> after.last() == path
        }),
{
    let after = with_path(on, list, path);
    if lists_path(on, list, path) {
        let i = choose|i: int| 0 <= i < list.len() && same_path(on, (#[trigger] list[i])@, path);
        assert(name_the_same(on, list[i]@, path));
        assert(after[i] == list[i]@);
    } else {
        assert(after[list.len() as int] == path);
        assert forall|i: int| 0 <= i < list.len() implies !name_the_same(
            on,
            (#[trigger] list[i])@,
            path,
        ) by {
            assert(!same_path(on, list[i]@, path));
        }
    }
}

/// A place is watched if a watched folder is it, or lies above it: the folder's
/// components begin its own.
pub proof fn watched_places_lie_in_watched_folders(
    on: Platform,
    folders: Seq<String>,
    root: Seq<char>,
)
    ensures
        covered(on, folders, root) <==> exists|i: int|
            0 <= i < folders.len() && components_of(on, (#[trigger] folders[i])@).len()
                <= components_of(on, root).len() && components_of(on, root).take(
                components_of(on, folders[i]@).len() as int,
            ) == components_of(on, folders[i]@),
{
    assert forall|i: int| 0 <= i < folders.len() implies is_beneath(
        on,
        root,
        (#[trigger] folders[i])@,
    ) == (components_of(on, folders[i]@).len() <= components_of(on, root).len() && components_of(
        on,
        root,
    ).take(components_of(on, folders[i]@).len() as int) == components_of(on, folders[i]@)) by {
        let outer = components_of(on, folders[i]@);
        let inner = components_of(on, root);
        if outer.len() <= inner.len() {
            assert(inner.take(outer.len() as int) =~= inner.subrange(0, outer.len() as int));
        }
    }
}

/// A project's first sighting is kept: a later one does not replace it, and no
/// other project's changes it.
pub proof fn a_first_sighting_stays(
    seen: Map<Seq<char>, i64>,
    root: Seq<char>,
    now: i64,
    other: Seq<char>,
)
    ensures
        seen_with(seen, root, now).dom().contains(root),
        seen.dom().contains(root) ==> seen_with(seen, root, now)[root] == seen[root],
        !seen.dom().contains(root) ==> seen_with(seen, root, now)[root] == now,
        other != root ==> seen_with(seen, root, now).dom().contains(other)
            == seen.dom().contains(other),
        other != root && seen.dom().contains(other) ==> seen_with(seen, root, now)[other]
            == seen[other],
{
}

/// A path mapping holds from when it is set: the prefix, without white space and
/// separators at its ends, leads where it was set to. A prefix of nothing else is
/// not set. Mappings of other prefixes stay.
pub proof fn a_mapping_that_is_set_holds(
    list: Seq<(Seq<char>, Seq<char>)>,
    from: Seq<char>,
    to: Seq<char>,
)
    ensures
        ({
            let after = aliases_with(list, from, to);
            let key = trim_end_of(Class::Slash, trimmed(from));
            &&& key.len() == 0 ==> after == list
            &&& key.len() > 0 ==> after.contains((key, to))
            &&& list.len() <= after.len() <= list.len() + 1
            &&& forall|i: int|
                0 <= i < list.len() && !same_but_case(
                    trim_end_of(Class::Slash, (#[trigger] list[i]).0),
                    key,
                ) ==> after[i] == list[i]
            &&& after.len() > list.len() ==> forall|i: int|
                0 <= i < list.len() ==> !same_but_case(
                    trim_end_of(Class::Slash, (#[trigger] list[i]).0),
                    key,
                )
        }),
{
    let after = aliases_with(list, from, to);
    let key = alias_key(from);
    let at = alias_index(list, key);
    alias_index_is_first_same(list, key);
    if key.len() > 0 {
        if at < list.len() {
            assert(after[at] == (key, to));
        } else {
            assert(after[list.len() as int] == (key, to));
        }
    }
}

proof fn alias_index_is_first_same(list: Seq<(Seq<char>, Seq<char>)>, key: Seq<char>)
    ensures
        0 <= alias_index(list, key) <= list.len(),
        forall|i: int|
            0 <= i < alias_index(list, key) ==> !same_but_case(
                trim_end_of(Class::Slash, (#[trigger] list[i]).0),
                key,
            ),
        alias_index(list, key) < list.len() ==> same_but_case(
            trim_end_of(Class::Slash, list[alias_index(list, key)].0),
            key,
        ),
    decreases list.len(),
{
    if list.len() > 0 {
        let before = list.drop_last();
        alias_index_is_first_same(before, key);
        crate::laws::text::ignoring_case_is_being_the_same_but_case(
            trim_end_of(Class::Slash, list.last().0),
            key,
        );
        assert(forall|i: int| 0 <= i < before.len() ==> before[i] == #[trigger] list[i]);
        assert(list[list.len() - 1] == list.last());
    }
}

/// A mapping that is removed is gone, in whatever case it was written, and every
/// other stays.
pub proof fn a_mapping_that_is_removed_is_gone(
    list: Seq<(Seq<char>, Seq<char>)>,
    key: Seq<char>,
    alias: (Seq<char>, Seq<char>),
)
    ensures
        aliases_without(list, key).contains(alias) <==> list.contains(alias) && !same_but_case(
            trim_end_of(Class::Slash, alias.0),
            key,
        ),
{
    removed_aliases_are_gone(list, key, alias);
    crate::laws::text::ignoring_case_is_being_the_same_but_case(
        trim_end_of(Class::Slash, alias.0),
        key,
    );
}

/// What was kept is loaded as it was. A file that cannot be understood, or comes
/// from a newer version, is not: everything then starts anew, and the person is told.
/// Without a file everything starts anew and there is nothing to tell.
pub proof fn what_was_kept_is_loaded(path: Seq<char>, file: StateFile, loaded: LoadedState)
    requires
        loads(path, file, loaded),
    ensures
        optional_view(loaded.state.origin) == Some(path),
        file matches StateFile::Parsed(state) ==> (state.schema <= 1 <==> loaded.warning is None),
        file matches StateFile::Parsed(state) ==> (state.schema <= 1 ==> loaded.state == (AppState {
            origin: loaded.state.origin,
            ..state
        })),
        file is Malformed ==> loaded.warning is Some,
        file is Unreadable ==> loaded.warning is None,
        !(file matches StateFile::Parsed(state) && state.schema <= 1) ==> {
            &&& !loaded.state.onboarding_complete
            &&& loaded.state.automatic_backups
            &&& loaded.state.verify_uploads
            &&& loaded.state.version_retention@ == "everything"@
            &&& loaded.state.sort_order@ == "attention"@
            &&& loaded.state.appearance@ == "night"@
            &&& loaded.state.projects@.len() == 0
            &&& loaded.state.watched_folders@.len() == 0
            &&& loaded.state.connected_providers@.len() == 0
            &&& loaded.state.primary_provider is None
        },
{
}

/// The settings folder is the system's own: nowhere is it where the system says
/// nothing, and each system's variable alone decides.
pub proof fn settings_lie_where_the_system_says(environment: Environment)
    ensures
        environment.platform is Windows ==> (config_folder(environment) is Some
            <==> environment.app_data is Some),
        environment.platform is MacOs ==> (config_folder(environment) is Some
            <==> environment.home is Some),
        environment.platform is Other ==> (config_folder(environment) is Some
            <==> environment.xdg_config_home is Some || environment.home is Some),
        environment.platform is Other && environment.xdg_config_home is Some ==> config_folder(
            environment,
        ) == config_folder(Environment { home: None, ..environment }),
{
}

} // verus!
