//! Providers: how they are listed, which are connected, and what reading their
//! catalogues does to the library.
use vstd::prelude::*;

use crate::catalog::{preferred_method, present_all,
    store_root, AuthHint, AuthMethod, ProviderAvailability, ProviderListing, RegistryEntry};
use crate::laws::catalogue::a_refresh_takes_out_only_the_providers_rows;
use crate::library::a_refresh_keeps_linked_projects;
use crate::manager::{connected_places, fetched_providers, folders_of, is_folder, read_errors,
    starts_with_providers, takes_over, takes_over_all, CatalogueRead, Effects,
    ProjectManager};
use crate::moment::Moment;
use crate::path::{joined_path, Platform};
use crate::order::{is_sorted_from, Ranked};
use crate::project::{Project, RemoteProjectSeed};
use crate::remote::{are_seeds_of, is_seed_of, readable, RemoteRecord};
use crate::state::AppState;
use crate::text::{lowercase, starts, text_le, views};

verus! {

// ---------------------------------------------------------------------------
// Listings
// ---------------------------------------------------------------------------

/// A listing never claims that a provider is connected, which is for the person
/// to say. One that is recommended in either way is shown so, and one on the own
/// network is shown as that.
pub proof fn a_listing_is_not_a_connection(
    listings: Seq<ProviderListing>,
    entries: Seq<RegistryEntry>,
    i: int,
)
    requires
        present_all(listings, entries),
        0 <= i < entries.len(),
    ensures
        listings.len() == entries.len(),
        listings[i].entry == entries[i],
        !(listings[i].availability is Connected),
        listings[i].availability is OnYourNetwork <==> entries[i].availability is OnYourNetwork,
        listings[i].availability is Recommended <==> entries[i].availability is Recommended || (
        entries[i].availability is Available && entries[i].recommended),
        entries[i].detail@.len() > 0 ==> listings[i].detail@ == entries[i].detail@,
        entries[i].detail@.len() == 0 && entries[i].description@.len() > 0 ==> listings[i].detail@
            == entries[i].description@,
        entries[i].detail@.len() == 0 && entries[i].description@.len() == 0
            ==> listings[i].detail@ == entries[i].endpoint@,
{
}

/// A provider is signed in to by the first way it offers that is a sign-in, and
/// without one only if it offers none.
pub proof fn the_first_sign_in_is_preferred(methods: Seq<AuthMethod>, i: int)
    requires
        0 <= i < methods.len(),
        !(methods[i] is NoAuth),
        forall|j: int| 0 <= j < i ==> #[trigger] methods[j] is NoAuth,
    ensures
        preferred_method(methods) == methods[i],
    decreases methods.len(),
{
    if i > 0 {
        assert(methods[0] is NoAuth);
        let rest = methods.drop_first();
        assert(rest[i - 1] == methods[i]);
        assert forall|j: int| 0 <= j < i - 1 implies #[trigger] rest[j] is NoAuth by {
            assert(methods[j + 1] is NoAuth);
        }
        the_first_sign_in_is_preferred(rest, i - 1);
    }
}

/// A provider that offers no sign-in needs none.
pub proof fn no_sign_in_is_preferred_without_one(methods: Seq<AuthMethod>)
    requires
        forall|j: int| 0 <= j < methods.len() ==> #[trigger] methods[j] is NoAuth,
    ensures
        preferred_method(methods) is NoAuth,
    decreases methods.len(),
{
    if methods.len() > 0 {
        assert(methods[0] is NoAuth);
        let rest = methods.drop_first();
        assert forall|j: int| 0 <= j < rest.len() implies #[trigger] rest[j] is NoAuth by {
            assert(methods[j + 1] is NoAuth);
        }
        no_sign_in_is_preferred_without_one(rest);
    }
}

/// A credential is typed into this app for a token alone: never where the browser
/// signs in, nor where nothing does.
pub proof fn only_a_token_is_typed(hint: AuthHint, method: AuthMethod)
    requires
        hint.is_for(method),
    ensures
        hint.accepts_credential <==> method is Pat,
{
}

// ---------------------------------------------------------------------------
// Connections
// ---------------------------------------------------------------------------

/// Whether an id is among those that the person connected.
pub open spec fn was_connected(connected: Seq<String>, id: Seq<char>) -> bool {
    exists|i: int| 0 <= i < connected.len() && (#[trigger] connected[i])@ == id
}

/// At the start every provider of the list, and every folder that was added, is
/// there. Connected are those that the person connected, and a listed provider
/// that they did not is as it was listed.
pub proof fn connections_are_remembered(
    on: Platform,
    providers: Seq<ProviderListing>,
    file: Seq<ProviderListing>,
    state: AppState,
    i: int,
)
    requires
        starts_with_providers(on, providers, file, state),
        0 <= i < providers.len(),
    ensures
        was_connected(state.connected_providers@, providers[i].entry.id@)
            ==> providers[i].availability is Connected,
        i < file.len() ==> providers[i].entry == file[i].entry,
        i < file.len() && !was_connected(state.connected_providers@, providers[i].entry.id@)
            ==> providers[i] == file[i],
        i >= file.len() ==> providers[i].entry.id@ == "local:"@
            + state.local_providers@[i - file.len()]@,
        i >= file.len() && !was_connected(state.connected_providers@, providers[i].entry.id@)
            ==> providers[i].availability is OnYourNetwork,
        providers.len() == file.len() + state.local_providers@.len(),
{
    if i >= file.len() {
        assert(providers[file.len() + (i - file.len())] == providers[i]);
    }
}

/// A fetched list brings every provider of the list, connected where it was before
/// or where the person connected it, and otherwise as the list has it. Of the
/// providers from before only folders stay besides.
pub proof fn a_fetch_keeps_connections_and_folders(
    catalog: Seq<ProviderListing>,
    current: Seq<ProviderListing>,
    connected: Seq<String>,
    i: int,
)
    requires
        0 <= i < fetched_providers(catalog, current, connected).len(),
    ensures
        ({
            let after = fetched_providers(catalog, current, connected);
            let was = was_connected(connected, catalog[i].entry.id@) || exists|j: int|
                0 <= j < current.len() && (#[trigger] current[j]).entry.id@ == catalog[i].entry.id@
                    && current[j].availability is Connected;
            &&& after.len() >= catalog.len()
            &&& i < catalog.len() && was ==> after[i] == (ProviderListing {
                availability: ProviderAvailability::Connected,
                ..catalog[i]
            })
            &&& i < catalog.len() && !was ==> after[i] == catalog[i]
            &&& i >= catalog.len() ==> current.contains(after[i]) && "local:"@.is_prefix_of(
                after[i].entry.id@,
            )
        }),
{
    let folders = folders_of(current);
    let after = fetched_providers(catalog, current, connected);
    if i >= catalog.len() {
        let f = |listing: ProviderListing| is_folder(listing);
        assert(after[i] == folders[i - catalog.len()]);
        assert(folders.contains(after[i]));
        current.lemma_filter_contains_rev(f, after[i]);
        assert(f(after[i]));
        assert(starts(after[i].entry.id@, "local:"@));
    }
}

/// A folder provider keeps its projects in its own corner of the folder.
pub proof fn a_folder_provider_has_its_own_corner(on: Platform, folder: Seq<char>)
    ensures
        store_root(on, folder) == joined_path(on, joined_path(on, folder, ".auru-pm"@), "projects"@),
{
}

// ---------------------------------------------------------------------------
// Reading catalogues
// ---------------------------------------------------------------------------

proof fn connected_places_are_places(list: Seq<ProviderListing>, at: int)
    requires
        list.len() <= usize::MAX,
    ensures
        0 <= at < list.len() ==> (list[at].availability is Connected <==> connected_places(
            list,
        ).contains(at as usize)),
        forall|k: int|
            0 <= k < connected_places(list).len() ==> (#[trigger] connected_places(list)[k])
                < list.len(),
        forall|k: int, l: int|
            #![trigger connected_places(list)[k], connected_places(list)[l]]
            0 <= k < l < connected_places(list).len() ==> connected_places(list)[k]
                < connected_places(list)[l],
    decreases list.len(),
{
    if list.len() > 0 {
        let before = list.drop_last();
        let rest = connected_places(before);
        let all = connected_places(list);
        let end = (list.len() - 1) as usize;
        connected_places_are_places(before, at);
        assert(forall|k: int| 0 <= k < rest.len() ==> #[trigger] all[k] == rest[k]);
        if 0 <= at < before.len() {
            assert(before[at] == list[at]);
            if rest.contains(at as usize) {
                let k = choose|k: int| 0 <= k < rest.len() && rest[k] == at as usize;
                assert(all[k] == at as usize);
            }
            if all.contains(at as usize) {
                let k = choose|k: int| 0 <= k < all.len() && all[k] == at as usize;
                assert(k < rest.len());
                assert(rest[k] == at as usize);
            }
        } else if at == list.len() - 1 {
            if all.contains(end) {
                let k = choose|k: int| 0 <= k < all.len() && all[k] == end;
                if k < rest.len() {
                    assert(rest[k] == end);
                }
            } else if list.last().availability is Connected {
                assert(all[rest.len() as int] == end);
            }
        }
    }
}

/// A refresh asks each connected provider, once and no other, and never while one is
/// under way: it is then made up for afterwards.
pub proof fn a_refresh_asks_the_connected(
    manager: ProjectManager,
    after: ProjectManager,
    reads: Seq<usize>,
    at: int,
)
    requires
        manager.refreshes(after, reads),
        0 <= at < manager.providers@.len(),
    ensures
        manager.remote_refreshing ==> reads.len() == 0 && after.remote_refresh_pending
            && after.remote_refreshing,
        !manager.remote_refreshing ==> (reads.contains(at as usize)
            <==> manager.providers@[at].availability is Connected),
        !manager.remote_refreshing ==> (after.remote_refreshing <==> reads.len() > 0),
        reads.no_duplicates(),
        after.projects == manager.projects,
        after.providers == manager.providers,
        after.state == manager.state,
        reads.len() > 0 ==> !after.remote_refresh_pending,
{
    let list = manager.providers@;
    assert(manager.providers.len() == list.len());
    connected_places_are_places(list, at);
    assert forall|k: int, l: int|
        0 <= k < reads.len() && 0 <= l < reads.len() && k != l implies reads[k] != reads[l] by {
        if !manager.remote_refreshing && connected_places(list).len() > 0 {
            if k < l {
                assert(connected_places(list)[k] < connected_places(list)[l]);
            } else {
                assert(connected_places(list)[l] < connected_places(list)[k]);
            }
        }
    }
    if !manager.remote_refreshing && list[at].availability is Connected {
        assert(connected_places(list).contains(at as usize));
    }
}

/// A provider that could not be read leaves the library as it is.
pub proof fn an_unread_provider_changes_nothing(
    before: Seq<Project>,
    read: CatalogueRead,
    after: Seq<Project>,
    now: Moment,
)
    requires
        takes_over(before, read, after, now),
        read.catalogue is Err,
    ensures
        after == before,
{
}

/// No reading of any provider takes a project on this computer out of the library,
/// or changes more of it than its labels and its place.
pub proof fn projects_here_outlive_every_reading(
    before: Seq<Project>,
    reads: Seq<CatalogueRead>,
    after: Seq<Project>,
    now: Moment,
    i: int,
) -> (at: int)
    requires
        takes_over_all(before, reads, after, now),
        0 <= i < before.len(),
        before[i].live_set is Some,
    ensures
        0 <= at < after.len(),
        after[at] == (Project {
            metadata: after[at].metadata,
            location: after[at].location,
            ..before[i]
        }),
        before[i].location is Some ==> after[at].location == before[i].location,
    decreases reads.len(),
{
    if reads.len() == 0 {
        i
    } else {
        let last = reads.last();
        let middle = choose|middle: Seq<Project>|
            takes_over_all(before, reads.drop_last(), middle, now) && #[trigger] takes_over(
                middle,
                last,
                after,
                now,
            );
        let at = projects_here_outlive_every_reading(before, reads.drop_last(), middle, now, i);
        match last.catalogue {
            Err(_) => at,
            Ok(catalogue) => {
                let rest = crate::library::without_rows(middle, last.provider_id@);
                assert(middle.contains(middle[at]));
                a_refresh_takes_out_only_the_providers_rows(
                    middle,
                    last.provider_id@,
                    middle[at],
                );
                let k = choose|k: int| 0 <= k < rest.len() && rest[k] == middle[at];
                a_refresh_keeps_linked_projects(rest, catalogue.projects@, after, now, k);
                k
            },
        }
    }
}

/// What went wrong is said: there is a message exactly if a provider could not be
/// read, or one of its projects could not, and the message of a provider that could
/// not be read is its own.
pub proof fn every_failed_reading_is_told(reads: Seq<CatalogueRead>)
    ensures
        read_errors(reads).len() == 0 <==> forall|i: int|
            0 <= i < reads.len() ==> (#[trigger] reads[i]).catalogue is Ok
                && reads[i].catalogue->Ok_0.unavailable == 0,
        read_errors(reads).len() <= reads.len(),
        forall|i: int|
            0 <= i < reads.len() && (#[trigger] reads[i]).catalogue is Err ==> read_errors(
                reads,
            ).contains(reads[i].catalogue->Err_0@),
    decreases reads.len(),
{
    if reads.len() > 0 {
        let before = reads.drop_last();
        let rest = read_errors(before);
        let all = read_errors(reads);
        every_failed_reading_is_told(before);
        assert(forall|i: int| 0 <= i < before.len() ==> before[i] == #[trigger] reads[i]);
        assert(forall|i: int| 0 <= i < before.len() ==> #[trigger] before[i] == reads[i]);
        assert(reads[reads.len() - 1] == reads.last());
        assert(forall|k: int| 0 <= k < rest.len() ==> #[trigger] all[k] == rest[k]);
        assert forall|i: int|
            0 <= i < reads.len() && (#[trigger] reads[i]).catalogue is Err implies all.contains(
            reads[i].catalogue->Err_0@,
        ) by {
            if i < before.len() {
                assert(rest.contains(before[i].catalogue->Err_0@));
                let k = choose|k: int|
                    0 <= k < rest.len() && rest[k] == before[i].catalogue->Err_0@;
                assert(all[k] == rest[k]);
            } else {
                assert(all[rest.len() as int] == reads[i].catalogue->Err_0@);
            }
        }
    }
}

// ---------------------------------------------------------------------------
// Connecting
// ---------------------------------------------------------------------------

/// Connecting a provider connects it and no other, and it is remembered. The first
/// one that is connected becomes the one that projects go to; a later one does not.
pub proof fn connecting_connects_one(
    manager: ProjectManager,
    index: int,
    after: ProjectManager,
    i: int,
)
    requires
        manager.connects(index, after),
        0 <= index < manager.providers@.len(),
        0 <= i < manager.providers@.len(),
    ensures
        ({
            let id = manager.providers@[index].entry.id@;
            &&& after.providers@.len() == manager.providers@.len()
            &&& after.providers@[index].availability is Connected
            &&& after.providers@[i].entry == manager.providers@[i].entry
            &&& i != index ==> after.providers@[i] == manager.providers@[i]
            &&& was_connected(after.state.connected_providers@, id)
            &&& forall|other: Seq<char>| #[trigger]
                was_connected(manager.state.connected_providers@, other) ==> was_connected(
                    after.state.connected_providers@,
                    other,
                )
            &&& manager.state.primary_provider is None ==> after.state.primary_provider is Some
                && after.state.primary_provider->0@ == id
            &&& manager.state.primary_provider matches Some(primary)
                ==> after.state.primary_provider is Some && after.state.primary_provider->0@
                == primary@
            &&& after.projects == manager.projects
        }),
{
    let id = manager.providers@[index].entry.id@;
    let before = manager.state.connected_providers@;
    let now = after.state.connected_providers@;
    assert(views(now).len() == now.len() && views(before).len() == before.len());
    assert forall|other: Seq<char>| #[trigger] was_connected(before, other) implies was_connected(
        now,
        other,
    ) by {
        let k = choose|k: int| 0 <= k < before.len() && (#[trigger] before[k])@ == other;
        assert(views(now)[k] == views(before)[k]);
        assert(now[k]@ == other);
    }
    if crate::text::holds_text(before, id) {
        assert(was_connected(before, id));
    } else {
        assert(views(now)[before.len() as int] == id);
        assert(now[before.len() as int]@ == id);
    }
}

// ---------------------------------------------------------------------------
// What a provider lists
// ---------------------------------------------------------------------------

/// A project of a provider can be listed if it can be opened and its kind is known,
/// from its profile or else from what was backed up.
pub proof fn readable_projects_have_a_kind(record: RemoteRecord)
    ensures
        record.is_readable() <==> record.opened && (record.profile is Some
            || record.snapshot_format is Some),
{
}

/// A listing says what the provider says: the project's name is the one in its
/// profile, or else its handle there, and its version is the provider's.
pub proof fn a_listing_says_what_the_provider_says(
    seed: RemoteProjectSeed,
    record: RemoteRecord,
    listing: ProviderListing,
)
    requires
        is_seed_of(seed, record, listing),
    ensures
        seed.provider_id@ == listing.entry.id@,
        seed.handle@ == record.handle@,
        seed.head == record.head,
        seed.updated_at == record.updated_at,
        record.profile matches Some(profile) ==> seed.name@ == profile.display_name@ && seed.format
            == profile.format && seed.metadata == profile.metadata && seed.location
            == profile.location,
        record.profile is None ==> seed.name@ == record.handle@ && seed.location is None && Some(
            seed.format,
        ) == record.snapshot_format,
{
}

/// What was backed up last is listed first, and of what was backed up together the
/// names come in their order, whatever their case.
pub proof fn the_latest_project_is_listed_first(
    seeds: Seq<RemoteProjectSeed>,
    sorted: Seq<RemoteProjectSeed>,
    i: int,
    j: int,
)
    requires
        is_sorted_from(seeds, sorted, ()),
        0 <= i < j < sorted.len(),
    ensures
        sorted[i].updated_at >= sorted[j].updated_at,
        sorted[i].updated_at == sorted[j].updated_at ==> text_le(
            lowercase(sorted[i].name@),
            lowercase(sorted[j].name@),
        ),
{
    assert(sorted[i].leads(sorted[j], ()));
}

/// What cannot be read is not listed, and what can be is: of each project that can
/// be, the listing has one entry, and each entry is of one.
pub proof fn readable_projects_are_listed(
    records: Seq<RemoteRecord>,
    seeds: Seq<RemoteProjectSeed>,
    listing: ProviderListing,
    i: int,
)
    requires
        are_seeds_of(seeds, readable(records), listing),
        0 <= i < records.len(),
    ensures
        seeds.len() <= records.len(),
        records[i].opened && (records[i].profile is Some || records[i].snapshot_format is Some)
            ==> exists|k: int|
            0 <= k < seeds.len() && (#[trigger] seeds[k]).handle@ == records[i].handle@
                && seeds[k].head == records[i].head,
        forall|k: int|
            0 <= k < seeds.len() ==> exists|j: int|
                0 <= j < records.len() && (#[trigger] records[j]).opened && records[j].handle@ == (
                #[trigger] seeds[k]).handle@,
{
    let kept = readable(records);
    let p = |record: RemoteRecord| record.is_readable();
    records.lemma_filter_len(p);
    if records[i].is_readable() {
        records.lemma_filter_contains(p, i);
        assert(kept.contains(records[i]));
        let k = choose|k: int| 0 <= k < kept.len() && kept[k] == records[i];
        assert(is_seed_of(seeds[k], kept[k], listing));
    }
    assert forall|k: int| 0 <= k < seeds.len() implies exists|j: int|
        0 <= j < records.len() && (#[trigger] records[j]).opened && records[j].handle@ == (
        #[trigger] seeds[k]).handle@ by {
        assert(is_seed_of(seeds[k], kept[k], listing));
        records.lemma_filter_pred(p, k);
        assert(p(kept[k]));
        assert(records.filter(p).contains(kept[k]));
        records.lemma_filter_contains_rev(p, kept[k]);
        let j = choose|j: int| 0 <= j < records.len() && records[j] == kept[k];
        assert(records[j].opened);
    }
}

/// A folder that is chosen to back up into is connected at once, is remembered, and
/// is listed once: choosing it again replaces it. The provider that projects go to
/// stays, if there is one.
pub proof fn a_chosen_folder_is_connected(
    manager: ProjectManager,
    path: Seq<char>,
    after: ProjectManager,
    effects: Effects,
    i: int,
)
    requires
        manager.takes_folder(path, after, effects),
        0 <= i < manager.providers@.len(),
    ensures
        ({
            let id = "local:"@ + path;
            &&& exists|k: int|
                0 <= k < after.providers@.len() && (#[trigger] after.providers@[k]).entry.id@ == id
                    && after.providers@[k].availability is Connected
            &&& manager.providers@[i].entry.id@ != id ==> after.providers@[i]
                == manager.providers@[i]
            &&& after.providers@.len() == manager.providers@.len() <==> exists|k: int|
                0 <= k < manager.providers@.len() && (#[trigger] manager.providers@[k]).entry.id@
                    == id
            &&& was_connected(after.state.connected_providers@, id)
            &&& manager.state.primary_provider matches Some(primary)
                ==> after.state.primary_provider is Some && after.state.primary_provider->0@
                == primary@
            &&& manager.state.primary_provider is None ==> after.state.primary_provider is Some
                && after.state.primary_provider->0@ == id
            &&& effects.save
            &&& after.projects == manager.projects
        }),
{
    let id = "local:"@ + path;
    let before = manager.providers@;
    crate::laws::backup::provider_index_is_first(before, id);
    let at = crate::catalog::provider_index(before, id);
    assert(after.providers@[at].entry.id@ == id);
    let known = manager.state.connected_providers@;
    let now = after.state.connected_providers@;
    assert(views(now).len() == now.len() && views(known).len() == known.len());
    if crate::text::holds_text(known, id) {
        let k = choose|k: int| 0 <= k < known.len() && (#[trigger] known[k])@ == id;
        assert(views(now)[k] == views(known)[k]);
        assert(now[k]@ == id);
    } else {
        assert(views(now)[known.len() as int] == id);
        assert(now[known.len() as int]@ == id);
    }
}

/// Signing in ends with the provider connected, and no other, and is then over.
pub proof fn signing_in_ends_connected(
    manager: ProjectManager,
    index: int,
    after: ProjectManager,
    effects: Effects,
    i: int,
)
    requires
        manager.ends_auth(index, after, effects),
        0 <= index < manager.providers@.len(),
        0 <= i < manager.providers@.len(),
    ensures
        after.providers@[index].availability is Connected,
        i != index ==> after.providers@[i] == manager.providers@[i],
        after.auth_phase is Ready,
        after.overlay.overlay is Hidden,
        effects.save,
        was_connected(after.state.connected_providers@, manager.providers@[index].entry.id@),
        after.projects == manager.projects,
{
    let left = ProjectManager {
        auth_phase: crate::navigation::AuthPhase::Ready,
        overlay: crate::navigation::OverlayState {
            overlay: crate::navigation::Overlay::Hidden,
            ..manager.overlay
        },
        ..manager
    };
    let connected = ProjectManager { providers: after.providers, state: after.state, ..left };
    connecting_connects_one(left, index, connected, i);
}

} // verus!
