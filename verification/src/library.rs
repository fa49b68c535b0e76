//! The library: finding projects, listing them, and putting them in order.
use std::cmp::Ordering;
use vstd::prelude::*;

use crate::format::{genres_of, location_view, portable_project_location, ProjectLocation};
use crate::moment::Moment;
use crate::order::{is_sorted_from, sorts, stable_sort, Ranked};
use crate::path::{components, components_of, file_name, name_of, place_beneath, same_path, Platform};
use crate::project::{Project, RemoteProjectSeed};
use crate::sizes::{bytes_text, format_bytes};
use crate::state::{seen_with, AppState};
use crate::text::{after_prefix, at_or_before, lowercase, optional_view, same, starts, text_le,
    text_le_antisymmetric, text_le_total, text_le_transitive, trimmed_texts, values_of, views};
use crate::text_map::{has_key, listed_entry, TextMap};

verus! {

// ---------------------------------------------------------------------------
// Order
// ---------------------------------------------------------------------------

/// How the sidebar orders the library.
///
/// Every order is a total one: each falls back to name, and then to the
/// project's place, so that rows never move because two projects tie.
#[derive(Clone, Copy, Debug, PartialEq, Eq, Structural)]
pub enum SortOrder {
    /// Anything needing a person's attention first, then alphabetically.
    AttentionRequired,
    /// Most recently saved in the DAW first.
    LastModifiedLocal,
    /// Most recently backed up first.
    LastModifiedRemote,
    NameAscending,
    /// Most recently added to Auru first.
    RecentlyAdded,
}

impl Default for SortOrder {
    fn default() -> (r: Self)
        ensures
            r is AttentionRequired,
    {
        SortOrder::AttentionRequired
    }
}

impl SortOrder {
    /// In the order they appear in the menu.
    pub const ALL: [SortOrder; 5] = [
        SortOrder::LastModifiedLocal,
        SortOrder::LastModifiedRemote,
        SortOrder::NameAscending,
        SortOrder::RecentlyAdded,
        SortOrder::AttentionRequired,
    ];

    pub open spec fn label_text(self) -> Seq<char> {
        match self {
            SortOrder::LastModifiedLocal => "Last Modified (Local)"@,
            SortOrder::LastModifiedRemote => "Last Modified (Remote)"@,
            SortOrder::NameAscending => "Name"@,
            SortOrder::RecentlyAdded => "Recently Added"@,
            SortOrder::AttentionRequired => "Attention Required"@,
        }
    }

    pub fn label(self) -> (r: &'static str)
        ensures
            r@ == self.label_text(),
    {
        match self {
            SortOrder::LastModifiedLocal => "Last Modified (Local)",
            SortOrder::LastModifiedRemote => "Last Modified (Remote)",
            SortOrder::NameAscending => "Name",
            SortOrder::RecentlyAdded => "Recently Added",
            SortOrder::AttentionRequired => "Attention Required",
        }
    }

    pub open spec fn short_text(self) -> Seq<char> {
        match self {
            SortOrder::LastModifiedLocal => "MODIFIED"@,
            SortOrder::LastModifiedRemote => "BACKED UP"@,
            SortOrder::NameAscending => "NAME"@,
            SortOrder::RecentlyAdded => "ADDED"@,
            SortOrder::AttentionRequired => "ATTENTION"@,
        }
    }

    /// Short form for the sidebar header.
    pub fn short_label(self) -> (r: &'static str)
        ensures
            r@ == self.short_text(),
    {
        match self {
            SortOrder::LastModifiedLocal => "MODIFIED",
            SortOrder::LastModifiedRemote => "BACKED UP",
            SortOrder::NameAscending => "NAME",
            SortOrder::RecentlyAdded => "ADDED",
            SortOrder::AttentionRequired => "ATTENTION",
        }
    }

    pub open spec fn key_text(self) -> Seq<char> {
        match self {
            SortOrder::LastModifiedLocal => "modified-local"@,
            SortOrder::LastModifiedRemote => "modified-remote"@,
            SortOrder::NameAscending => "name"@,
            SortOrder::RecentlyAdded => "recently-added"@,
            SortOrder::AttentionRequired => "attention"@,
        }
    }

    /// The key persisted in the state file, spelled out so that renaming a
    /// variant cannot reset a saved preference.
    pub fn key(self) -> (r: &'static str)
        ensures
            r@ == self.key_text(),
    {
        match self {
            SortOrder::LastModifiedLocal => "modified-local",
            SortOrder::LastModifiedRemote => "modified-remote",
            SortOrder::NameAscending => "name",
            SortOrder::RecentlyAdded => "recently-added",
            SortOrder::AttentionRequired => "attention",
        }
    }

    /// The order a key stands for; an unknown one stands for the default.
    pub open spec fn of_key(key: Seq<char>) -> SortOrder {
        if key == SortOrder::LastModifiedLocal.key_text() {
            SortOrder::LastModifiedLocal
        } else if key == SortOrder::LastModifiedRemote.key_text() {
            SortOrder::LastModifiedRemote
        } else if key == SortOrder::NameAscending.key_text() {
            SortOrder::NameAscending
        } else if key == SortOrder::RecentlyAdded.key_text() {
            SortOrder::RecentlyAdded
        } else {
            SortOrder::AttentionRequired
        }
    }

    /// Read a persisted key. A preference is not worth refusing to start over.
    pub fn from_key(key: &str) -> (r: Self)
        ensures
            r == Self::of_key(key@),
    {
        if same(key, SortOrder::LastModifiedLocal.key()) {
            SortOrder::LastModifiedLocal
        } else if same(key, SortOrder::LastModifiedRemote.key()) {
            SortOrder::LastModifiedRemote
        } else if same(key, SortOrder::NameAscending.key()) {
            SortOrder::NameAscending
        } else if same(key, SortOrder::RecentlyAdded.key()) {
            SortOrder::RecentlyAdded
        } else {
            SortOrder::AttentionRequired
        }
    }
}

/// A saved sort order is read back as the order that was saved.
pub proof fn sort_order_survives_its_key(order: SortOrder)
    ensures
        SortOrder::of_key(order.key_text()) == order,
{
    reveal_strlit("modified-local");
    reveal_strlit("modified-remote");
    reveal_strlit("name");
    reveal_strlit("recently-added");
    reveal_strlit("attention");
    assert("modified-local"@.len() == 14);
    assert("modified-remote"@.len() == 15);
    assert("name"@.len() == 4);
    assert("recently-added"@.len() == 14);
    assert("attention"@.len() == 9);
    assert("modified-local"@[0] != "recently-added"@[0]);
}

/// Newest first, with unknown times last.
pub open spec fn newest_order(left: Option<Moment>, right: Option<Moment>) -> Ordering {
    match (left, right) {
        (Some(left), Some(right)) => if left.nanos > right.nanos {
            Ordering::Less
        } else if left.nanos < right.nanos {
            Ordering::Greater
        } else {
            Ordering::Equal
        },
        (Some(_), None) => Ordering::Less,
        (None, Some(_)) => Ordering::Greater,
        (None, None) => Ordering::Equal,
    }
}

/// Newest first, with unknown times last: not to know a time is not the same
/// as long ago.
pub fn newest_first(left: Option<Moment>, right: Option<Moment>) -> (r: Ordering)
    ensures
        r == newest_order(left, right),
{
    match (left, right) {
        (Some(left), Some(right)) => {
            if left.nanos > right.nanos {
                Ordering::Less
            } else if left.nanos < right.nanos {
                Ordering::Greater
            } else {
                Ordering::Equal
            }
        },
        (Some(_), None) => Ordering::Less,
        (None, Some(_)) => Ordering::Greater,
        (None, None) => Ordering::Equal,
    }
}

/// What an order looks at first.
pub open spec fn first_look(left: Project, right: Project, order: SortOrder) -> Ordering {
    match order {
        SortOrder::AttentionRequired => if left.status.wants_attention()
            == right.status.wants_attention() {
            Ordering::Equal
        } else if left.status.wants_attention() {
            Ordering::Less
        } else {
            Ordering::Greater
        },
        SortOrder::LastModifiedLocal => newest_order(left.modified_at, right.modified_at),
        SortOrder::LastModifiedRemote => newest_order(left.backed_up_at, right.backed_up_at),
        SortOrder::NameAscending => Ordering::Equal,
        SortOrder::RecentlyAdded => match (left.added_at, right.added_at) {
            (Some(left), Some(right)) => if left > right {
                Ordering::Less
            } else if left < right {
                Ordering::Greater
            } else {
                Ordering::Equal
            },
            (Some(_), None) => Ordering::Less,
            (None, Some(_)) => Ordering::Greater,
            (None, None) => Ordering::Equal,
        },
    }
}

/// The order by name, whatever its case, and then by place.
pub open spec fn name_leads(left: Project, right: Project) -> bool {
    let a = lowercase(left.name@);
    let b = lowercase(right.name@);
    if a != b {
        text_le(a, b)
    } else {
        text_le(left.local_path@, right.local_path@)
    }
}

fn compare_first(left: &Project, right: &Project, order: SortOrder) -> (r: Ordering)
    ensures
        r == first_look(*left, *right, order),
{
    match order {
        SortOrder::AttentionRequired => {
            let a = left.status.needs_attention();
            let b = right.status.needs_attention();
            if a == b {
                Ordering::Equal
            } else if a {
                Ordering::Less
            } else {
                Ordering::Greater
            }
        },
        SortOrder::LastModifiedLocal => newest_first(left.modified_at, right.modified_at),
        SortOrder::LastModifiedRemote => newest_first(left.backed_up_at, right.backed_up_at),
        SortOrder::NameAscending => Ordering::Equal,
        SortOrder::RecentlyAdded => match (left.added_at, right.added_at) {
            (Some(left), Some(right)) => {
                if left > right {
                    Ordering::Less
                } else if left < right {
                    Ordering::Greater
                } else {
                    Ordering::Equal
                }
            },
            (Some(_), None) => Ordering::Less,
            (None, Some(_)) => Ordering::Greater,
            (None, None) => Ordering::Equal,
        },
    }
}

fn compare_names(left: &Project, right: &Project) -> (r: bool)
    ensures
        r == name_leads(*left, *right),
{
    let a = left.name.as_str().to_lowercase();
    let b = right.name.as_str().to_lowercase();
    if !same(a.as_str(), b.as_str()) {
        at_or_before(a.as_str(), b.as_str())
    } else {
        at_or_before(left.local_path.as_str(), right.local_path.as_str())
    }
}

impl Ranked<SortOrder> for Project {
    open spec fn leads(self, other: Self, by: SortOrder) -> bool {
        match first_look(self, other, by) {
            Ordering::Less => true,
            Ordering::Greater => false,
            Ordering::Equal => name_leads(self, other),
        }
    }

    proof fn leads_total(a: Self, b: Self, by: SortOrder) {
        text_le_total(lowercase(a.name@), lowercase(b.name@));
        text_le_total(a.local_path@, b.local_path@);
    }

    proof fn leads_transitive(a: Self, b: Self, c: Self, by: SortOrder) {
        let x = lowercase(a.name@);
        let y = lowercase(b.name@);
        let z = lowercase(c.name@);
        if text_le(x, y) && text_le(y, z) {
            text_le_transitive(x, y, z);
            if x == z && x != y {
                text_le_antisymmetric(x, y);
            }
        }
        if text_le(a.local_path@, b.local_path@) && text_le(b.local_path@, c.local_path@) {
            text_le_transitive(a.local_path@, b.local_path@, c.local_path@);
        }
    }

    fn at_or_before(&self, other: &Self, by: &SortOrder) -> (r: bool) {
        match compare_first(self, other, *by) {
            Ordering::Less => true,
            Ordering::Greater => false,
            Ordering::Equal => compare_names(self, other),
        }
    }
}

/// Put `projects` in the requested order.
pub fn sort_projects(projects: &mut Vec<Project>, order: SortOrder)
    ensures
        is_sorted_from(old(projects)@, final(projects)@, order),
{
    stable_sort(projects, &order);
}

/// Under every order, two projects tie only if they have the same name and the
/// same place: the list cannot reshuffle.
pub proof fn every_order_is_total(a: Project, b: Project, order: SortOrder)
    requires
        a.leads(b, order),
        b.leads(a, order),
    ensures
        lowercase(a.name@) == lowercase(b.name@),
        a.local_path@ == b.local_path@,
{
    if lowercase(a.name@) != lowercase(b.name@) {
        text_le_antisymmetric(lowercase(a.name@), lowercase(b.name@));
    }
    text_le_antisymmetric(a.local_path@, b.local_path@);
}

/// Where attention comes first, no project that asks for none stands before
/// one that does.
pub proof fn attention_comes_first(list: Seq<Project>, i: int, j: int)
    requires
        crate::order::in_order(list, SortOrder::AttentionRequired),
        0 <= i < j < list.len(),
        list[j].status.wants_attention(),
    ensures
        list[i].status.wants_attention(),
{
    assert(list[i].leads(list[j], SortOrder::AttentionRequired));
}

/// Where the newest comes first, a project whose time is not known stands
/// behind every project whose time is.
pub proof fn unknown_times_come_last(list: Seq<Project>, i: int, j: int)
    requires
        crate::order::in_order(list, SortOrder::LastModifiedRemote),
        0 <= i < j < list.len(),
        list[j].backed_up_at is Some,
    ensures
        list[i].backed_up_at is Some,
        list[i].backed_up_at->Some_0.nanos >= list[j].backed_up_at->Some_0.nanos,
{
    assert(list[i].leads(list[j], SortOrder::LastModifiedRemote));
}

/// The place of the first project with an id; the length where there is none.
pub open spec fn project_index(list: Seq<Project>, id: Seq<char>) -> int
    decreases list.len(),
{
    if list.len() == 0 {
        0
    } else {
        let before = project_index(list.drop_last(), id);
        if before < list.len() - 1 || list.last().id@ == id {
            before
        } else {
            list.len() as int
        }
    }
}

/// Whether the library has a project with an id.
pub open spec fn has_project(list: Seq<Project>, id: Seq<char>) -> bool {
    0 <= project_index(list, id) < list.len()
}

/// The place of the first project with an id.
pub fn find_project(list: &Vec<Project>, id: &str) -> (r: Option<usize>)
    ensures
        r is Some == has_project(list@, id@),
        r is None ==> project_index(list@, id@) == list@.len(),
        r matches Some(at) ==> at == project_index(list@, id@) && at < list@.len()
            && list@[at as int].id@ == id@,
{
    let mut i: usize = 0;
    let mut found: Option<usize> = None;
    assert(list@.take(0).len() == 0);
    while i < list.len()
        invariant
            i <= list@.len(),
            found is None ==> project_index(list@.take(i as int), id@) == i,
            found matches Some(at) ==> at < i && at == project_index(list@.take(i as int), id@)
                && list@[at as int].id@ == id@,
        decreases list@.len() - i,
    {
        assert(list@.take(i + 1).drop_last() =~= list@.take(i as int));
        if found.is_none() && same(list[i].id.as_str(), id) {
            found = Some(i);
        }
        i = i + 1;
    }
    assert(list@.take(i as int) =~= list@);
    found
}

/// A project that stands in the library is found by its id, at its place or
/// before.
pub proof fn listed_projects_are_found(list: Seq<Project>, i: int)
    requires
        0 <= i < list.len(),
    ensures
        has_project(list, list[i].id@),
        project_index(list, list[i].id@) <= i,
        list[project_index(list, list[i].id@)].id@ == list[i].id@,
    decreases list.len(),
{
    let id = list[i].id@;
    let before = list.drop_last();
    index_is_in_range(before, id);
    if i < list.len() - 1 {
        assert(before[i] == list[i]);
        listed_projects_are_found(before, i);
        assert(before[project_index(before, id)] == list[project_index(before, id)]);
    } else if project_index(before, id) < before.len() {
        index_has_id(before, id);
        assert(before[project_index(before, id)] == list[project_index(before, id)]);
    }
}

proof fn index_is_in_range(list: Seq<Project>, id: Seq<char>)
    ensures
        0 <= project_index(list, id) <= list.len(),
    decreases list.len(),
{
    if list.len() > 0 {
        index_is_in_range(list.drop_last(), id);
    }
}

proof fn index_has_id(list: Seq<Project>, id: Seq<char>)
    requires
        project_index(list, id) < list.len(),
    ensures
        0 <= project_index(list, id),
        list[project_index(list, id)].id@ == id,
    decreases list.len(),
{
    index_is_in_range(list, id);
    if list.len() > 0 {
        let before = list.drop_last();
        index_is_in_range(before, id);
        if project_index(before, id) < before.len() {
            index_has_id(before, id);
            assert(before[project_index(before, id)] == list[project_index(before, id)]);
        }
    }
}

// ---------------------------------------------------------------------------
// Filter options
// ---------------------------------------------------------------------------

/// Unique metadata values available to the library filters.
#[derive(Debug, PartialEq, Eq)]
pub struct LibraryFilterOptions {
    pub genres: Vec<String>,
    pub tags: Vec<String>,
}

/// The genres of all projects, in order.
pub open spec fn all_genres(projects: Seq<Project>) -> Seq<Seq<char>>
    decreases projects.len(),
{
    if projects.len() == 0 {
        Seq::empty()
    } else {
        all_genres(projects.drop_last()) + genres_of(projects.last().metadata@)
    }
}

/// The tags of all projects, in order.
pub open spec fn all_tags(projects: Seq<Project>) -> Seq<Seq<char>>
    decreases projects.len(),
{
    if projects.len() == 0 {
        Seq::empty()
    } else {
        all_tags(projects.drop_last()) + values_of(views(projects.last().metadata.tags@))
    }
}

/// One spelling for each value, whatever its case: the first.
pub open spec fn spellings(values: Seq<Seq<char>>) -> Map<Seq<char>, Seq<char>>
    decreases values.len(),
{
    if values.len() == 0 {
        Map::empty()
    } else {
        let before = spellings(values.drop_last());
        let key = lowercase(values.last());
        if before.dom().contains(key) {
            before
        } else {
            before.insert(key, values.last())
        }
    }
}

/// Whether a list holds the values of a map in dictionary order of the keys.
pub open spec fn lists_by_key(list: Seq<Seq<char>>, map: Map<Seq<char>, Seq<char>>) -> bool {
    exists|keys: Seq<Seq<char>>| #[trigger] has_keys(list, map, keys)
}

/// Whether `keys` are all keys of a map in dictionary order, and a list holds
/// what the map has at them.
pub open spec fn has_keys(
    list: Seq<Seq<char>>,
    map: Map<Seq<char>, Seq<char>>,
    keys: Seq<Seq<char>>,
) -> bool {
    &&& keys.len() == list.len()
    &&& forall|i: int, j: int|
        #![trigger keys[i], keys[j]]
        0 <= i < j < keys.len() ==> text_le(keys[i], keys[j]) && keys[i] != keys[j]
    &&& forall|key: Seq<char>| map.dom().contains(key) <==> #[trigger] keys.contains(key)
    &&& forall|i: int| 0 <= i < list.len() ==> #[trigger] list[i] == map[keys[i]]
}

/// A map to texts, by their characters.
pub open spec fn text_values(map: Map<Seq<char>, String>) -> Map<Seq<char>, Seq<char>> {
    map.map_values(|s: String| s@)
}

/// Add the values whose key is new.
fn add_spellings(map: &mut TextMap<String>, values: &Vec<String>, Ghost(seen): Ghost<
    Seq<Seq<char>>,
>)
    requires
        text_values(old(map)@) == spellings(seen),
    ensures
        text_values(final(map)@) == spellings(seen + views(values@)),
{
    let mut i: usize = 0;
    assert(seen + views(values@).take(0) =~= seen);
    while i < values.len()
        invariant
            i <= values@.len(),
            text_values(map@) == spellings(seen + views(values@).take(i as int)),
        decreases values@.len() - i,
    {
        let value = &values[i];
        let ghost so_far = seen + views(values@).take(i as int);
        let ghost next = seen + views(values@).take(i + 1);
        assert(next =~= so_far.push(value@));
        assert(next.drop_last() =~= so_far);
        let key = value.as_str().to_lowercase();
        let known = map.get(key.as_str()).is_some();
        if !known {
            let ghost before = map@;
            map.insert(key.as_str(), value.clone());
            assert(text_values(map@) =~= text_values(before).insert(key@, value@));
        }
        i = i + 1;
    }
    assert(views(values@).take(i as int) =~= views(values@));
}

/// The values of a map, in dictionary order of the keys.
fn values_by_key(map: &TextMap<String>) -> (r: Vec<String>)
    ensures
        lists_by_key(views(r@), text_values(map@)),
{
    let list = map.list();
    let mut out: Vec<String> = Vec::new();
    let mut i: usize = 0;
    while i < list.len()
        invariant
            i <= list@.len(),
            out@.len() == i,
            forall|j: int| 0 <= j < i ==> (#[trigger] out@[j]) == list@[j].1,
        decreases list@.len() - i,
    {
        out.push(list[i].1.clone());
        i = i + 1;
    }
    proof {
        let keys = Seq::new(list@.len(), |i: int| list@[i].0@);
        let values = text_values(map@);
        assert forall|key: Seq<char>| values.dom().contains(key) <==> #[trigger] keys.contains(
            key,
        ) by {
            assert(values.dom().contains(key) == has_key(list@, key));
            if has_key(list@, key) {
                let i = choose|i: int| 0 <= i < list@.len() && (#[trigger] list@[i]).0@ == key;
                assert(keys[i] == key);
            }
            if keys.contains(key) {
                let i = choose|i: int| 0 <= i < keys.len() && keys[i] == key;
                assert(list@[i].0@ == key);
            }
        }
        assert forall|i: int| 0 <= i < out@.len() implies #[trigger] views(out@)[i]
            == values[keys[i]] by {
            listed_entry(list@, i);
            assert(out@[i] == list@[i].1);
        }
        assert forall|i: int, j: int|
            #![trigger keys[i], keys[j]]
            0 <= i < j < keys.len() implies text_le(keys[i], keys[j]) && keys[i] != keys[j] by {
            assert(text_le(list@[i].0@, list@[j].0@));
        }
        assert(has_keys(views(out@), values, keys));
    }
    out
}

/// Whether these are the genres and tags in use, each once whatever its case,
/// in dictionary order, and as it is first spelled.
pub open spec fn are_options(options: LibraryFilterOptions, projects: Seq<Project>) -> bool {
    &&& lists_by_key(views(options.genres@), spellings(all_genres(projects)))
    &&& lists_by_key(views(options.tags@), spellings(all_tags(projects)))
}

/// The genres and tags in use.
pub fn library_filter_options(projects: &Vec<Project>) -> (r: LibraryFilterOptions)
    ensures
        are_options(r, projects@),
{
    let mut genres: TextMap<String> = TextMap::new();
    let mut tags: TextMap<String> = TextMap::new();
    let mut i: usize = 0;
    assert(text_values(genres@) =~= Map::<Seq<char>, Seq<char>>::empty());
    assert(text_values(tags@) =~= Map::<Seq<char>, Seq<char>>::empty());
    while i < projects.len()
        invariant
            i <= projects@.len(),
            text_values(genres@) == spellings(all_genres(projects@.take(i as int))),
            text_values(tags@) == spellings(all_tags(projects@.take(i as int))),
        decreases projects@.len() - i,
    {
        assert(projects@.take(i + 1).drop_last() =~= projects@.take(i as int));
        let project = &projects[i];
        add_spellings(
            &mut genres,
            &project.metadata.genres(),
            Ghost(all_genres(projects@.take(i as int))),
        );
        add_spellings(
            &mut tags,
            &trimmed_texts(&project.metadata.tags),
            Ghost(all_tags(projects@.take(i as int))),
        );
        i = i + 1;
    }
    assert(projects@.take(i as int) =~= projects@);
    LibraryFilterOptions { genres: values_by_key(&genres), tags: values_by_key(&tags) }
}

// ---------------------------------------------------------------------------
// Provider catalogues
// ---------------------------------------------------------------------------

/// Whether a project is a row of one provider and nothing else.
pub open spec fn is_row_of_provider(project: Project, provider_id: Seq<char>) -> bool {
    project.live_set is None && (project.remote matches Some(remote) && remote.provider_id@
        == provider_id)
}

/// The projects that are not rows of one provider.
pub open spec fn without_rows(projects: Seq<Project>, provider_id: Seq<char>) -> Seq<Project>
    decreases projects.len(),
{
    if projects.len() == 0 {
        Seq::empty()
    } else {
        let before = without_rows(projects.drop_last(), provider_id);
        if is_row_of_provider(projects.last(), provider_id) {
            before
        } else {
            before.push(projects.last())
        }
    }
}

/// Whether a project has a handle with a provider.
pub open spec fn has_handle(project: Project, provider_id: Seq<char>, handle: Seq<char>) -> bool {
    project.provider_handles@.dom().contains(provider_id)
        && project.provider_handles@[provider_id]@ == handle
}

/// The place of the first project with a handle; the length where none has it.
pub open spec fn handle_index(
    projects: Seq<Project>,
    provider_id: Seq<char>,
    handle: Seq<char>,
) -> int
    decreases projects.len(),
{
    if projects.len() == 0 {
        0
    } else {
        let before = handle_index(projects.drop_last(), provider_id, handle);
        if before < projects.len() - 1 || has_handle(projects.last(), provider_id, handle) {
            before
        } else {
            projects.len() as int
        }
    }
}

/// Whether `after` is `before` with a catalogue entry folded in: the first
/// project linked to it takes its labels, and its place where it has none;
/// where no project is linked, a row is added.
pub open spec fn folds_in(
    before: Seq<Project>,
    seed: RemoteProjectSeed,
    after: Seq<Project>,
    now: Moment,
) -> bool {
    let at = handle_index(before, seed.provider_id@, seed.handle@);
    if at < before.len() {
        &&& after == before.update(at, after[at])
        &&& after[at].metadata@ == seed.metadata@
        &&& after[at] == (Project {
            metadata: after[at].metadata,
            location: if before[at].location is None {
                seed.location
            } else {
                before[at].location
            },
            ..before[at]
        })
    } else {
        &&& after.len() == before.len() + 1
        &&& after == before.push(after[before.len() as int])
        &&& after[before.len() as int].is_row_of(seed, now)
    }
}

/// Whether `after` is `before` with catalogue entries folded in one by one.
pub open spec fn folds_in_all(
    before: Seq<Project>,
    seeds: Seq<RemoteProjectSeed>,
    after: Seq<Project>,
    now: Moment,
) -> bool
    decreases seeds.len(),
{
    if seeds.len() == 0 {
        after == before
    } else {
        exists|middle: Seq<Project>|
            folds_in_all(before, seeds.drop_last(), middle, now) && #[trigger] folds_in(
                middle,
                seeds.last(),
                after,
                now,
            )
    }
}

fn find_handle(projects: &Vec<Project>, provider_id: &str, handle: &str) -> (at: usize)
    ensures
        at == handle_index(projects@, provider_id@, handle@),
        at <= projects@.len(),
{
    let mut found: usize = 0;
    let mut i: usize = 0;
    assert(projects@.take(0).len() == 0);
    while i < projects.len()
        invariant
            i <= projects@.len(),
            found == handle_index(projects@.take(i as int), provider_id@, handle@),
            found <= i,
        decreases projects@.len() - i,
    {
        assert(projects@.take(i + 1).drop_last() =~= projects@.take(i as int));
        let linked = match projects[i].provider_handles.get(provider_id) {
            Some(known) => same(known.as_str(), handle),
            None => false,
        };
        if found == i && !linked {
            found = i + 1;
        }
        i = i + 1;
    }
    assert(projects@.take(i as int) =~= projects@);
    found
}

fn drop_rows(projects: &mut Vec<Project>, provider_id: &str)
    ensures
        final(projects)@ == without_rows(old(projects)@, provider_id@),
{
    let ghost all = projects@;
    let mut rest: Vec<Project> = Vec::new();
    std::mem::swap(&mut rest, projects);
    let ghost mut done: int = 0;
    assert(all.take(0).len() == 0);
    assert(all.skip(0) =~= all);
    while rest.len() > 0
        invariant
            0 <= done,
            done + rest@.len() == all.len(),
            rest@ == all.skip(done),
            projects@ == without_rows(all.take(done), provider_id@),
        decreases rest@.len(),
    {
        let project = rest.remove(0);
        assert(project == all[done]);
        assert(all.take(done + 1).drop_last() =~= all.take(done));
        assert(rest@ =~= all.skip(done + 1));
        let row = project.live_set.is_none() && match &project.remote {
            Some(remote) => same(remote.provider_id.as_str(), provider_id),
            None => false,
        };
        if !row {
            projects.push(project);
        }
        proof {
            done = done + 1;
        }
    }
    assert(all.take(done) =~= all);
}

/// Fold one catalogue entry in.
fn fold_in(projects: &mut Vec<Project>, seed: RemoteProjectSeed, now: Moment)
    requires
        seed.info matches Some(info) ==> info.counts_fit(),
    ensures
        folds_in(old(projects)@, seed, final(projects)@, now),
{
    let ghost before = projects@;
    let at: usize = find_handle(projects, seed.provider_id.as_str(), seed.handle.as_str());
    if at < projects.len() {
        let mut project = projects.remove(at);
        project.metadata = seed.metadata;
        if project.location.is_none() {
            project.location = seed.location;
        }
        let ghost changed = project;
        projects.insert(at, project);
        assert(projects@ =~= before.update(at as int, changed));
    } else {
        projects.push(Project::from_remote(seed, now));
    }
}

/// Replace one provider's catalogue rows while preserving linked local copies.
///
/// A project found on disk wins over its provider-only row; otherwise a
/// refresh replaces stale remote metadata rather than duplicating it.
pub fn replace_provider_projects(
    projects: &mut Vec<Project>,
    provider_id: &str,
    remote: Vec<RemoteProjectSeed>,
    now: Moment,
)
    requires
        forall|i: int|
            0 <= i < remote@.len() ==> ((#[trigger] remote@[i]).info matches Some(info)
                ==> info.counts_fit()),
    ensures
        folds_in_all(without_rows(old(projects)@, provider_id@), remote@, final(projects)@, now),
{
    drop_rows(projects, provider_id);
    let ghost start = projects@;
    let ghost all = remote@;
    let mut rest = remote;
    let ghost mut done: int = 0;
    assert(all.take(0).len() == 0);
    assert(all.skip(0) =~= all);
    while rest.len() > 0
        invariant
            0 <= done,
            done + rest@.len() == all.len(),
            rest@ == all.skip(done),
            folds_in_all(start, all.take(done), projects@, now),
            forall|i: int|
                0 <= i < all.len() ==> ((#[trigger] all[i]).info matches Some(info)
                    ==> info.counts_fit()),
        decreases rest@.len(),
    {
        let seed = rest.remove(0);
        assert(seed == all[done]);
        assert(all.take(done + 1).drop_last() =~= all.take(done));
        assert(rest@ =~= all.skip(done + 1));
        let ghost middle = projects@;
        fold_in(projects, seed, now);
        assert(folds_in(middle, all.take(done + 1).last(), projects@, now));
        proof {
            done = done + 1;
        }
    }
    assert(all.take(done) =~= all);
}

/// Whether no two projects share a handle with a provider.
pub open spec fn handles_unique(projects: Seq<Project>) -> bool {
    forall|i: int, j: int, provider_id: Seq<char>, handle: Seq<char>|
        #![trigger has_handle(projects[i], provider_id, handle), has_handle(projects[j], provider_id, handle)]
        0 <= i < j < projects.len() ==> !(has_handle(projects[i], provider_id, handle)
            && has_handle(projects[j], provider_id, handle))
}

proof fn handle_index_is_first(projects: Seq<Project>, provider_id: Seq<char>, handle: Seq<char>)
    ensures
        0 <= handle_index(projects, provider_id, handle) <= projects.len(),
        forall|i: int|
            0 <= i < handle_index(projects, provider_id, handle) ==> !has_handle(
                #[trigger] projects[i],
                provider_id,
                handle,
            ),
    decreases projects.len(),
{
    if projects.len() > 0 {
        let shorter = projects.drop_last();
        handle_index_is_first(shorter, provider_id, handle);
        assert forall|i: int|
            0 <= i < handle_index(projects, provider_id, handle) implies !has_handle(
            #[trigger] projects[i],
            provider_id,
            handle,
        ) by {
            if i < shorter.len() {
                assert(projects[i] == shorter[i]);
            }
        }
    }
}

proof fn folding_keeps_handles_unique(
    before: Seq<Project>,
    seed: RemoteProjectSeed,
    after: Seq<Project>,
    now: Moment,
)
    requires
        folds_in(before, seed, after, now),
        handles_unique(before),
    ensures
        handles_unique(after),
{
    let id = seed.provider_id@;
    let at = handle_index(before, id, seed.handle@);
    handle_index_is_first(before, id, seed.handle@);
    assert forall|i: int, j: int, p: Seq<char>, h: Seq<char>|
        #![trigger has_handle(after[i], p, h), has_handle(after[j], p, h)]
        0 <= i < j < after.len() implies !(has_handle(after[i], p, h) && has_handle(
        after[j],
        p,
        h,
    )) by {
        if at < before.len() {
            assert(has_handle(after[i], p, h) == has_handle(before[i], p, h));
            assert(has_handle(after[j], p, h) == has_handle(before[j], p, h));
        } else {
            assert(after[i] == before[i]);
            if j < before.len() {
                assert(after[j] == before[j]);
            } else if has_handle(after[j], p, h) {
                assert(p == id && h == seed.handle@);
                assert(!has_handle(before[i], id, seed.handle@));
            }
        }
    }
}

/// A refresh never lists a project of a provider twice, where it was not
/// listed twice before.
pub proof fn a_refresh_makes_no_duplicates(
    before: Seq<Project>,
    seeds: Seq<RemoteProjectSeed>,
    after: Seq<Project>,
    now: Moment,
)
    requires
        folds_in_all(before, seeds, after, now),
        handles_unique(before),
    ensures
        handles_unique(after),
    decreases seeds.len(),
{
    if seeds.len() > 0 {
        let middle = choose|middle: Seq<Project>|
            folds_in_all(before, seeds.drop_last(), middle, now) && #[trigger] folds_in(
                middle,
                seeds.last(),
                after,
                now,
            );
        a_refresh_makes_no_duplicates(before, seeds.drop_last(), middle, now);
        folding_keeps_handles_unique(middle, seeds.last(), after, now);
    }
}

/// A refresh keeps every project that was there, in its place: only the labels
/// and a missing place in the library can change.
pub proof fn a_refresh_keeps_linked_projects(
    before: Seq<Project>,
    seeds: Seq<RemoteProjectSeed>,
    after: Seq<Project>,
    now: Moment,
    i: int,
)
    requires
        folds_in_all(before, seeds, after, now),
        0 <= i < before.len(),
    ensures
        before.len() <= after.len(),
        after[i] == (Project {
            metadata: after[i].metadata,
            location: after[i].location,
            ..before[i]
        }),
        before[i].location is Some ==> after[i].location == before[i].location,
    decreases seeds.len(),
{
    if seeds.len() > 0 {
        let middle = choose|middle: Seq<Project>|
            folds_in_all(before, seeds.drop_last(), middle, now) && #[trigger] folds_in(
                middle,
                seeds.last(),
                after,
                now,
            );
        a_refresh_keeps_linked_projects(before, seeds.drop_last(), middle, now, i);
        handle_index_is_first(middle, seeds.last().provider_id@, seeds.last().handle@);
    }
}

/// Dropping a provider's rows keeps every project that is on disk.
pub proof fn local_projects_outlive_rows(
    projects: Seq<Project>,
    provider_id: Seq<char>,
    project: Project,
)
    requires
        projects.contains(project),
        project.live_set is Some,
    ensures
        without_rows(projects, provider_id).contains(project),
    decreases projects.len(),
{
    let shorter = projects.drop_last();
    let before = without_rows(shorter, provider_id);
    let after = without_rows(projects, provider_id);
    if projects.last() == project {
        assert(after[after.len() - 1] == project);
    } else {
        let i = choose|i: int| 0 <= i < projects.len() && projects[i] == project;
        assert(shorter[i] == project);
        local_projects_outlive_rows(shorter, provider_id, project);
        let k = choose|k: int| 0 <= k < before.len() && before[k] == project;
        assert(after[k] == project);
    }
}

// ---------------------------------------------------------------------------
// Watched folders
// ---------------------------------------------------------------------------

/// A project a scan turned up.
#[derive(Debug, PartialEq, Eq)]
pub struct FoundProject {
    pub name: String,
    pub root: String,
    /// Place beneath the folder that was scanned.
    pub location: Option<ProjectLocation>,
    /// The DAW project file name, shown under the project name.
    pub file: String,
    /// Size of the project on disk; zero where it could not be measured.
    pub bytes: u64,
}

/// A project a scan came upon: a folder of its own, or a file among others.
#[derive(Debug)]
pub struct Discovered {
    pub name: String,
    pub project_file: String,
    pub directory: String,
    pub owns_directory: bool,
}

impl Discovered {
    pub open spec fn root_text(self) -> String {
        if self.owns_directory {
            self.directory
        } else {
            self.project_file
        }
    }

    /// What identifies the project: its folder where it owns one, and otherwise
    /// the project file. Two projects saved side by side are two projects.
    pub fn root(&self) -> (r: &String)
        ensures
            *r == self.root_text(),
    {
        if self.owns_directory {
            &self.directory
        } else {
            &self.project_file
        }
    }

    /// What the size of the project is measured by. A project that does not own
    /// its folder is not as large as everything else in there.
    pub fn measured(&self) -> (r: Measured)
        ensures
            self.owns_directory ==> r == Measured::Folder(self.directory),
            !self.owns_directory ==> r == Measured::File(self.project_file),
    {
        if self.owns_directory {
            Measured::Folder(self.directory.clone())
        } else {
            Measured::File(self.project_file.clone())
        }
    }
}

/// What is measured on disk.
#[derive(Debug, PartialEq, Eq)]
pub enum Measured {
    /// Everything in a folder.
    Folder(String),
    /// One file.
    File(String),
}

/// A folder Auru watches for projects.
#[derive(Debug, PartialEq, Eq)]
pub struct WatchedFolder {
    pub path: String,
    /// Projects found inside, in the order they will be listed.
    pub projects: Vec<FoundProject>,
}

impl FoundProject {
    /// The row of a project that was found, which measures `bytes`.
    pub fn from_discovered(
        on: Platform,
        library_root: &str,
        found: &Discovered,
        bytes: u64,
    ) -> (r: Self)
        ensures
            r.name == found.name,
            r.root == found.root_text(),
            location_view(r.location) == place_beneath(on, library_root@, found.root_text()@),
            r.file@ == (match name_of(on, found.project_file@) {
                Some(name) => name,
                None => Seq::empty(),
            }),
            r.bytes == bytes,
    {
        let root = found.root();
        FoundProject {
            name: found.name.clone(),
            root: root.clone(),
            location: portable_project_location(on, library_root, root.as_str()),
            file: match file_name(on, found.project_file.as_str()) {
                Some(name) => name,
                None => String::new(),
            },
            bytes,
        }
    }

    /// The size as it is shown: nothing where it could not be measured.
    pub open spec fn size_text(self) -> Seq<char> {
        if self.bytes == 0 {
            Seq::empty()
        } else {
            bytes_text(self.bytes as nat)
        }
    }

    /// eg `"1.2 GB"`. Blank when the size could not be measured.
    pub fn size_label(&self) -> (r: String)
        ensures
            r@ == self.size_text(),
    {
        if self.bytes == 0 {
            String::new()
        } else {
            format_bytes(self.bytes)
        }
    }

    pub open spec fn library_text(self) -> Seq<char> {
        match self.location {
            Some(location) => location.relative_path@,
            None => self.name@,
        }
    }

    pub fn library_path(&self) -> (r: &str)
        ensures
            r@ == self.library_text(),
    {
        match &self.location {
            Some(location) => location.relative_path.as_str(),
            None => self.name.as_str(),
        }
    }
}

/// The bytes of some projects taken together.
pub open spec fn bytes_sum(projects: Seq<FoundProject>) -> nat
    decreases projects.len(),
{
    if projects.len() == 0 {
        0
    } else {
        bytes_sum(projects.drop_last()) + projects.last().bytes as nat
    }
}

proof fn bytes_sum_grows(projects: Seq<FoundProject>, n: int)
    requires
        0 <= n <= projects.len(),
    ensures
        bytes_sum(projects.take(n)) <= bytes_sum(projects),
    decreases projects.len() - n,
{
    if n < projects.len() {
        bytes_sum_grows(projects, n + 1);
        assert(projects.take(n + 1).drop_last() =~= projects.take(n));
    } else {
        assert(projects.take(n) =~= projects);
    }
}

/// A path with the home directory written `~`.
pub open spec fn home_text(path: Seq<char>, home: Option<Seq<char>>) -> Seq<char> {
    match home {
        Some(home) => if starts(path, home) {
            "~"@ + path.skip(home.len() as int)
        } else {
            path
        },
        None => path,
    }
}

/// Replace the home directory with `~`, the way a path is written down.
pub fn shorten_home(path: &str, home: &Option<String>) -> (r: String)
    ensures
        r@ == home_text(path@, optional_view(*home)),
{
    match home {
        None => path.to_owned(),
        Some(home) => match after_prefix(path, home.as_str()) {
            Some(rest) => {
                let mut out = "~".to_owned();
                out.append(rest.as_str());
                out
            },
            None => path.to_owned(),
        },
    }
}

impl WatchedFolder {
    /// How the folder is shown in the watched list, eg `"~/Music/Ableton"`.
    pub fn display_path(&self, home: &Option<String>) -> (r: String)
        ensures
            r@ == home_text(self.path@, optional_view(*home)),
    {
        shorten_home(self.path.as_str(), home)
    }

    pub fn project_count(&self) -> (r: usize)
        ensures
            r == self.projects@.len(),
    {
        self.projects.len()
    }

    /// Bytes across every project found.
    pub fn total_bytes(&self) -> (r: u64)
        requires
            bytes_sum(self.projects@) <= u64::MAX,
        ensures
            r == bytes_sum(self.projects@),
    {
        let mut total: u64 = 0;
        let mut i: usize = 0;
        while i < self.projects.len()
            invariant
                i <= self.projects@.len(),
                total == bytes_sum(self.projects@.take(i as int)),
                bytes_sum(self.projects@) <= u64::MAX,
            decreases self.projects@.len() - i,
        {
            assert(self.projects@.take(i + 1).drop_last() =~= self.projects@.take(i as int));
            proof {
                bytes_sum_grows(self.projects@, i + 1);
            }
            total = total + self.projects[i].bytes;
            i = i + 1;
        }
        assert(self.projects@.take(i as int) =~= self.projects@);
        total
    }
}

/// The most entries a measurement looks at. A rough number drawn at once is
/// worth more than an exact one after a pause.
pub const MAX_MEASURED_ENTRIES: usize = 4_000;

/// An entry met while a folder is measured.
#[derive(Debug)]
pub enum MeasuredEntry {
    /// Its kind could not be read.
    Unknown,
    Folder(String),
    File(u64),
}

/// A measurement of a folder under way: what it has come to, and the folders
/// it still has to look into.
#[derive(Debug)]
pub struct FolderBytes {
    pub total: u64,
    pub seen: usize,
    pub folders: Vec<String>,
}

impl FolderBytes {
    /// Start to measure a folder.
    pub fn new(root: &str) -> (r: Self)
        ensures
            r.total == 0,
            r.seen == 0,
            views(r.folders@) == seq![root@],
    {
        let mut folders: Vec<String> = Vec::new();
        folders.push(root.to_owned());
        assert(views(folders@) =~= seq![root@]);
        FolderBytes { total: 0, seen: 0, folders }
    }

    /// Whether `folder` is the folder to look into next, and `after` what is left.
    pub open spec fn hands_out(
        self,
        after: FolderBytes,
        folder: Option<String>,
    ) -> bool {
        let over = self.folders@.len() == 0 || self.seen > MAX_MEASURED_ENTRIES;
        &&& folder is None == over
        &&& over ==> after == self
        &&& !over ==> folder == Some(self.folders@.last()) && after.folders@
            == self.folders@.drop_last() && after.total == self.total
            && after.seen == self.seen
    }

    /// The folder to look into next; none once the measurement is over.
    pub fn next_folder(&mut self) -> (r: Option<String>)
        ensures
            old(self).hands_out(*final(self), r),
    {
        if self.seen > MAX_MEASURED_ENTRIES || self.folders.len() == 0 {
            None
        } else {
            self.folders.pop()
        }
    }

    /// Whether `after` is the measurement with an entry more, and `more` whether it
    /// goes on.
    pub open spec fn counts(
        self,
        entry: MeasuredEntry,
        after: FolderBytes,
        more: bool,
    ) -> bool {
        &&& after.seen == self.seen + 1
        &&& more == (after.seen <= MAX_MEASURED_ENTRIES)
        &&& after.total == (match entry {
            MeasuredEntry::File(bytes) => if more {
                (self.total + bytes) as u64
            } else {
                self.total
            },
            _ => self.total,
        })
        &&& after.folders@ == (match entry {
            MeasuredEntry::Folder(path) => if more {
                self.folders@.push(path)
            } else {
                self.folders@
            },
            _ => self.folders@,
        })
    }

    /// Count an entry. `false` ends the measurement: the entry is one too many
    /// and does not count.
    pub fn count(&mut self, entry: MeasuredEntry) -> (r: bool)
        requires
            old(self).seen <= MAX_MEASURED_ENTRIES,
            entry matches MeasuredEntry::File(bytes) ==> old(self).total + bytes <= u64::MAX,
        ensures
            old(self).counts(entry, *final(self), r),
    {
        self.seen = self.seen + 1;
        if self.seen > MAX_MEASURED_ENTRIES {
            return false;
        }
        match entry {
            MeasuredEntry::Unknown => {},
            MeasuredEntry::Folder(path) => {
                self.folders.push(path);
            },
            MeasuredEntry::File(bytes) => {
                self.total = self.total + bytes;
            },
        }
        true
    }
}

// ---------------------------------------------------------------------------
// Loading the library
// ---------------------------------------------------------------------------

/// A watched folder, ranked by how deep it lies.
#[derive(Debug)]
pub struct ScanFolder {
    pub path: String,
}

impl Ranked<Platform> for ScanFolder {
    open spec fn leads(self, other: Self, on: Platform) -> bool {
        components_of(on, self.path@).len() <= components_of(on, other.path@).len()
    }

    proof fn leads_total(a: Self, b: Self, on: Platform) {
    }

    proof fn leads_transitive(a: Self, b: Self, c: Self, on: Platform) {
    }

    fn at_or_before(&self, other: &Self, on: &Platform) -> (r: bool) {
        let a = components(*on, self.path.as_str());
        let b = components(*on, other.path.as_str());
        assert(views(a@).len() == a@.len());
        assert(views(b@).len() == b@.len());
        a.len() <= b.len()
    }
}

/// Folders for a scan, by their texts.
pub open spec fn scan_of(folders: Seq<String>) -> Seq<ScanFolder> {
    folders.map_values(|path: String| ScanFolder { path })
}

/// The order to scan folders in: broad ones first, so that overlapping entries
/// keep the whole hierarchy.
pub fn scan_order(on: Platform, watched_folders: &Vec<String>) -> (r: Vec<ScanFolder>)
    ensures
        is_sorted_from(scan_of(watched_folders@), r@, on),
{
    let mut out: Vec<ScanFolder> = Vec::new();
    let mut i: usize = 0;
    while i < watched_folders.len()
        invariant
            i <= watched_folders@.len(),
            out@ == scan_of(watched_folders@).take(i as int),
        decreases watched_folders@.len() - i,
    {
        out.push(ScanFolder { path: watched_folders[i].clone() });
        i = i + 1;
        assert(scan_of(watched_folders@).take(i as int) =~= scan_of(watched_folders@).take(
            i - 1,
        ).push(scan_of(watched_folders@)[i - 1]));
    }
    assert(scan_of(watched_folders@).take(i as int) =~= scan_of(watched_folders@));
    stable_sort(&mut out, &on);
    out
}

/// A project to read, and its place in the library where the scan knows it.
#[derive(Debug)]
pub struct LibraryRoot {
    pub root: String,
    pub location: Option<ProjectLocation>,
}

/// What a scan of a folder found.
#[derive(Debug)]
pub struct ScannedFolder {
    pub path: String,
    pub found: Vec<Discovered>,
}

/// A project to read, by its texts.
pub type RootView = (Seq<char>, Option<Seq<char>>);

/// Projects to read, by their texts.
pub open spec fn root_views(roots: Seq<LibraryRoot>) -> Seq<RootView> {
    roots.map_values(|r: LibraryRoot| (r.root@, location_view(r.location)))
}

/// The projects a folder's scan found.
pub open spec fn folder_roots(
    on: Platform,
    folder: Seq<char>,
    found: Seq<Discovered>,
) -> Seq<RootView> {
    found.map_values(
        |d: Discovered| (d.root_text()@, place_beneath(on, folder, d.root_text()@)),
    )
}

/// The projects all scans found, in order.
pub open spec fn scanned_roots(on: Platform, scanned: Seq<ScannedFolder>) -> Seq<RootView>
    decreases scanned.len(),
{
    if scanned.len() == 0 {
        Seq::empty()
    } else {
        scanned_roots(on, scanned.drop_last()) + folder_roots(
            on,
            scanned.last().path@,
            scanned.last().found@,
        )
    }
}

/// Whether a list has a project with a spelling of a path.
pub open spec fn lists_root(on: Platform, roots: Seq<RootView>, root: Seq<char>) -> bool {
    exists|i: int| 0 <= i < roots.len() && same_path(on, (#[trigger] roots[i]).0, root)
}

/// Each project once, however it was reached: the first time it is met.
pub open spec fn first_reached(on: Platform, roots: Seq<RootView>) -> Seq<RootView>
    decreases roots.len(),
{
    if roots.len() == 0 {
        Seq::empty()
    } else {
        let before = first_reached(on, roots.drop_last());
        if lists_root(on, before, roots.last().0) {
            before
        } else {
            before.push(roots.last())
        }
    }
}

/// Add a project, unless it is there.
fn reach(on: Platform, out: &mut Vec<LibraryRoot>, root: &str, location: Option<ProjectLocation>)
    ensures
        root_views(final(out)@) == (if lists_root(on, root_views(old(out)@), root@) {
            root_views(old(out)@)
        } else {
            root_views(old(out)@).push((root@, location_view(location)))
        }),
{
    let ghost before = root_views(out@);
    let mut i: usize = 0;
    while i < out.len()
        invariant
            i <= out@.len(),
            before == root_views(out@),
            forall|j: int| 0 <= j < i ==> !same_path(on, (#[trigger] before[j]).0, root@),
            *out == *old(out),
        decreases out@.len() - i,
    {
        if crate::path::equal(on, out[i].root.as_str(), root) {
            assert(same_path(on, before[i as int].0, root@));
            return;
        }
        i = i + 1;
    }
    let ghost view = (root@, location_view(location));
    out.push(LibraryRoot { root: root.to_owned(), location });
    assert(root_views(out@) =~= before.push(view));
}

/// The projects to read: those the scans found, with their place in the
/// library, and those that were added by hand; each once.
pub fn library_roots(
    on: Platform,
    scanned: &Vec<ScannedFolder>,
    projects: &Vec<String>,
) -> (r: Vec<LibraryRoot>)
    ensures
        root_views(r@) == first_reached(
            on,
            scanned_roots(on, scanned@) + projects@.map_values(
                |p: String| (p@, None::<Seq<char>>),
            ),
        ),
{
    let mut out: Vec<LibraryRoot> = Vec::new();
    let ghost added = projects@.map_values(|p: String| (p@, None::<Seq<char>>));
    let mut i: usize = 0;
    assert(root_views(out@) =~= Seq::<RootView>::empty());
    while i < scanned.len()
        invariant
            i <= scanned@.len(),
            root_views(out@) == first_reached(on, scanned_roots(on, scanned@.take(i as int))),
        decreases scanned@.len() - i,
    {
        let folder = &scanned[i];
        let ghost before = scanned_roots(on, scanned@.take(i as int));
        let ghost here = folder_roots(on, folder.path@, folder.found@);
        assert(scanned@.take(i + 1).drop_last() =~= scanned@.take(i as int));
        let mut j: usize = 0;
        assert(before + here.take(0) =~= before);
        while j < folder.found.len()
            invariant
                j <= folder.found@.len(),
                here == folder_roots(on, folder.path@, folder.found@),
                root_views(out@) == first_reached(on, before + here.take(j as int)),
            decreases folder.found@.len() - j,
        {
            let root = folder.found[j].root();
            let location = portable_project_location(on, folder.path.as_str(), root.as_str());
            assert((before + here.take(j + 1)).drop_last() =~= before + here.take(j as int));
            assert((before + here.take(j + 1)).last() == here[j as int]);
            reach(on, &mut out, root.as_str(), location);
            j = j + 1;
        }
        assert(here.take(j as int) =~= here);
        i = i + 1;
    }
    assert(scanned@.take(i as int) =~= scanned@);
    let ghost before = scanned_roots(on, scanned@);
    let mut k: usize = 0;
    assert(before + added.take(0) =~= before);
    while k < projects.len()
        invariant
            k <= projects@.len(),
            added == projects@.map_values(|p: String| (p@, None::<Seq<char>>)),
            root_views(out@) == first_reached(on, before + added.take(k as int)),
        decreases projects@.len() - k,
    {
        assert((before + added.take(k + 1)).drop_last() =~= before + added.take(k as int));
        assert((before + added.take(k + 1)).last() == added[k as int]);
        reach(on, &mut out, projects[k].as_str(), None);
        k = k + 1;
    }
    assert(added.take(k as int) =~= added);
    out
}

/// A project reached more than once is listed once.
pub proof fn each_project_is_reached_once(on: Platform, roots: Seq<RootView>, i: int, j: int)
    requires
        0 <= i < j < first_reached(on, roots).len(),
    ensures
        !same_path(on, first_reached(on, roots)[i].0, first_reached(on, roots)[j].0),
    decreases roots.len(),
{
    let before = first_reached(on, roots.drop_last());
    if j < before.len() {
        each_project_is_reached_once(on, roots.drop_last(), i, j);
    } else {
        assert(before[i] == first_reached(on, roots)[i]);
    }
}

/// No project that was reached is left out.
pub proof fn every_project_is_reached(on: Platform, roots: Seq<RootView>, i: int)
    requires
        0 <= i < roots.len(),
    ensures
        lists_root(on, first_reached(on, roots), roots[i].0),
    decreases roots.len(),
{
    let shorter = roots.drop_last();
    let before = first_reached(on, shorter);
    let after = first_reached(on, roots);
    if i < shorter.len() {
        every_project_is_reached(on, shorter, i);
        assert(shorter[i] == roots[i]);
        let k = choose|k: int| 0 <= k < before.len() && same_path(on, (#[trigger] before[k]).0, roots[i].0);
        assert(after[k] == before[k]);
    } else if !lists_root(on, before, roots.last().0) {
        assert(after[after.len() - 1].0 == roots[i].0);
    }
}

/// A project as it was read, with the place that the scan gives it.
#[derive(Debug)]
pub struct ReadProject {
    pub project: Project,
    pub location: Option<ProjectLocation>,
}

/// Whether a project is among some that were read.
pub open spec fn is_read(read: Seq<ReadProject>, id: Seq<char>) -> bool {
    exists|i: int| 0 <= i < read.len() && (#[trigger] read[i]).project.id@ == id
}

/// Each project once. Two paths can lead to one project: the folder that was
/// added by hand and the file that a scan found there.
pub open spec fn read_once(read: Seq<ReadProject>) -> Seq<ReadProject>
    decreases read.len(),
{
    if read.len() == 0 {
        Seq::empty()
    } else {
        let before = read_once(read.drop_last());
        if is_read(before, read.last().project.id@) {
            before
        } else {
            before.push(read.last())
        }
    }
}

/// Each project once: the first time it was read.
fn each_once(read: Vec<ReadProject>) -> (r: Vec<ReadProject>)
    ensures
        r@ == read_once(read@),
{
    let ghost all = read@;
    let mut rest = read;
    let mut out: Vec<ReadProject> = Vec::new();
    let ghost mut done: int = 0;
    assert(all.take(0).len() == 0);
    assert(all.skip(0) =~= all);
    while rest.len() > 0
        invariant
            0 <= done,
            done + rest@.len() == all.len(),
            rest@ == all.skip(done),
            out@ == read_once(all.take(done)),
        decreases rest@.len(),
    {
        let entry = rest.remove(0);
        assert(entry == all[done]);
        assert(rest@ =~= all.skip(done + 1));
        assert(all.take(done + 1).drop_last() =~= all.take(done));
        let mut known = false;
        let mut i: usize = 0;
        while i < out.len()
            invariant
                i <= out@.len(),
                known == is_read(out@.take(i as int), entry.project.id@),
            decreases out@.len() - i,
        {
            let ghost seen = out@.take(i as int);
            let ghost more = out@.take(i + 1);
            let hit = same(out[i].project.id.as_str(), entry.project.id.as_str());
            proof {
                if hit {
                    assert(more[i as int].project.id@ == entry.project.id@);
                } else if known {
                    let k = choose|k: int|
                        0 <= k < seen.len() && (#[trigger] seen[k]).project.id@ == entry.project.id@;
                    assert(more[k] == seen[k]);
                } else {
                    assert forall|k: int| 0 <= k < more.len() implies (
                    #[trigger] more[k]).project.id@ != entry.project.id@ by {
                        if k < i {
                            assert(more[k] == seen[k]);
                        }
                    }
                }
            }
            known = known || hit;
            i = i + 1;
        }
        assert(out@.take(i as int) =~= out@);
        if !known {
            out.push(entry);
        }
        proof {
            done = done + 1;
        }
    }
    assert(all.take(done) =~= all);
    out
}

/// The first sightings once all projects have been seen.
pub open spec fn seen_with_all(
    seen: Map<Seq<char>, i64>,
    projects: Seq<ReadProject>,
    now: i64,
) -> Map<Seq<char>, i64>
    decreases projects.len(),
{
    if projects.len() == 0 {
        seen
    } else {
        seen_with(
            seen_with_all(seen, projects.drop_last(), now),
            projects.last().project.local_path@,
            now,
        )
    }
}

/// A project with its place in the library and the time it was first seen.
pub open spec fn placed(read: ReadProject, seen: Map<Seq<char>, i64>) -> Project {
    Project {
        location: if read.location is Some {
            read.location
        } else {
            read.project.location
        },
        added_at: Some(seen[read.project.local_path@]),
        ..read.project
    }
}

/// Whether a list holds the projects with their places and times.
pub open spec fn all_placed(
    list: Seq<Project>,
    read: Seq<ReadProject>,
    seen: Map<Seq<char>, i64>,
) -> bool {
    list.len() == read.len() && forall|i: int|
        0 <= i < read.len() ==> #[trigger] list[i] == placed(read[i], seen)
}

proof fn seen_grows(
    seen: Map<Seq<char>, i64>,
    projects: Seq<ReadProject>,
    now: i64,
    n: int,
    key: Seq<char>,
)
    requires
        0 <= n <= projects.len(),
        seen_with_all(seen, projects.take(n), now).dom().contains(key),
    ensures
        seen_with_all(seen, projects, now).dom().contains(key),
        seen_with_all(seen, projects, now)[key] == seen_with_all(seen, projects.take(n), now)[key],
    decreases projects.len() - n,
{
    if n < projects.len() {
        assert(projects.take(n + 1).drop_last() =~= projects.take(n));
        seen_grows(seen, projects, now, n + 1, key);
    } else {
        assert(projects.take(n) =~= projects);
    }
}

/// Whether a library holds the projects that were read, each once, in the saved
/// order, and the state notes when each was first seen.
pub open spec fn loads_library(
    before: AppState,
    after: AppState,
    projects: Seq<Project>,
    read: Seq<ReadProject>,
    now: i64,
) -> bool {
    &&& after.first_seen@ == seen_with_all(before.first_seen@, read_once(read), now)
    &&& after == (AppState { first_seen: after.first_seen, ..before })
    &&& exists|list: Seq<Project>|
        #[trigger] all_placed(list, read_once(read), after.first_seen@) && is_sorted_from(
            list,
            projects,
            SortOrder::of_key(before.sort_order@),
        )
}

/// Build the library out of the projects that were read: note when each was
/// first seen, and put them in the saved order. The result says whether there
/// is a new sighting to save.
pub fn load_library(state: &mut AppState, read: Vec<ReadProject>, now: i64) -> (r: (
    Vec<Project>,
    bool,
))
    ensures
        loads_library(*old(state), *final(state), r.0@, read@, now),
        r.1 == (final(state).first_seen.listed().len() != old(state).first_seen.listed().len()),
{
    let mut rest = each_once(read);
    let ghost all = rest@;
    let ghost start = state.first_seen@;
    let known_before: usize = state.first_seen.len();
    let mut projects: Vec<Project> = Vec::new();
    let ghost mut done: int = 0;
    let ghost last = seen_with_all(start, all, now);
    assert(all.take(0).len() == 0);
    assert(all.skip(0) =~= all);
    while rest.len() > 0
        invariant
            0 <= done,
            done + rest@.len() == all.len(),
            rest@ == all.skip(done),
            state.first_seen@ == seen_with_all(start, all.take(done), now),
            last == seen_with_all(start, all, now),
            *state == (AppState { first_seen: state.first_seen, ..*old(state) }),
            projects@.len() == done,
            forall|i: int| 0 <= i < done ==> #[trigger] projects@[i] == placed(all[i], last),
        decreases rest@.len(),
    {
        let read = rest.remove(0);
        let ghost entry = read;
        assert(entry == all[done]);
        assert(rest@ =~= all.skip(done + 1));
        assert(all.take(done + 1).drop_last() =~= all.take(done));
        let mut project = read.project;
        if read.location.is_some() {
            project.location = read.location;
        }
        let seen: i64 = state.note_first_seen(project.local_path.as_str(), now);
        project.added_at = Some(seen);
        proof {
            seen_grows(start, all, now, done + 1, entry.project.local_path@);
            assert(last[entry.project.local_path@] == seen);
        }
        projects.push(project);
        proof {
            done = done + 1;
        }
    }
    assert(all.take(done) =~= all);
    let changed = state.first_seen.len() != known_before;
    let ghost list = projects@;
    assert(all_placed(list, all, state.first_seen@));
    sort_projects(&mut projects, SortOrder::from_key(state.sort_order.as_str()));
    (projects, changed)
}

proof fn no_id_is_read_twice(read: Seq<ReadProject>, i: int, j: int)
    requires
        0 <= i < j < read_once(read).len(),
    ensures
        read_once(read)[i].project.id@ != read_once(read)[j].project.id@,
    decreases read.len(),
{
    let before = read_once(read.drop_last());
    if j < before.len() {
        no_id_is_read_twice(read.drop_last(), i, j);
    } else {
        assert(before[i] == read_once(read)[i]);
    }
}

/// A project that is both in a watched folder and added by hand is listed once.
pub proof fn no_project_is_listed_twice(
    before: AppState,
    after: AppState,
    projects: Seq<Project>,
    read: Seq<ReadProject>,
    now: i64,
    i: int,
    j: int,
)
    requires
        loads_library(before, after, projects, read, now),
        0 <= i < projects.len(),
        0 <= j < projects.len(),
        i != j,
    ensures
        projects[i].id@ != projects[j].id@,
{
    let order = SortOrder::of_key(before.sort_order@);
    let list = choose|list: Seq<Project>|
        #[trigger] all_placed(list, read_once(read), after.first_seen@) && is_sorted_from(
            list,
            projects,
            order,
        );
    let places = choose|places: Seq<int>| sorts(list, projects, places, order);
    let a = places[i];
    let b = places[j];
    assert(a != b);
    assert(projects[i] == list[a] && projects[j] == list[b]);
    assert(list[a] == placed(read_once(read)[a], after.first_seen@));
    assert(list[b] == placed(read_once(read)[b], after.first_seen@));
    if a < b {
        no_id_is_read_twice(read, a, b);
    } else {
        no_id_is_read_twice(read, b, a);
    }
}

} // verus!
