//! What Auru remembers between launches.
//!
//! Small and deliberately boring: which folders to look in, which projects
//! were added by hand, and the handful of preferences the settings window
//! writes. Everything else is read from the projects themselves.
use vstd::prelude::*;

use crate::automatic_backup::revisions_of;
use crate::moment::{FileRevision, Moment};
use crate::path::{is_beneath, join_path, joined_path, lists_path, same_path, Platform};
use crate::text::{decimal, decimal_text, equal_ignoring_case, holds_text, list_holds,
    optional_view, same_ignoring_case, trim, trim_end_class, trim_end_of, trimmed, views, Class};
use crate::text_map::{ascending, has_key, listed_entry, map_of, TextMap};

verus! {

/// Bumped when the shape changes in a way older builds cannot read.
pub const STATE_SCHEMA: u32 = 1;

/// A state file that says nothing of onboarding was written by a build that
/// had finished it.
pub fn existing_profile_completed_onboarding() -> (r: bool)
    ensures
        r,
{
    true
}

/// A recorded path prefix from another machine, and the local folder it means.
#[derive(Clone, Debug, PartialEq, Eq)]
pub struct PathAliasState {
    pub from: String,
    pub to: String,
}

/// Everything Auru carries from one launch to the next.
#[derive(Clone, Debug)]
pub struct AppState {
    /// Where this state was read from, and the only place it will be written.
    /// A state built in memory has none and is written nowhere.
    pub origin: Option<String>,
    pub schema: u32,
    /// Name shown against saved versions.
    pub display_name: String,
    /// Whether the profile has completed the current setup flow.
    pub onboarding_complete: bool,
    /// `"night"` or `"day"`.
    pub appearance: String,
    pub automatic_backups: bool,
    pub verify_uploads: bool,
    /// Key of the chosen retention option.
    pub version_retention: String,
    /// Key of the sidebar's sort order.
    pub sort_order: String,
    /// Unix seconds when Auru first saw each project, keyed by its folder.
    pub first_seen: TextMap<i64>,
    /// Exact project revisions already handed to the backup coordinator.
    pub backup_attempts: TextMap<FileRevision>,
    /// Recorded path prefixes from another machine mapped onto local folders.
    pub path_aliases: Vec<PathAliasState>,
    /// Folders scanned for projects.
    pub watched_folders: Vec<String>,
    /// Folders used as backup destinations.
    pub local_providers: Vec<String>,
    /// Provider catalogue ids this machine has authenticated or explicitly
    /// approved for no-auth access.
    pub connected_providers: Vec<String>,
    /// Default destination for a project's first backup.
    pub primary_provider: Option<String>,
    /// Projects added individually, outside any watched folder.
    pub projects: Vec<String>,
}

/// What is found where the state should be.
#[derive(Debug)]
pub enum StateFile {
    /// There is no such file, or it cannot be read.
    Unreadable,
    /// It is not a state; the reason is for the log.
    Malformed(String),
    /// A state of some schema.
    Parsed(AppState),
}

/// A state, and what to log about how it was come by.
#[derive(Debug)]
pub struct LoadedState {
    pub state: AppState,
    pub warning: Option<String>,
}

/// What the environment says of where settings live.
#[derive(Debug)]
pub struct Environment {
    pub platform: Platform,
    /// `APPDATA`
    pub app_data: Option<String>,
    /// `HOME`
    pub home: Option<String>,
    /// `XDG_CONFIG_HOME`
    pub xdg_config_home: Option<String>,
}

/// Aliases by their texts.
pub open spec fn alias_views(list: Seq<PathAliasState>) -> Seq<(Seq<char>, Seq<char>)> {
    list.map_values(|a: PathAliasState| (a.from@, a.to@))
}

/// Whether an alias is for the prefix `key`: trailing separators and the case
/// of ASCII letters do not count.
pub open spec fn is_alias_for(from: Seq<char>, key: Seq<char>) -> bool {
    same_ignoring_case(trim_end_of(Class::Slash, from), key)
}

/// The place of the first alias for `key`; the length where there is none.
pub open spec fn alias_index(list: Seq<(Seq<char>, Seq<char>)>, key: Seq<char>) -> int
    decreases list.len(),
{
    if list.len() == 0 {
        0
    } else {
        let before = alias_index(list.drop_last(), key);
        if before < list.len() - 1 {
            before
        } else if is_alias_for(list.last().0, key) {
            list.len() - 1
        } else {
            list.len() as int
        }
    }
}

/// What a prefix is recorded as.
pub open spec fn alias_key(from: Seq<char>) -> Seq<char> {
    trim_end_of(Class::Slash, trimmed(from))
}

/// The aliases once `from` means `to`: in place of the alias for the same
/// prefix, or behind the others. An empty prefix changes nothing.
pub open spec fn aliases_with(
    list: Seq<(Seq<char>, Seq<char>)>,
    from: Seq<char>,
    to: Seq<char>,
) -> Seq<(Seq<char>, Seq<char>)> {
    let key = alias_key(from);
    let at = alias_index(list, key);
    if key.len() == 0 {
        list
    } else if at < list.len() {
        list.update(at, (key, to))
    } else {
        list.push((key, to))
    }
}

/// The aliases that are not for the prefix `key`.
pub open spec fn aliases_without(
    list: Seq<(Seq<char>, Seq<char>)>,
    key: Seq<char>,
) -> Seq<(Seq<char>, Seq<char>)>
    decreases list.len(),
{
    if list.len() == 0 {
        Seq::empty()
    } else {
        let before = aliases_without(list.drop_last(), key);
        if is_alias_for(list.last().0, key) {
            before
        } else {
            before.push(list.last())
        }
    }
}

/// Whether a folder in the list is `root` or lies above it.
pub open spec fn covered(on: Platform, folders: Seq<String>, root: Seq<char>) -> bool {
    exists|i: int| 0 <= i < folders.len() && is_beneath(on, root, (#[trigger] folders[i])@)
}

/// A list of paths with one more, unless it is there in some spelling.
pub open spec fn with_path(on: Platform, list: Seq<String>, path: Seq<char>) -> Seq<Seq<char>> {
    if lists_path(on, list, path) {
        views(list)
    } else {
        views(list).push(path)
    }
}

/// The revisions that stand for a moment, in order.
pub open spec fn attempts_of(list: Seq<(String, FileRevision)>) -> Seq<(Seq<char>, Moment)>
    decreases list.len(),
{
    if list.len() == 0 {
        Seq::empty()
    } else {
        let before = attempts_of(list.drop_last());
        match list.last().1.moment() {
            Some(moment) => before.push((list.last().0@, moment)),
            None => before,
        }
    }
}

/// Attempts by their values.
pub open spec fn attempt_views(list: Seq<(String, Moment)>) -> Seq<(Seq<char>, Moment)> {
    list.map_values(|a: (String, Moment)| (a.0@, a.1))
}

/// The first sightings once `root` has been seen at `now`.
pub open spec fn seen_with(seen: Map<Seq<char>, i64>, root: Seq<char>, now: i64) -> Map<
    Seq<char>,
    i64,
> {
    if seen.dom().contains(root) {
        seen
    } else {
        seen.insert(root, now)
    }
}

/// The folder for settings on a platform.
pub open spec fn config_folder(environment: Environment) -> Option<Seq<char>> {
    let on = environment.platform;
    match on {
        Platform::Windows => match environment.app_data {
            Some(base) => Some(joined_path(on, joined_path(on, base@, "Auru"@), "pm"@)),
            None => None,
        },
        Platform::MacOs => match environment.home {
            Some(home) => Some(
                joined_path(
                    on,
                    joined_path(on, joined_path(on, home@, "Library"@), "Application Support"@),
                    "studio.auru.pm"@,
                ),
            ),
            None => None,
        },
        Platform::Other => match (environment.xdg_config_home, environment.home) {
            (Some(base), _) => Some(joined_path(on, base@, "auru-pm"@)),
            (None, Some(home)) => Some(joined_path(on, joined_path(on, home@, ".config"@), "auru-pm"@)),
            (None, None) => None,
        },
    }
}

/// Auru's configuration directory.
pub fn config_dir(environment: &Environment) -> (r: Option<String>)
    ensures
        optional_view(r) == config_folder(*environment),
{
    let on = environment.platform;
    match on {
        Platform::Windows => match &environment.app_data {
            Some(base) => Some(join_path(on, join_path(on, base.as_str(), "Auru").as_str(), "pm")),
            None => None,
        },
        Platform::MacOs => match &environment.home {
            Some(home) => {
                let library = join_path(on, home.as_str(), "Library");
                let support = join_path(on, library.as_str(), "Application Support");
                Some(join_path(on, support.as_str(), "studio.auru.pm"))
            },
            None => None,
        },
        Platform::Other => match &environment.xdg_config_home {
            Some(base) => Some(join_path(on, base.as_str(), "auru-pm")),
            None => match &environment.home {
                Some(home) => Some(
                    join_path(on, join_path(on, home.as_str(), ".config").as_str(), "auru-pm"),
                ),
                None => None,
            },
        },
    }
}

impl Default for AppState {
    fn default() -> (r: Self)
        ensures
            r.is_fresh(),
            r.origin is None,
    {
        AppState {
            origin: None,
            schema: STATE_SCHEMA,
            display_name: String::new(),
            onboarding_complete: false,
            appearance: "night".to_owned(),
            automatic_backups: true,
            verify_uploads: true,
            version_retention: "everything".to_owned(),
            sort_order: "attention".to_owned(),
            first_seen: TextMap::new(),
            backup_attempts: TextMap::new(),
            path_aliases: Vec::new(),
            watched_folders: Vec::new(),
            local_providers: Vec::new(),
            connected_providers: Vec::new(),
            primary_provider: None,
            projects: Vec::new(),
        }
    }
}

/// Put `path` behind the others, unless it is there in some spelling.
fn add_path(on: Platform, list: &mut Vec<String>, path: &str)
    ensures
        views(final(list)@) == with_path(on, old(list)@, path@),
{
    if !crate::path::listed(on, list, path) {
        let ghost before = views(list@);
        list.push(path.to_owned());
        assert(views(list@) == before.push(path@));
    }
}

impl AppState {
    /// Whether everything but the origin is as on a first launch.
    pub open spec fn is_fresh(self) -> bool {
        &&& self.schema == STATE_SCHEMA
        &&& self.display_name@ == Seq::<char>::empty()
        &&& !self.onboarding_complete
        &&& self.appearance@ == "night"@
        &&& self.automatic_backups
        &&& self.verify_uploads
        &&& self.version_retention@ == "everything"@
        &&& self.sort_order@ == "attention"@
        &&& self.first_seen@ == Map::<Seq<char>, i64>::empty()
        &&& self.backup_attempts@ == Map::<Seq<char>, FileRevision>::empty()
        &&& self.path_aliases@.len() == 0
        &&& self.watched_folders@.len() == 0
        &&& self.local_providers@.len() == 0
        &&& self.connected_providers@.len() == 0
        &&& self.primary_provider is None
        &&& self.projects@.len() == 0
    }

    pub fn path_aliases(&self) -> (r: &Vec<PathAliasState>)
        ensures
            r == &self.path_aliases,
    {
        &self.path_aliases
    }

    fn find_alias(&self, key: &str) -> (at: usize)
        ensures
            at == alias_index(alias_views(self.path_aliases@), key@),
            at <= self.path_aliases@.len(),
    {
        let ghost all = alias_views(self.path_aliases@);
        let count: usize = self.path_aliases.len();
        let mut found: usize = 0;
        let mut i: usize = 0;
        assert(all.take(0).len() == 0);
        while i < count
            invariant
                i <= count == self.path_aliases@.len(),
                all == alias_views(self.path_aliases@),
                found == alias_index(all.take(i as int), key@),
                found <= i,
            decreases count - i,
        {
            assert(all.take(i + 1).drop_last() == all.take(i as int));
            assert(all[i as int].0 == self.path_aliases@[i as int].from@);
            let recorded = trim_end_class(Class::Slash, self.path_aliases[i].from.as_str());
            if found == i && !equal_ignoring_case(recorded.as_str(), key) {
                found = i + 1;
            }
            i = i + 1;
        }
        assert(all.take(count as int) == all);
        found
    }

    /// Let a recorded prefix mean a local folder.
    pub fn set_path_alias(&mut self, from: &str, to: &str)
        ensures
            alias_views(final(self).path_aliases@) == aliases_with(
                alias_views(old(self).path_aliases@),
                from@,
                to@,
            ),
            *final(self) == (AppState { path_aliases: final(self).path_aliases, ..*old(self) }),
    {
        let from = trim_end_class(Class::Slash, trim(from).as_str());
        if from.as_str().is_empty() {
            return;
        }
        let at: usize = self.find_alias(from.as_str());
        let ghost before = alias_views(self.path_aliases@);
        let replacement = PathAliasState { from, to: to.to_owned() };
        let ghost view = (replacement.from@, replacement.to@);
        if at < self.path_aliases.len() {
            self.path_aliases.set(at, replacement);
            assert(alias_views(self.path_aliases@) == before.update(at as int, view));
        } else {
            self.path_aliases.push(replacement);
            assert(alias_views(self.path_aliases@) == before.push(view));
        }
    }

    /// Forget what a recorded prefix means.
    pub fn remove_path_alias(&mut self, from: &str)
        ensures
            alias_views(final(self).path_aliases@) == aliases_without(
                alias_views(old(self).path_aliases@),
                trim_end_of(Class::Slash, from@),
            ),
            *final(self) == (AppState { path_aliases: final(self).path_aliases, ..*old(self) }),
    {
        let key = trim_end_class(Class::Slash, from);
        let ghost all = alias_views(self.path_aliases@);
        let mut kept: Vec<PathAliasState> = Vec::new();
        let count: usize = self.path_aliases.len();
        let mut i: usize = 0;
        assert(all.take(0).len() == 0);
        while i < count
            invariant
                i <= count == self.path_aliases@.len(),
                *self == *old(self),
                all == alias_views(self.path_aliases@),
                alias_views(kept@) == aliases_without(all.take(i as int), key@),
            decreases count - i,
        {
            assert(all.take(i + 1).drop_last() == all.take(i as int));
            let alias = &self.path_aliases[i];
            assert(all[i as int] == (alias.from@, alias.to@));
            let recorded = trim_end_class(Class::Slash, alias.from.as_str());
            if !equal_ignoring_case(recorded.as_str(), key.as_str()) {
                let ghost before = alias_views(kept@);
                kept.push(PathAliasState { from: alias.from.clone(), to: alias.to.clone() });
                assert(alias_views(kept@) == before.push(all[i as int]));
            }
            i = i + 1;
        }
        assert(all.take(count as int) == all);
        self.path_aliases = kept;
    }

    /// Remember the exact file revision handed to the coordinator. A file
    /// without a usable modification time is not remembered.
    pub fn record_backup_attempt(&mut self, project_id: &str, modified_at: Option<Moment>)
        ensures
            ({
                let seconds = modified_at->Some_0.nanos as int / 1_000_000_000;
                if modified_at is Some && modified_at->Some_0.nanos >= 0 && seconds <= i64::MAX {
                    exists|revision: FileRevision|
                        revision.moment() == modified_at && final(self).backup_attempts@ == old(
                            self,
                        ).backup_attempts@.insert(project_id@, revision)
                } else {
                    final(self).backup_attempts@ == old(self).backup_attempts@
                }
            }),
            *final(self) == (AppState {
                backup_attempts: final(self).backup_attempts,
                ..*old(self)
            }),
    {
        if let Some(at) = modified_at {
            if let Some(revision) = FileRevision::from_system_time(at) {
                self.backup_attempts.insert(project_id, revision);
                assert(revision.moment() == modified_at);
            }
        }
    }

    /// The revisions handed to the coordinator, in order of the project ids.
    pub fn backup_attempts(&self) -> (r: Vec<(String, Moment)>)
        ensures
            attempt_views(r@) == attempts_of(self.backup_attempts.listed()),
            ascending(self.backup_attempts.listed()),
            map_of(self.backup_attempts.listed()) == self.backup_attempts@,
    {
        let list = self.backup_attempts.list();
        let mut out: Vec<(String, Moment)> = Vec::new();
        let mut i: usize = 0;
        while i < list.len()
            invariant
                i <= list.len(),
                attempt_views(out@) == attempts_of(list@.take(i as int)),
            decreases list.len() - i,
        {
            assert(list@.take(i + 1).drop_last() == list@.take(i as int));
            if let Some(moment) = list[i].1.to_system_time() {
                let ghost before = attempt_views(out@);
                out.push((list[i].0.clone(), moment));
                assert(attempt_views(out@) == before.push((list@[i as int].0@, moment)));
            }
            i = i + 1;
        }
        assert(list@.take(i as int) == list@);
        out
    }

    /// Where the state file lives. `None` where the platform gives nowhere to
    /// write, in which case the application forgets.
    pub fn path(environment: &Environment) -> (r: Option<String>)
        ensures
            optional_view(r) == (match config_folder(*environment) {
                Some(folder) => Some(joined_path(environment.platform, folder, "state.json"@)),
                None => None,
            }),
    {
        match config_dir(environment) {
            Some(folder) => Some(join_path(environment.platform, folder.as_str(), "state.json")),
            None => None,
        }
    }

    /// The state to launch with: what the file holds, or a fresh one. Without
    /// a place for the file the state is fresh and is written nowhere.
    pub fn load(environment: &Environment, file: StateFile) -> (r: LoadedState)
        ensures
            config_folder(*environment) is None ==> r.state.is_fresh() && r.state.origin is None
                && r.warning is None,
            config_folder(*environment) matches Some(folder) ==> loads(
                joined_path(environment.platform, folder, "state.json"@),
                file,
                r,
            ),
    {
        match Self::path(environment) {
            Some(path) => Self::load_from(path.as_str(), file),
            None => LoadedState { state: AppState::default(), warning: None },
        }
    }

    /// The state to use for a file. A state that fell back to a fresh one
    /// still belongs to the file.
    pub fn load_from(path: &str, file: StateFile) -> (r: LoadedState)
        ensures
            loads(path@, file, r),
    {
        let mut loaded = Self::read_from(path, file);
        loaded.state.origin = Some(path.to_owned());
        loaded
    }

    fn read_from(path: &str, file: StateFile) -> (r: LoadedState)
        ensures
            reads(path@, file, r),
            !(file is Parsed) || file->Parsed_0.schema > STATE_SCHEMA ==> r.state.origin is None,
    {
        match file {
            StateFile::Unreadable => LoadedState { state: AppState::default(), warning: None },
            StateFile::Malformed(error) => {
                let mut warning = "couldn't read ".to_owned();
                warning.append(path);
                warning.append(": ");
                warning.append(error.as_str());
                LoadedState { state: AppState::default(), warning: Some(warning) }
            },
            StateFile::Parsed(state) => {
                if state.schema <= STATE_SCHEMA {
                    return LoadedState { state, warning: None };
                }
                let mut warning = path.to_owned();
                warning.append(" was written by a newer version (schema ");
                warning.append(decimal_text(state.schema as u128).as_str());
                warning.append("); starting fresh");
                LoadedState { state: AppState::default(), warning: Some(warning) }
            },
        }
    }

    /// Where the state is to be written, if anywhere.
    pub fn save_path(&self) -> (r: Option<&String>)
        ensures
            self.origin is None == (r is None),
            r matches Some(path) ==> self.origin == Some(*path),
    {
        self.origin.as_ref()
    }

    /// What saving comes to, given how the write to [`Self::save_path`] went.
    /// A state built in memory is written nowhere, which is no failure.
    pub fn save_checked(&self, written: Result<(), String>) -> (r: Result<(), String>)
        ensures
            r is Err <==> self.origin is Some && written is Err,
            r matches Err(message) ==> message@ == "couldn't save "@ + self.origin->Some_0@ + ": "@
                + written->Err_0@,
    {
        match (&self.origin, written) {
            (Some(path), Err(error)) => {
                let mut message = "couldn't save ".to_owned();
                message.append(path.as_str());
                message.append(": ");
                message.append(error.as_str());
                Err(message)
            },
            _ => Ok(()),
        }
    }

    /// Add a watched folder, ignoring one already being watched.
    pub fn watch(&mut self, on: Platform, path: &str)
        ensures
            views(final(self).watched_folders@) == with_path(on, old(self).watched_folders@, path@),
            *final(self) == (AppState {
                watched_folders: final(self).watched_folders,
                ..*old(self)
            }),
    {
        add_path(on, &mut self.watched_folders, path);
    }

    /// Add an individually-added project. One that a watched folder covers is
    /// not recorded: the scan finds it anyway.
    pub fn add_project(&mut self, on: Platform, root: &str)
        ensures
            views(final(self).projects@) == (if covered(on, old(self).watched_folders@, root@) {
                views(old(self).projects@)
            } else {
                with_path(on, old(self).projects@, root@)
            }),
            *final(self) == (AppState { projects: final(self).projects, ..*old(self) }),
    {
        if !self.is_watched(on, root) {
            add_path(on, &mut self.projects, root);
        }
    }

    /// Add a backup destination folder, ignoring one already recorded.
    pub fn add_local_provider(&mut self, on: Platform, path: &str)
        ensures
            views(final(self).local_providers@) == with_path(on, old(self).local_providers@, path@),
            *final(self) == (AppState {
                local_providers: final(self).local_providers,
                ..*old(self)
            }),
    {
        add_path(on, &mut self.local_providers, path);
    }

    /// Record a provider as connected. The first one becomes the default.
    pub fn connect_provider(&mut self, provider_id: &str)
        ensures
            views(final(self).connected_providers@) == (if holds_text(
                old(self).connected_providers@,
                provider_id@,
            ) {
                views(old(self).connected_providers@)
            } else {
                views(old(self).connected_providers@).push(provider_id@)
            }),
            optional_view(final(self).primary_provider) == (match old(self).primary_provider {
                Some(known) => Some(known@),
                None => Some(provider_id@),
            }),
            *final(self) == (AppState {
                connected_providers: final(self).connected_providers,
                primary_provider: final(self).primary_provider,
                ..*old(self)
            }),
    {
        if !list_holds(&self.connected_providers, provider_id) {
            let ghost before = views(self.connected_providers@);
            self.connected_providers.push(provider_id.to_owned());
            assert(views(self.connected_providers@) == before.push(provider_id@));
        }
        if self.primary_provider.is_none() {
            self.primary_provider = Some(provider_id.to_owned());
        }
    }

    pub fn is_provider_connected(&self, provider_id: &str) -> (r: bool)
        ensures
            r == holds_text(self.connected_providers@, provider_id@),
    {
        list_holds(&self.connected_providers, provider_id)
    }

    /// Record when a project was first seen, and return that time: `now` the
    /// first time, what was recorded ever after.
    pub fn note_first_seen(&mut self, root: &str, now: i64) -> (r: i64)
        ensures
            final(self).first_seen@.dom().contains(root@),
            r == final(self).first_seen@[root@],
            final(self).first_seen@ == seen_with(old(self).first_seen@, root@, now),
            *final(self) == (AppState { first_seen: final(self).first_seen, ..*old(self) }),
    {
        if let Some(known) = self.first_seen.get(root) {
            return *known;
        }
        self.first_seen.insert(root, now);
        now
    }

    /// Whether `root` sits inside a folder already being watched.
    pub fn is_watched(&self, on: Platform, root: &str) -> (r: bool)
        ensures
            r == covered(on, self.watched_folders@, root@),
    {
        let mut i: usize = 0;
        while i < self.watched_folders.len()
            invariant
                i <= self.watched_folders@.len(),
                forall|j: int|
                    0 <= j < i ==> !is_beneath(on, root@, (#[trigger] self.watched_folders@[j])@),
            decreases self.watched_folders@.len() - i,
        {
            if crate::path::starts_with(on, root, self.watched_folders[i].as_str()) {
                return true;
            }
            i = i + 1;
        }
        false
    }
}

/// What is read of a file: its state, where it holds one of a known schema,
/// and otherwise a fresh one, with a word for the log unless there is no file.
pub open spec fn reads(path: Seq<char>, file: StateFile, loaded: LoadedState) -> bool {
    match file {
        StateFile::Unreadable => loaded.state.is_fresh() && loaded.warning is None,
        StateFile::Malformed(error) => loaded.state.is_fresh() && optional_view(loaded.warning)
            == Some("couldn't read "@ + path + ": "@ + error@),
        StateFile::Parsed(state) => if state.schema <= STATE_SCHEMA {
            loaded.state == (AppState { origin: loaded.state.origin, ..state })
                && loaded.warning is None
        } else {
            loaded.state.is_fresh() && optional_view(loaded.warning) == Some(
                path + " was written by a newer version (schema "@ + decimal(state.schema as nat)
                    + "); starting fresh"@,
            )
        },
    }
}

/// What is loaded from a file: what is read of it, as a state that belongs to
/// that file.
pub open spec fn loads(path: Seq<char>, file: StateFile, loaded: LoadedState) -> bool {
    reads(path, file, loaded) && optional_view(loaded.state.origin) == Some(path)
}

/// A project keeps the time it was first found, however often it is seen
/// again, and no sighting of another project changes it.
pub proof fn first_sightings_are_kept(
    seen: Map<Seq<char>, i64>,
    root: Seq<char>,
    first: i64,
    other: Seq<char>,
    later: i64,
)
    ensures
        seen_with(seen_with(seen, root, first), other, later)[root] == seen_with(
            seen,
            root,
            first,
        )[root],
        seen.dom().contains(root) ==> seen_with(seen, root, first)[root] == seen[root],
        seen.dom().subset_of(seen_with(seen, root, first).dom()),
{
}

/// A path is recorded once, however often it is added.
pub proof fn paths_are_recorded_once(
    on: Platform,
    list: Seq<String>,
    after: Seq<String>,
    path: Seq<char>,
)
    requires
        views(after) == with_path(on, list, path),
    ensures
        lists_path(on, after, path),
        with_path(on, after, path) == views(after),
{
    assert(views(after).len() == after.len());
    assert(views(list).len() == list.len());
    if lists_path(on, list, path) {
        let i = choose|i: int| 0 <= i < list.len() && same_path(on, (#[trigger] list[i])@, path);
        assert(views(after)[i] == list[i]@);
        assert(same_path(on, after[i]@, path));
    } else {
        let i = after.len() - 1;
        assert(views(after)[i] == path);
        assert(same_path(on, after[i]@, path));
    }
}

proof fn trim_end_twice(class: Class, s: Seq<char>)
    ensures
        trim_end_of(class, trim_end_of(class, s)) == trim_end_of(class, s),
    decreases s.len(),
{
    if s.len() > 0 && class.has(s.last()) {
        trim_end_twice(class, s.drop_last());
    }
}

proof fn alias_index_is_first(list: Seq<(Seq<char>, Seq<char>)>, key: Seq<char>)
    ensures
        0 <= alias_index(list, key) <= list.len(),
        forall|i: int|
            0 <= i < alias_index(list, key) ==> !is_alias_for((#[trigger] list[i]).0, key),
        alias_index(list, key) < list.len() ==> is_alias_for(list[alias_index(list, key)].0, key),
    decreases list.len(),
{
    if list.len() > 0 {
        let shorter = list.drop_last();
        alias_index_is_first(shorter, key);
        assert forall|i: int| 0 <= i < alias_index(list, key) implies !is_alias_for(
            (#[trigger] list[i]).0,
            key,
        ) by {
            if i < shorter.len() {
                assert(list[i] == shorter[i]);
            }
        }
        if alias_index(shorter, key) < shorter.len() {
            assert(list[alias_index(shorter, key)] == shorter[alias_index(shorter, key)]);
        }
    }
}

/// Whether no two aliases are for the same prefix.
pub open spec fn aliases_distinct(list: Seq<(Seq<char>, Seq<char>)>) -> bool {
    forall|i: int, j: int|
        #![trigger list[i], list[j]]
        0 <= i < j < list.len() ==> !same_ignoring_case(
            trim_end_of(Class::Slash, list[i].0),
            trim_end_of(Class::Slash, list[j].0),
        )
}

/// Recording an alias keeps every prefix down to one alias, makes the prefix
/// mean the folder, and leaves the other prefixes alone.
pub proof fn aliases_stay_distinct(
    list: Seq<(Seq<char>, Seq<char>)>,
    from: Seq<char>,
    to: Seq<char>,
)
    requires
        aliases_distinct(list),
    ensures
        aliases_distinct(aliases_with(list, from, to)),
        alias_key(from).len() > 0 ==> aliases_with(list, from, to).contains((alias_key(from), to)),
        forall|i: int|
            0 <= i < list.len() && !is_alias_for((#[trigger] list[i]).0, alias_key(from))
                ==> aliases_with(list, from, to)[i] == list[i],
{
    let key = alias_key(from);
    let after = aliases_with(list, from, to);
    let at = alias_index(list, key);
    alias_index_is_first(list, key);
    trim_end_twice(Class::Slash, trimmed(from));
    assert(trim_end_of(Class::Slash, key) == key);
    if key.len() > 0 {
        assert(after[at] == (key, to));
        assert forall|i: int, j: int|
            #![trigger after[i], after[j]]
            0 <= i < j < after.len() implies !same_ignoring_case(
            trim_end_of(Class::Slash, after[i].0),
            trim_end_of(Class::Slash, after[j].0),
        ) by {
            if j == at {
                assert(after[i] == list[i]);
            } else if i == at {
                assert(after[j] == list[j]);
                if same_ignoring_case(key, trim_end_of(Class::Slash, list[j].0)) {
                    assert(is_alias_for(list[at].0, key));
                    assert(same_ignoring_case(
                        trim_end_of(Class::Slash, list[at].0),
                        trim_end_of(Class::Slash, list[j].0),
                    ));
                }
            } else {
                assert(after[i] == list[i] && after[j] == list[j]);
            }
        }
    }
}

/// A removed prefix has no alias left, and the other prefixes keep theirs.
pub proof fn removed_aliases_are_gone(
    list: Seq<(Seq<char>, Seq<char>)>,
    key: Seq<char>,
    alias: (Seq<char>, Seq<char>),
)
    ensures
        aliases_without(list, key).contains(alias) <==> list.contains(alias) && !is_alias_for(
            alias.0,
            key,
        ),
    decreases list.len(),
{
    if list.len() > 0 {
        let shorter = list.drop_last();
        removed_aliases_are_gone(shorter, key, alias);
        let before = aliases_without(shorter, key);
        let after = aliases_without(list, key);
        if shorter.contains(alias) {
            let i = choose|i: int| 0 <= i < shorter.len() && shorter[i] == alias;
            assert(list[i] == alias);
        }
        if list.contains(alias) && list.last() != alias {
            let i = choose|i: int| 0 <= i < list.len() && list[i] == alias;
            assert(shorter[i] == alias);
        }
        if before.contains(alias) {
            let i = choose|i: int| 0 <= i < before.len() && before[i] == alias;
            assert(after[i] == alias);
        }
        if after.contains(alias) && !before.contains(alias) {
            let i = choose|i: int| 0 <= i < after.len() && after[i] == alias;
            if i < before.len() {
                assert(before[i] == alias);
            }
            assert(list.last() == alias);
        }
        if list.last() == alias {
            assert(list[list.len() - 1] == alias);
            if !is_alias_for(alias.0, key) {
                assert(after[after.len() - 1] == alias);
            }
        }
    }
}

/// A scheduler made from the recorded attempts knows, for every project, the
/// revision that was recorded: a restart forgets none of them.
pub proof fn attempts_survive_a_restart(
    recorded: Seq<(String, FileRevision)>,
    restored: Seq<(String, Moment)>,
    project_id: Seq<char>,
)
    requires
        ascending(recorded),
        attempt_views(restored) == attempts_of(recorded),
    ensures
        ({
            let known = revisions_of(restored);
            let kept = map_of(recorded);
            &&& known.dom().contains(project_id) <==> kept.dom().contains(project_id)
                && kept[project_id].moment() is Some
            &&& known.dom().contains(project_id) ==> Some(known[project_id])
                == kept[project_id].moment()
        }),
    decreases recorded.len(),
{
    let known = revisions_of(restored);
    let kept = map_of(recorded);
    if recorded.len() == 0 {
        assert(attempt_views(restored).len() == 0);
    } else {
        let shorter = recorded.drop_last();
        let last = recorded.last();
        assert(ascending(shorter));
        let shorter_restored = if last.1.moment() is Some {
            restored.drop_last()
        } else {
            restored
        };
        if last.1.moment() is Some {
            assert(attempt_views(restored) == attempts_of(shorter).push(
                (last.0@, last.1.moment()->Some_0),
            ));
            assert(attempt_views(restored.drop_last()) == attempt_views(restored).drop_last());
            assert(attempt_views(restored.drop_last()) == attempts_of(shorter));
            assert(attempt_views(restored).last() == (restored.last().0@, restored.last().1));
        }
        attempts_survive_a_restart(shorter, shorter_restored, project_id);
        listed_entry(recorded, recorded.len() - 1);
        if has_key(shorter, project_id) {
            let i = choose|i: int|
                0 <= i < shorter.len() && (#[trigger] shorter[i]).0@ == project_id;
            assert(recorded[i] == shorter[i]);
            listed_entry(recorded, i);
            listed_entry(shorter, i);
        }
        if has_key(recorded, project_id) && project_id != last.0@ {
            let i = choose|i: int|
                0 <= i < recorded.len() && (#[trigger] recorded[i]).0@ == project_id;
            assert(shorter[i] == recorded[i]);
        }
        if project_id == last.0@ && has_key(shorter, project_id) {
            let i = choose|i: int|
                0 <= i < shorter.len() && (#[trigger] shorter[i]).0@ == project_id;
            assert(recorded[i].0@ != recorded[recorded.len() - 1].0@);
        }
    }
}

} // verus!
