//! Backups and restores as the window runs them.
use vstd::prelude::*;

use crate::automatic_backup::{all_due, candidate_views, AutomaticBackupReason, ProjectObservation};
use crate::backup::{first_choices, BackupReceipt, BackupRequest, BackupResult, BackupStart,
    BackupVerification, ConflictBackup, ConflictChoice, PreparedBackup};
use crate::catalog::{default_listing, find_provider, first_connected, provider_index, same_listing,
    ProviderListing};
use crate::format::{copy_location, CommitSummary, ProjectLocation};
use crate::library::{find_project, has_project, project_index};
use crate::manager::{PendingConflict, ProjectManager};
use crate::moment::Moment;
use crate::navigation::{Overlay, OverlayHost, OverlayState};
use crate::notice::{joined2, joined3, notice_view, says, Notice, NoticeLevel, NoticeView};
use crate::project::{LocalFiles, Project};
use crate::retention::RetentionReport;
use crate::sizes::{bytes_text, format_bytes};
use crate::state::{alias_views, AppState, PathAliasState};
use crate::status::{ProjectAction, ProjectStatus, SyncDirection};
use crate::text::{copy_optional, count_text, decimal, equal_ignoring_case, optional_view, same, same_ignoring_case,
    views};

verus! {

// ---------------------------------------------------------------------------
// Changing one project
// ---------------------------------------------------------------------------

/// A project whose transfer failed.
pub open spec fn failed(project: Project, files: LocalFiles) -> Project {
    if project.status is Syncing {
        Project {
            status: if project.live_set is Some {
                files.disk_status()
            } else {
                ProjectStatus::OutOfSync(SyncDirection::LocalAhead)
            },
            sync_progress: 0,
            ..project
        }
    } else {
        project
    }
}

/// A library in which the transfer of a project failed.
pub open spec fn with_failed(projects: Seq<Project>, id: Seq<char>, files: LocalFiles) -> Seq<Project> {
    if has_project(projects, id) {
        let at = project_index(projects, id);
        projects.update(at, failed(projects[at], files))
    } else {
        projects
    }
}

fn fail_project(projects: &mut Vec<Project>, id: &str, files: &LocalFiles)
    ensures
        final(projects)@ == with_failed(old(projects)@, id@, *files),
{
    if let Some(at) = find_project(projects, id) {
        projects[at].fail_transfer(files);
    }
}

/// A library in which a project has a status, with nothing transferred yet.
pub open spec fn with_status(projects: Seq<Project>, id: Seq<char>, status: ProjectStatus) -> Seq<Project> {
    if has_project(projects, id) {
        let at = project_index(projects, id);
        projects.update(at, Project { status, sync_progress: 0, ..projects[at] })
    } else {
        projects
    }
}

fn set_status(projects: &mut Vec<Project>, id: &str, status: ProjectStatus)
    ensures
        final(projects)@ == with_status(old(projects)@, id@, status),
{
    if let Some(at) = find_project(projects, id) {
        projects[at].status = status;
        projects[at].sync_progress = 0;
    }
}

/// A library in which only the status of a project is another.
pub open spec fn with_bare_status(projects: Seq<Project>, id: Seq<char>, status: ProjectStatus) -> Seq<
    Project,
> {
    if has_project(projects, id) {
        let at = project_index(projects, id);
        projects.update(at, Project { status, ..projects[at] })
    } else {
        projects
    }
}

// ---------------------------------------------------------------------------
// Where a project goes
// ---------------------------------------------------------------------------

/// The place of the first connected provider with an id; the length where there
/// is none.
pub open spec fn connected_index(list: Seq<ProviderListing>, id: Seq<char>) -> int
    decreases list.len(),
{
    if list.len() == 0 {
        0
    } else {
        let before = connected_index(list.drop_last(), id);
        if before < list.len() - 1 || (list.last().entry.id@ == id && list.last().availability
            is Connected) {
            before
        } else {
            list.len() as int
        }
    }
}

fn find_connected(list: &Vec<ProviderListing>, id: &str) -> (r: Option<usize>)
    ensures
        r is None == (connected_index(list@, id@) == list@.len()),
        r matches Some(at) ==> at == connected_index(list@, id@) && at < list@.len(),
{
    let mut i: usize = 0;
    let mut found: Option<usize> = None;
    assert(list@.take(0).len() == 0);
    while i < list.len()
        invariant
            i <= list@.len(),
            found is None ==> connected_index(list@.take(i as int), id@) == i,
            found matches Some(at) ==> at < i && at == connected_index(list@.take(i as int), id@),
        decreases list@.len() - i,
    {
        assert(list@.take(i + 1).drop_last() =~= list@.take(i as int));
        if found.is_none() && same(list[i].entry.id.as_str(), id) && list[i].is_connected() {
            found = Some(i);
        }
        i = i + 1;
    }
    assert(list@.take(i as int) =~= list@);
    found
}

/// The place of the provider that a project's own records name, if it is
/// listed.
pub open spec fn own_provider(providers: Seq<ProviderListing>, primary: Option<Seq<char>>) -> Option<int> {
    match primary {
        Some(id) => if provider_index(providers, id) < providers.len() {
            Some(provider_index(providers, id))
        } else {
            None
        },
        None => None,
    }
}

/// Where a project is backed up: with the provider its own records name, else
/// with the default one if it is connected, else with the first that is.
pub open spec fn destination(
    providers: Seq<ProviderListing>,
    primary: Option<Seq<char>>,
    default: Option<Seq<char>>,
) -> Option<int> {
    if own_provider(providers, primary) is Some {
        own_provider(providers, primary)
    } else {
        match default {
            Some(id) if connected_index(providers, id) < providers.len() => Some(
                connected_index(providers, id),
            ),
            _ => if first_connected(providers) < providers.len() {
                Some(first_connected(providers))
            } else {
                None
            },
        }
    }
}

/// Whether a result is the place of a provider, or none.
pub open spec fn is_place(r: Option<usize>, place: Option<int>, providers: Seq<ProviderListing>) -> bool {
    match r {
        Some(at) => place == Some(at as int) && at < providers.len(),
        None => place is None,
    }
}

fn find_own_provider(providers: &Vec<ProviderListing>, primary: &Option<String>) -> (r: Option<usize>)
    ensures
        is_place(r, own_provider(providers@, optional_view(*primary)), providers@),
{
    match primary {
        Some(id) => find_provider(providers, id.as_str()),
        None => None,
    }
}

/// The path prefixes to follow for a backup: those that come with every backup,
/// and the person's own, which replace one of the same prefix.
pub open spec fn bundle_aliases(
    defaults: Seq<(Seq<char>, Seq<char>)>,
    saved: Seq<(Seq<char>, Seq<char>)>,
) -> Seq<(Seq<char>, Seq<char>)>
    decreases saved.len(),
{
    if saved.len() == 0 {
        defaults
    } else {
        let before = bundle_aliases(defaults, saved.drop_last());
        let at = prefix_index(before, saved.last().0);
        if at < before.len() {
            before.update(at, saved.last())
        } else {
            before.push(saved.last())
        }
    }
}

/// The place of the first alias of a prefix, in whatever case; the length where
/// there is none.
pub open spec fn prefix_index(list: Seq<(Seq<char>, Seq<char>)>, from: Seq<char>) -> int
    decreases list.len(),
{
    if list.len() == 0 {
        0
    } else {
        let before = prefix_index(list.drop_last(), from);
        if before < list.len() - 1 || same_ignoring_case(list.last().0, from) {
            before
        } else {
            list.len() as int
        }
    }
}

fn find_prefix(list: &Vec<PathAliasState>, from: &str) -> (r: usize)
    ensures
        r == prefix_index(alias_views(list@), from@),
        r <= list@.len(),
{
    let ghost all = alias_views(list@);
    let mut found: usize = 0;
    let mut i: usize = 0;
    assert(all.len() == list@.len());
    assert(all.take(0).len() == 0);
    while i < list.len()
        invariant
            i <= list@.len(),
            all == alias_views(list@),
            all.len() == list@.len(),
            found <= i,
            found == prefix_index(all.take(i as int), from@),
        decreases list@.len() - i,
    {
        assert(all.take(i + 1).drop_last() =~= all.take(i as int));
        assert(all[i as int].0 == list@[i as int].from@);
        if found == i && !equal_ignoring_case(list[i].from.as_str(), from) {
            found = i + 1;
        }
        i = i + 1;
    }
    assert(all.take(i as int) =~= all);
    found
}

/// The path prefixes to follow for a backup.
pub fn backup_bundle_policy(defaults: Vec<PathAliasState>, saved: &Vec<PathAliasState>) -> (r: Vec<
    PathAliasState,
>)
    ensures
        alias_views(r@) == bundle_aliases(alias_views(defaults@), alias_views(saved@)),
{
    let ghost base = alias_views(defaults@);
    let ghost all = alias_views(saved@);
    let mut aliases = defaults;
    let mut i: usize = 0;
    assert(all.len() == saved@.len());
    assert(all.take(0).len() == 0);
    while i < saved.len()
        invariant
            i <= saved@.len(),
            all == alias_views(saved@),
            all.len() == saved@.len(),
            alias_views(aliases@) == bundle_aliases(base, all.take(i as int)),
        decreases saved@.len() - i,
    {
        assert(all.take(i + 1).drop_last() =~= all.take(i as int));
        assert(all.take(i + 1).last() == all[i as int]);
        let ghost before = alias_views(aliases@);
        let alias = PathAliasState { from: saved[i].from.clone(), to: saved[i].to.clone() };
        let ghost view = (alias.from@, alias.to@);
        assert(view == all[i as int]);
        let at: usize = find_prefix(&aliases, alias.from.as_str());
        assert(before.len() == aliases@.len());
        if at < aliases.len() {
            aliases.set(at, alias);
            assert(alias_views(aliases@) =~= before.update(at as int, view));
        } else {
            aliases.push(alias);
            assert(alias_views(aliases@) =~= before.push(view));
        }
        i = i + 1;
    }
    assert(all.take(i as int) =~= all);
    aliases
}

// ---------------------------------------------------------------------------
// Starting a backup
// ---------------------------------------------------------------------------

/// A backup to prepare.
#[derive(Debug)]
pub struct BackupJob {
    pub project_id: String,
    pub project_name: String,
    pub project_path: String,
    pub location: Option<ProjectLocation>,
    /// The provider, as it was listed when the backup was asked for.
    pub listing: ProviderListing,
    pub request: BackupRequest,
    pub start: BackupStart,
}

/// What asking for a backup came to.
#[derive(Debug)]
pub enum BackupLaunch {
    Nothing,
    Refused(Notice),
    Prepare(BackupJob),
}

/// What asking for a backup can know beside the manager: the provider that the
/// project's own records name, the path prefixes that come with every backup,
/// and the time.
#[derive(Debug)]
pub struct BackupContext {
    pub primary: Option<String>,
    pub default_aliases: Vec<PathAliasState>,
    /// Unix seconds.
    pub now: i64,
}

/// What asking for a backup can know beside the manager, by its texts.
pub struct ContextView {
    pub primary: Option<Seq<char>>,
    pub default_aliases: Seq<(Seq<char>, Seq<char>)>,
    pub now: i64,
}

impl View for BackupContext {
    type V = ContextView;

    open spec fn view(&self) -> ContextView {
        ContextView {
            primary: optional_view(self.primary),
            default_aliases: alias_views(self.default_aliases@),
            now: self.now,
        }
    }
}

impl ProjectManager {
    /// Whether a job is that of a project with a provider.
    pub open spec fn is_job(
        self,
        job: BackupJob,
        project: Project,
        provider: int,
        context: ContextView,
        start: BackupStart,
    ) -> bool {
        &&& job.project_id@ == project.id@
        &&& job.project_name@ == project.name@
        &&& Some(job.project_path@) == optional_view(project.live_set)
        &&& job.location == project.location
        &&& same_listing(job.listing, self.providers@[provider])
        &&& job.start == start
        &&& job.request.provider_id@ == self.providers@[provider].entry.id@
        &&& job.request.provider_name@ == self.providers@[provider].entry.name@
        &&& job.request.display_name@ == self.display_name@
        &&& job.request.retention_rule == self.version_retention.rule(context.now)
        &&& job.request.verify_uploads == self.verify_uploads
        &&& alias_views(job.request.path_aliases@) == bundle_aliases(
            context.default_aliases,
            alias_views(self.state.path_aliases@),
        )
    }

    /// Whether `after` and `launch` are what asking for a backup comes to: it is
    /// refused where the project is not here or there is nowhere to put it, and
    /// it is for nothing where the project's next action is no transfer.
    pub open spec fn launches(
        self,
        index: int,
        start: BackupStart,
        context: ContextView,
        after: ProjectManager,
        launch: BackupLaunch,
    ) -> bool {
        if index >= self.projects@.len() {
            after == self && launch is Nothing
        } else {
            let project = self.projects@[index];
            let place = destination(
                self.providers@,
                context.primary,
                optional_view(self.state.primary_provider),
            );
            if project.live_set is None {
                &&& after == self
                &&& launch matches BackupLaunch::Refused(notice)
                &&& notice@ == says(
                    NoticeLevel::Error,
                    "Can't back up this project"@,
                    "The project file is not on this computer."@,
                )
            } else if place is None {
                &&& after == (ProjectManager {
                    overlay: OverlayState {
                        host: OverlayHost::Main,
                        overlay: Overlay::ProviderPicker,
                    },
                    ..self
                })
                &&& launch matches BackupLaunch::Refused(notice)
                &&& notice@ == says(
                    NoticeLevel::Warning,
                    "Choose where backups live"@,
                    "Connect a provider or add a local backup folder first."@,
                )
            } else if !project.status.next_action().transfers() {
                after == self && launch is Nothing
            } else {
                let begun = after.projects@[index];
                &&& launch matches BackupLaunch::Prepare(job)
                &&& self.is_job(job, project, place->0, context, start)
                &&& after == (ProjectManager { projects: after.projects, ..self })
                &&& after.projects@ == self.projects@.update(index, begun)
                &&& begun.last_activity@ == "started just now"@
                &&& begun == (Project {
                    status: ProjectStatus::Syncing,
                    sync_progress: 0,
                    last_activity: begun.last_activity,
                    ..project
                })
            }
        }
    }

    /// The place of the provider a project is backed up to.
    pub fn backup_destination_for(&self, primary: &Option<String>) -> (r: Option<usize>)
        ensures
            is_place(
                r,
                destination(
                    self.providers@,
                    optional_view(*primary),
                    optional_view(self.state.primary_provider),
                ),
                self.providers@,
            ),
    {
        let own = find_own_provider(&self.providers, primary);
        if own.is_some() {
            return own;
        }
        if let Some(id) = &self.state.primary_provider {
            let known = find_connected(&self.providers, id.as_str());
            if known.is_some() {
                return known;
            }
        }
        default_listing(&self.providers)
    }

    /// Ask for a backup of a project.
    pub fn start_project_backup(&mut self, index: usize, start: BackupStart, context: BackupContext) -> (r:
        BackupLaunch)
        ensures
            old(self).launches(index as int, start, context@, *final(self), r),
    {
        if index >= self.projects.len() {
            return BackupLaunch::Nothing;
        }
        let project_path = match &self.projects[index].live_set {
            Some(path) => path.clone(),
            None => {
                return BackupLaunch::Refused(
                    Notice::error(
                        "Can't back up this project",
                        "The project file is not on this computer.",
                    ),
                );
            },
        };
        let provider: usize = match self.backup_destination_for(&context.primary) {
            Some(provider) => provider,
            None => {
                self.overlay.show(OverlayHost::Main, Overlay::ProviderPicker);
                return BackupLaunch::Refused(
                    Notice::warning(
                        "Choose where backups live",
                        "Connect a provider or add a local backup folder first.",
                    ),
                );
            },
        };
        let request = BackupRequest {
            provider_id: self.providers[provider].entry.id.clone(),
            provider_name: self.providers[provider].entry.name.clone(),
            display_name: self.display_name.clone(),
            retention_rule: self.version_retention.rule_at(context.now),
            verify_uploads: self.verify_uploads,
            path_aliases: backup_bundle_policy(context.default_aliases, &self.state.path_aliases),
        };
        let job = BackupJob {
            project_id: self.projects[index].id.clone(),
            project_name: self.projects[index].name.clone(),
            project_path,
            location: copy_location(&self.projects[index].location),
            listing: self.providers[provider].clone(),
            request,
            start,
        };
        if !self.projects[index].status.action().starts_transfer() {
            return BackupLaunch::Nothing;
        }
        let _ = self.projects[index].begin_transfer();
        BackupLaunch::Prepare(job)
    }
}

// ---------------------------------------------------------------------------
// Preparing
// ---------------------------------------------------------------------------

/// What follows the preparation of a backup.
#[derive(Debug)]
pub enum PreparedStep {
    /// The backup is off.
    Failed(Notice),
    /// A newer save waits for its own quiet period.
    Deferred,
    /// Save the state, which now records the revision, before publishing it.
    Record,
}

/// What is said where a backup fails.
pub open spec fn backup_failed(name: Seq<char>, message: Seq<char>) -> NoticeView {
    says(NoticeLevel::Error, "Couldn't back up "@ + name, message)
}

fn backup_failure(name: &str, message: &str) -> (r: Notice)
    ensures
        r@ == backup_failed(name@, message@),
{
    Notice::error(joined2("Couldn't back up ", name).as_str(), message)
}

/// Whether `after` is a state that records the revision handed to the
/// coordinator.
pub open spec fn records_attempt(
    before: AppState,
    after: AppState,
    project_id: Seq<char>,
    revision: Option<Moment>,
) -> bool {
    &&& after == (AppState { backup_attempts: after.backup_attempts, ..before })
    &&& ({
        let seconds = revision->Some_0.nanos as int / 1_000_000_000;
        if revision is Some && revision->Some_0.nanos >= 0 && seconds <= i64::MAX {
            exists|recorded: crate::moment::FileRevision|
                recorded.moment() == revision && after.backup_attempts@
                    == before.backup_attempts@.insert(project_id, recorded)
        } else {
            after.backup_attempts@ == before.backup_attempts@
        }
    })
}

impl ProjectManager {
    /// Remember which revision is handed to the coordinator, for the scheduler
    /// and for the next launch.
    pub fn record_backup_revision(&mut self, project_id: &str, revision: Option<Moment>)
        ensures
            final(self).automatic_backup_scheduler@ == (match revision {
                Some(at) => old(self).automatic_backup_scheduler@.insert(project_id@, at),
                None => old(self).automatic_backup_scheduler@,
            }),
            records_attempt(old(self).state, final(self).state, project_id@, revision),
            *final(self) == (ProjectManager {
                automatic_backup_scheduler: final(self).automatic_backup_scheduler,
                state: final(self).state,
                ..*old(self)
            }),
    {
        self.automatic_backup_scheduler.record_backup_attempt(project_id, revision);
        self.state.record_backup_attempt(project_id, revision);
    }

    /// Whether `after` and `step` are what follows once a backup is prepared, or is
    /// not.
    pub open spec fn takes_up(
        self,
        job: BackupJob,
        prepared: Result<PreparedBackup, String>,
        files: LocalFiles,
        after: ProjectManager,
        step: PreparedStep,
    ) -> bool {
        match prepared {
            Err(message) => {
                &&& step matches PreparedStep::Failed(notice)
                &&& notice@ == backup_failed(job.project_name@, message@)
                &&& after.projects@ == with_failed(
                    self.projects@,
                    job.project_id@,
                    files,
                )
                &&& after == (ProjectManager {
                    projects: after.projects,
                    ..self
                })
            },
            Ok(prepared) => match job.start {
                BackupStart::AfterQuietPeriod { qualified_revision } if prepared.source_revision
                    != Some(qualified_revision) => {
                    &&& step is Deferred
                    &&& after.projects@ == with_failed(
                        self.projects@,
                        job.project_id@,
                        files,
                    )
                    &&& after == (ProjectManager {
                        projects: after.projects,
                        ..self
                    })
                },
                _ => {
                    &&& step is Record
                    &&& after.automatic_backup_scheduler@ == (
                    match prepared.source_revision {
                        Some(at) => self.automatic_backup_scheduler@.insert(
                            job.project_id@,
                            at,
                        ),
                        None => self.automatic_backup_scheduler@,
                    })
                    &&& records_attempt(
                        self.state,
                        after.state,
                        job.project_id@,
                        prepared.source_revision,
                    )
                    &&& after == (ProjectManager {
                        automatic_backup_scheduler: after.automatic_backup_scheduler,
                        state: after.state,
                        ..self
                    })
                },
            },
        }
    }

    /// Go on once a backup is prepared, or is not. A revision that is not the
    /// one that qualified is left for later; one that is, is recorded before
    /// anything is published.
    pub fn backup_prepared(
        &mut self,
        job: &BackupJob,
        prepared: &Result<PreparedBackup, String>,
        files: &LocalFiles,
    ) -> (r: PreparedStep)
        ensures
            old(self).takes_up(*job, *prepared, *files, *final(self), r),
    {
        match prepared {
            Err(message) => {
                fail_project(&mut self.projects, job.project_id.as_str(), files);
                PreparedStep::Failed(backup_failure(job.project_name.as_str(), message.as_str()))
            },
            Ok(prepared) => {
                let revision = prepared.source_revision();
                if !job.start.accepts_prepared_revision(revision) {
                    fail_project(&mut self.projects, job.project_id.as_str(), files);
                    return PreparedStep::Deferred;
                }
                self.record_backup_revision(job.project_id.as_str(), revision);
                PreparedStep::Record
            },
        }
    }

    /// Whether `after` and `said` are what follows once the state with the recorded
    /// revision was written, or could not be.
    pub open spec fn goes_on(
        self,
        job: BackupJob,
        written: Result<(), String>,
        files: LocalFiles,
        after: ProjectManager,
        said: Option<NoticeView>,
    ) -> bool {
        let lost = self.state.origin is Some && written is Err;
        &&& said is Some == lost
        &&& !lost ==> after == self
        &&& lost ==> {
            &&& said == Some(
                backup_failed(
                    job.project_name@,
                    "Record the project revision before uploading: couldn't save "@ + self.state.origin->Some_0@ + ": "@ + written->Err_0@,
                ),
            )
            &&& after.projects@ == with_failed(
                self.projects@,
                job.project_id@,
                files,
            )
            &&& after == (ProjectManager {
                projects: after.projects,
                ..self
            })
        }
    }

    /// Go on once the state with the recorded revision was written, or could
    /// not be: without the record, nothing is published.
    pub fn revision_saved(&mut self, job: &BackupJob, written: Result<(), String>, files: &LocalFiles) -> (r:
        Option<Notice>)
        ensures
            old(self).goes_on(*job, written, *files, *final(self), notice_view(r)),
    {
        match self.state.save_checked(written) {
            Ok(()) => None,
            Err(error) => {
                fail_project(&mut self.projects, job.project_id.as_str(), files);
                let message = joined2(
                    "Record the project revision before uploading: ",
                    error.as_str(),
                );
                proof {
                    reveal_strlit("Record the project revision before uploading: ");
                    reveal_strlit("Record the project revision before uploading: couldn't save ");
                    reveal_strlit("couldn't save ");
                    assert("Record the project revision before uploading: "@ + "couldn't save "@
                        =~= "Record the project revision before uploading: couldn't save "@);
                    assert(message@
                        =~= "Record the project revision before uploading: couldn't save "@ + old(
                        self,
                    ).state.origin->Some_0@ + ": "@ + written->Err_0@);
                }
                Some(backup_failure(job.project_name.as_str(), message.as_str()))
            },
        }
    }
}

// ---------------------------------------------------------------------------
// The end of a backup
// ---------------------------------------------------------------------------

/// How far a stored copy can be relied on, in words.
pub open spec fn verification_text(verification: BackupVerification) -> Seq<char> {
    match verification {
        BackupVerification::Skipped =>
            "Project bytes and history were stored, but not verified. The original remains the only confirmed complete copy."@,
        BackupVerification::Verified =>
            "Project bytes and history were stored and BLAKE3 verified."@,
        BackupVerification::Incomplete(unavailable) => "Project was stored, but "@ + decimal(
            unavailable@.len(),
        ) + " referenced file(s) could not be captured. The original must be kept."@,
        BackupVerification::Failed(error) =>
            "Project was stored, but verification could not confirm the copy: "@ + error@ + "."@,
    }
}

/// What happened to old versions, in words.
pub open spec fn retention_text(warning: Option<Seq<char>>, report: Option<RetentionReport>) -> Seq<char> {
    match (warning, report) {
        (Some(warning), _) => " "@ + warning + "."@,
        (None, Some(report)) => if report.versions_removed == 0 {
            Seq::empty()
        } else if report.bytes_freed > 0 {
            " Removed "@ + decimal(report.versions_removed as nat) + " old version(s) and freed "@
                + bytes_text(report.bytes_freed as nat) + "."@
        } else {
            " Removed "@ + decimal(report.versions_removed as nat) + " old version(s)."@
        },
        (None, None) => Seq::empty(),
    }
}

/// What is said of a backup that was committed: a success only if the copy was
/// verified.
pub open spec fn committed(name: Seq<char>, receipt: BackupReceipt) -> NoticeView {
    says(
        if receipt.verification is Verified {
            NoticeLevel::Success
        } else {
            NoticeLevel::Warning
        },
        name + " backed up"@,
        verification_text(receipt.verification) + retention_text(
            optional_view(receipt.retention_warning),
            receipt.retention,
        ),
    )
}

fn verification_message(verification: &BackupVerification) -> (r: String)
    ensures
        r@ == verification_text(*verification),
{
    match verification {
        BackupVerification::Skipped =>
            "Project bytes and history were stored, but not verified. The original remains the only confirmed complete copy.".to_owned(),
        BackupVerification::Verified =>
            "Project bytes and history were stored and BLAKE3 verified.".to_owned(),
        BackupVerification::Incomplete(unavailable) => joined3(
            "Project was stored, but ",
            count_text(unavailable.len()).as_str(),
            " referenced file(s) could not be captured. The original must be kept.",
        ),
        BackupVerification::Failed(error) => joined3(
            "Project was stored, but verification could not confirm the copy: ",
            error.as_str(),
            ".",
        ),
    }
}

fn retention_message(warning: &Option<String>, report: Option<RetentionReport>) -> (r: String)
    ensures
        r@ == retention_text(optional_view(*warning), report),
{
    match (warning, report) {
        (Some(warning), _) => joined3(" ", warning.as_str(), "."),
        (None, Some(report)) => {
            if report.versions_removed == 0 {
                let none = String::new();
                assert(none@ =~= Seq::<char>::empty());
                return none;
            }
            let removed = count_text(report.versions_removed);
            if report.bytes_freed > 0 {
                let mut out = joined3(" Removed ", removed.as_str(), " old version(s) and freed ");
                out.append(format_bytes(report.bytes_freed).as_str());
                out.append(".");
                out
            } else {
                joined3(" Removed ", removed.as_str(), " old version(s).")
            }
        },
        (None, None) => {
            let none = String::new();
            assert(none@ =~= Seq::<char>::empty());
            none
        },
    }
}

fn committed_notice(name: &str, receipt: &BackupReceipt) -> (r: Notice)
    ensures
        r@ == committed(name@, *receipt),
{
    let detail = joined2(
        verification_message(&receipt.verification).as_str(),
        retention_message(&receipt.retention_warning, receipt.retention).as_str(),
    );
    let title = joined2(name, " backed up");
    match &receipt.verification {
        BackupVerification::Verified => Notice::success(title.as_str(), detail.as_str()),
        _ => Notice::warning(title.as_str(), detail.as_str()),
    }
}

/// Whether `after` is a project whose backup was committed. Only a verified
/// copy counts as backed up: after any other, work still waits to be copied.
pub open spec fn is_committed(
    project: Project,
    after: Project,
    receipt: BackupReceipt,
    files: LocalFiles,
    now: Moment,
) -> bool {
    if receipt.verification is Verified {
        if project.status is Syncing {
            &&& after.last_activity@ == "backed up · just now"@
            &&& (Project {
                status: ProjectStatus::Downloaded,
                sync_progress: 100,
                last_activity: after.last_activity,
                backed_up_at: Some(now),
                ..project
            }).has_history_applied(after, receipt.history@, files, now)
        } else {
            after == project
        }
    } else {
        &&& after.status == ProjectStatus::OutOfSync(SyncDirection::LocalAhead)
        &&& after.sync_progress == 0
        &&& exists|applied: Project|
            #[trigger] project.has_history_applied(applied, receipt.history@, files, now) && after
                == (Project { status: after.status, sync_progress: 0, ..applied })
    }
}

/// What is said where fields conflict.
pub open spec fn conflicts_found(name: Seq<char>, count: nat) -> NoticeView {
    says(
        NoticeLevel::Warning,
        name + " needs review"@,
        decimal(count) + " conflicting field(s) need a choice before anything is committed."@,
    )
}

/// What is said where a merge has integrity problems.
pub open spec fn problems_found(name: Seq<char>, count: nat) -> NoticeView {
    says(
        NoticeLevel::Warning,
        name + " needs review"@,
        "The merged project has "@ + decimal(count)
            + " integrity problem(s); your local copy is stashed safely."@,
    )
}

/// Whether a conflict waits for choices, which are this computer's side until
/// a person chooses.
pub open spec fn awaits_choices(
    pending: Option<PendingConflict>,
    id: Seq<char>,
    name: Seq<char>,
    backup: ConflictBackup,
) -> bool {
    &&& pending is Some
    &&& pending->0.project_id@ == id
    &&& pending->0.project_name@ == name
    &&& pending->0.backup == backup
    &&& pending->0.choices@ == Seq::new(backup.conflicts@.len(), |i: int| ConflictChoice::Local)
}

fn await_choices(id: &str, name: &str, backup: ConflictBackup) -> (r: Option<PendingConflict>)
    ensures
        awaits_choices(r, id@, name@, backup),
{
    let choices = first_choices(backup.conflicts.len());
    Some(
        PendingConflict {
            project_id: id.to_owned(),
            project_name: name.to_owned(),
            backup,
            choices,
        },
    )
}

fn commit_project(project: &mut Project, receipt: BackupReceipt, files: &LocalFiles, now: Moment)
    ensures
        is_committed(*old(project), *final(project), receipt, *files, now),
{
    let verified = matches!(receipt.verification, BackupVerification::Verified);
    if verified {
        project.finish_transfer(receipt.history, files, now);
    } else {
        let ghost before = *project;
        project.apply_history(receipt.history, files, now);
        let ghost applied = *project;
        assert(before.has_history_applied(applied, receipt.history@, *files, now));
        project.status = ProjectStatus::OutOfSync(SyncDirection::LocalAhead);
        project.sync_progress = 0;
    }
}

impl ProjectManager {
    /// Whether `after` and `said` are what the end of a backup comes to.
    pub open spec fn ends_backup(
        self,
        id: Seq<char>,
        name: Seq<char>,
        result: Result<BackupResult, String>,
        files: LocalFiles,
        now: Moment,
        after: ProjectManager,
        said: Option<NoticeView>,
    ) -> bool {
        let at = project_index(self.projects@, id);
        if !has_project(self.projects@, id) {
            after == self && said is None
        } else {
            match result {
                Ok(BackupResult::Committed(receipt)) => {
                    &&& said == Some(committed(name, receipt))
                    &&& after == (ProjectManager { projects: after.projects, ..self })
                    &&& after.projects@ == self.projects@.update(at, after.projects@[at])
                    &&& is_committed(
                        self.projects@[at],
                        after.projects@[at],
                        receipt,
                        files,
                        now,
                    )
                },
                Ok(BackupResult::NeedsResolution(conflict)) => {
                    &&& said == Some(conflicts_found(name, conflict.conflicts@.len()))
                    &&& after == (ProjectManager {
                        projects: after.projects,
                        pending_conflict: after.pending_conflict,
                        overlay: OverlayState {
                            host: OverlayHost::Main,
                            overlay: Overlay::ConflictResolver,
                        },
                        ..self
                    })
                    &&& after.projects@ == with_status(self.projects@, id, ProjectStatus::Conflicted)
                    &&& awaits_choices(after.pending_conflict, id, name, conflict)
                },
                Ok(BackupResult::NeedsReview(problems)) => {
                    &&& said == Some(problems_found(name, problems as nat))
                    &&& after == (ProjectManager { projects: after.projects, ..self })
                    &&& after.projects@ == with_status(self.projects@, id, ProjectStatus::Conflicted)
                },
                Err(message) => {
                    &&& said == Some(backup_failed(name, message@))
                    &&& after == (ProjectManager { projects: after.projects, ..self })
                    &&& after.projects@ == with_failed(self.projects@, id, files)
                },
            }
        }
    }

    /// Take over how a backup ended. A project that has left the library
    /// meanwhile is passed over.
    pub fn backup_finished(
        &mut self,
        project_id: &str,
        project_name: &str,
        result: Result<BackupResult, String>,
        files: &LocalFiles,
        now: Moment,
    ) -> (r: Option<Notice>)
        ensures
            old(self).ends_backup(
                project_id@,
                project_name@,
                result,
                *files,
                now,
                *final(self),
                notice_view(r),
            ),
    {
        let at: usize = match find_project(&self.projects, project_id) {
            Some(at) => at,
            None => {
                return None;
            },
        };
        match result {
            Ok(BackupResult::Committed(receipt)) => {
                let notice = committed_notice(project_name, &receipt);
                commit_project(&mut self.projects[at], receipt, files, now);
                Some(notice)
            },
            Ok(BackupResult::NeedsResolution(conflict)) => {
                let count: usize = conflict.conflicts.len();
                set_status(&mut self.projects, project_id, ProjectStatus::Conflicted);
                self.pending_conflict = await_choices(project_id, project_name, conflict);
                self.overlay.show(OverlayHost::Main, Overlay::ConflictResolver);
                let message = joined2(
                    count_text(count).as_str(),
                    " conflicting field(s) need a choice before anything is committed.",
                );
                Some(
                    Notice::warning(
                        joined2(project_name, " needs review").as_str(),
                        message.as_str(),
                    ),
                )
            },
            Ok(BackupResult::NeedsReview(problems)) => {
                set_status(&mut self.projects, project_id, ProjectStatus::Conflicted);
                let message = joined3(
                    "The merged project has ",
                    count_text(problems).as_str(),
                    " integrity problem(s); your local copy is stashed safely.",
                );
                Some(
                    Notice::warning(
                        joined2(project_name, " needs review").as_str(),
                        message.as_str(),
                    ),
                )
            },
            Err(message) => {
                fail_project(&mut self.projects, project_id, files);
                Some(backup_failure(project_name, message.as_str()))
            },
        }
    }
}

/// A backup whose copy was not verified never leaves a project looking backed
/// up: its work still waits to be copied.
pub proof fn only_verified_copies_count(
    project: Project,
    after: Project,
    receipt: BackupReceipt,
    files: LocalFiles,
    now: Moment,
)
    requires
        is_committed(project, after, receipt, files, now),
        !(receipt.verification is Verified),
    ensures
        after.status.wants_attention(),
        after.status.next_action() is Push,
        after.backed_up_at == project.backed_up_at,
{
}

// ---------------------------------------------------------------------------
// Several backups
// ---------------------------------------------------------------------------

/// A backup to ask for.
pub struct LaunchRequest {
    pub index: int,
    pub start: BackupStart,
    pub context: ContextView,
    /// Whether a save was made during the last backup, so that the project only
    /// looks backed up.
    pub overtaken: bool,
}

impl ProjectManager {
    /// Whether `ready` is the manager in which an overtaken project no longer
    /// looks backed up.
    pub open spec fn is_made_ready(self, request: LaunchRequest, ready: ProjectManager) -> bool {
        let project = self.projects@[request.index];
        &&& ready == (ProjectManager { projects: ready.projects, ..self })
        &&& ready.projects@ == (if request.overtaken && project.status is Downloaded {
            self.projects@.update(
                request.index,
                Project {
                    status: ProjectStatus::OutOfSync(SyncDirection::LocalAhead),
                    ..project
                },
            )
        } else {
            self.projects@
        })
    }

    /// Whether asking for a backup takes the manager to `after`.
    pub open spec fn answers(self, request: LaunchRequest, after: ProjectManager, launch: BackupLaunch) -> bool {
        exists|ready: ProjectManager|
            #[trigger] self.is_made_ready(request, ready) && ready.launches(
                request.index,
                request.start,
                request.context,
                after,
                launch,
            )
    }

    /// Whether asking for backups one by one takes the manager to `after`.
    pub open spec fn answers_all(
        self,
        requests: Seq<LaunchRequest>,
        after: ProjectManager,
        launches: Seq<BackupLaunch>,
    ) -> bool
        decreases requests.len(),
    {
        if requests.len() == 0 {
            after == self && launches.len() == 0
        } else {
            &&& launches.len() == requests.len()
            &&& exists|middle: ProjectManager|
                self.answers_all(requests.drop_last(), middle, launches.drop_last())
                    && #[trigger] middle.answers(requests.last(), after, launches.last())
        }
    }

    fn launch_ready(
        &mut self,
        index: usize,
        start: BackupStart,
        context: BackupContext,
        overtaken: bool,
    ) -> (r: BackupLaunch)
        requires
            index < old(self).projects@.len(),
        ensures
            old(self).answers(
                LaunchRequest { index: index as int, start, context: context@, overtaken },
                *final(self),
                r,
            ),
            final(self).projects@.len() == old(self).projects@.len(),
            forall|i: int|
                0 <= i < old(self).projects@.len() ==> (#[trigger] final(self).projects@[i]).id@
                    == old(self).projects@[i].id@,
            forall|i: int|
                0 <= i < old(self).projects@.len() && i != index ==> (#[trigger] final(self).projects@[i])
                    == old(self).projects@[i],
    {
        if overtaken && self.projects[index].status == ProjectStatus::Downloaded {
            self.projects[index].status = ProjectStatus::OutOfSync(SyncDirection::LocalAhead);
        }
        let ghost ready = *self;
        assert(old(self).is_made_ready(
            LaunchRequest { index: index as int, start, context: context@, overtaken },
            ready,
        ));
        self.start_project_backup(index, start, context)
    }
}

/// The backups to ask for where everything is to be backed up: of the first `n`
/// projects, those with work to push.
pub open spec fn push_requests(
    projects: Seq<Project>,
    contexts: Seq<ContextView>,
    n: int,
) -> Seq<LaunchRequest>
    decreases n,
{
    if n <= 0 {
        Seq::empty()
    } else {
        let before = push_requests(projects, contexts, n - 1);
        if projects[n - 1].status.next_action() is Push {
            before.push(
                LaunchRequest {
                    index: n - 1,
                    start: BackupStart::Immediate,
                    context: contexts[n - 1],
                    overtaken: false,
                },
            )
        } else {
            before
        }
    }
}

/// Contexts by their texts.
pub open spec fn context_views(contexts: Seq<BackupContext>) -> Seq<ContextView> {
    contexts.map_values(|context: BackupContext| context@)
}

impl ProjectManager {
    /// Ask for a backup of every project with work to push.
    pub fn back_up_all(&mut self, contexts: Vec<BackupContext>) -> (r: Vec<BackupLaunch>)
        requires
            contexts@.len() == old(self).projects@.len(),
        ensures
            old(self).answers_all(
                push_requests(
                    old(self).projects@,
                    context_views(contexts@),
                    old(self).projects@.len() as int,
                ),
                *final(self),
                r@,
            ),
    {
        let ghost before = *self;
        let ghost views = context_views(contexts@);
        let ghost all = contexts@;
        let mut rest = contexts;
        let mut launches: Vec<BackupLaunch> = Vec::new();
        let mut i: usize = 0;
        assert(all.skip(0) =~= all);
        while i < self.projects.len()
            invariant
                i <= self.projects@.len() == before.projects@.len(),
                all.len() == before.projects@.len(),
                views == context_views(all),
                rest@ == all.skip(i as int),
                forall|j: int|
                    i <= j < before.projects@.len() ==> #[trigger] self.projects@[j]
                        == before.projects@[j],
                before.answers_all(
                    push_requests(before.projects@, views, i as int),
                    *self,
                    launches@,
                ),
            decreases self.projects@.len() - i,
        {
            let ghost middle = *self;
            let ghost earlier = launches@;
            let ghost so_far = push_requests(before.projects@, views, i as int);
            assert(rest@[0] == all[i as int]);
            let context = rest.remove(0);
            assert(rest@ =~= all.skip(i + 1));
            assert(views[i as int] == context@);
            assert(self.projects@[i as int] == before.projects@[i as int]);
            if self.projects[i].status.action() == ProjectAction::Push {
                let launch = self.launch_ready(i, BackupStart::Immediate, context, false);
                launches.push(launch);
                proof {
                    let requests = push_requests(before.projects@, views, i + 1);
                    assert(requests.drop_last() =~= so_far);
                    assert(launches@.drop_last() =~= earlier);
                    assert(middle.answers(requests.last(), *self, launches@.last()));
                    assert(earlier.len() == so_far.len());
                }
            }
            i = i + 1;
        }
        launches
    }
}

// ---------------------------------------------------------------------------
// Automatic backups
// ---------------------------------------------------------------------------

/// Whether `after` is a project whose files were looked at again.
pub open spec fn is_looked_at(project: Project, after: Project, files: LocalFiles, now: Moment) -> bool {
    if project.live_set is None {
        after == project
    } else {
        &&& after.last_activity@ == crate::moment::modified_text(files.modified_at, now)
        &&& after == (Project {
            modified_at: files.modified_at,
            last_activity: after.last_activity,
            status: if project.status_is_pinned() {
                project.status
            } else {
                files.disk_status()
            },
            backed_up_at: if project.status_is_pinned() {
                project.backed_up_at
            } else {
                files.backup_time()
            },
            ..project
        })
    }
}

/// The provider that a project's own records name.
pub open spec fn recorded_primary(files: LocalFiles) -> Option<Seq<char>> {
    match files.sidecar {
        Some(sidecar) => optional_view(sidecar.primary),
        None => None,
    }
}

fn copy_primary(files: &LocalFiles) -> (r: Option<String>)
    ensures
        optional_view(r) == recorded_primary(*files),
{
    match &files.sidecar {
        Some(sidecar) => copy_optional(&sidecar.primary),
        None => None,
    }
}

/// Whether a status keeps an automatic backup away. That a project looks backed
/// up does not: a save made during an upload can be older than its end.
pub open spec fn blocks_backup(status: ProjectStatus) -> bool {
    status is NotDownloaded || status is Syncing || status is Conflicted || status
        == ProjectStatus::OutOfSync(SyncDirection::UpstreamAhead)
}

/// What the scheduler is told of a project; nothing of one that is not here.
pub open spec fn observation(
    project: Project,
    files: LocalFiles,
    providers: Seq<ProviderListing>,
) -> Option<ProjectObservation> {
    if project.live_set is None {
        None
    } else {
        let own = own_provider(providers, recorded_primary(files));
        Some(
            ProjectObservation {
                project_id: project.id,
                modified_at: project.modified_at,
                backed_up_at: project.backed_up_at,
                backup_destination_ready: project.backed_up_at is Some && own is Some
                    && providers[own->0].availability is Connected,
                backup_blocked: blocks_backup(project.status),
            },
        )
    }
}

/// What the scheduler is told of the first `n` projects.
pub open spec fn observations(
    projects: Seq<Project>,
    files: Seq<LocalFiles>,
    providers: Seq<ProviderListing>,
    n: int,
) -> Seq<ProjectObservation>
    decreases n,
{
    if n <= 0 {
        Seq::empty()
    } else {
        let before = observations(projects, files, providers, n - 1);
        match observation(projects[n - 1], files[n - 1], providers) {
            Some(seen) => before.push(seen),
            None => before,
        }
    }
}

/// The backups that the scheduler asks for.
pub open spec fn due_requests(
    projects: Seq<Project>,
    due: Seq<(Seq<char>, AutomaticBackupReason, Moment)>,
    files: Seq<LocalFiles>,
    default_aliases: Seq<(Seq<char>, Seq<char>)>,
    clock: i64,
) -> Seq<LaunchRequest>
    decreases due.len(),
{
    if due.len() == 0 {
        Seq::empty()
    } else {
        let before = due_requests(projects, due.drop_last(), files, default_aliases, clock);
        let (id, reason, revision) = due.last();
        let index = project_index(projects, id);
        if has_project(projects, id) {
            before.push(
                LaunchRequest {
                    index,
                    start: BackupStart::AfterQuietPeriod { qualified_revision: revision },
                    context: ContextView {
                        primary: recorded_primary(files[index]),
                        default_aliases,
                        now: clock,
                    },
                    overtaken: reason is SavedDuringPreviousBackup,
                },
            )
        } else {
            before
        }
    }
}

fn copy_aliases(list: &Vec<PathAliasState>) -> (r: Vec<PathAliasState>)
    ensures
        alias_views(r@) == alias_views(list@),
{
    let mut out: Vec<PathAliasState> = Vec::new();
    let mut i: usize = 0;
    while i < list.len()
        invariant
            i <= list@.len(),
            out@.len() == i,
            forall|j: int|
                0 <= j < i ==> (#[trigger] out@[j]).from@ == list@[j].from@ && out@[j].to@
                    == list@[j].to@,
        decreases list@.len() - i,
    {
        out.push(PathAliasState { from: list[i].from.clone(), to: list[i].to.clone() });
        i = i + 1;
    }
    assert(alias_views(out@) =~= alias_views(list@));
    out
}

/// Ids stay where they are, so a project is found where it was.
proof fn same_ids_same_places(a: Seq<Project>, b: Seq<Project>, id: Seq<char>)
    requires
        a.len() == b.len(),
        forall|i: int| 0 <= i < a.len() ==> (#[trigger] a[i]).id@ == b[i].id@,
    ensures
        project_index(a, id) == project_index(b, id),
    decreases a.len(),
{
    if a.len() > 0 {
        assert forall|i: int| 0 <= i < a.drop_last().len() implies (#[trigger] a.drop_last()[i]).id@
            == b.drop_last()[i].id@ by {
            assert(a[i].id@ == b[i].id@);
        }
        same_ids_same_places(a.drop_last(), b.drop_last(), id);
        assert(a[a.len() - 1].id@ == b[b.len() - 1].id@);
    }
}

impl ProjectManager {
    /// Look at the files of every project again.
    pub fn refresh_files(&mut self, files: &Vec<LocalFiles>, now: Moment)
        requires
            files@.len() == old(self).projects@.len(),
        ensures
            *final(self) == (ProjectManager { projects: final(self).projects, ..*old(self) }),
            final(self).projects@.len() == old(self).projects@.len(),
            forall|i: int|
                0 <= i < old(self).projects@.len() ==> is_looked_at(
                    old(self).projects@[i],
                    #[trigger] final(self).projects@[i],
                    files@[i],
                    now,
                ),
    {
        let mut i: usize = 0;
        while i < self.projects.len()
            invariant
                i <= self.projects@.len() == old(self).projects@.len(),
                files@.len() == old(self).projects@.len(),
                *self == (ProjectManager { projects: self.projects, ..*old(self) }),
                forall|j: int|
                    0 <= j < i ==> is_looked_at(
                        old(self).projects@[j],
                        #[trigger] self.projects@[j],
                        files@[j],
                        now,
                    ),
                forall|j: int|
                    i <= j < self.projects@.len() ==> #[trigger] self.projects@[j] == old(
                        self,
                    ).projects@[j],
            decreases self.projects@.len() - i,
        {
            self.projects[i].refresh_local_file_state(&files[i], now);
            i = i + 1;
        }
    }

    /// What the scheduler is told.
    pub fn observe(&self, files: &Vec<LocalFiles>) -> (r: Vec<ProjectObservation>)
        requires
            files@.len() == self.projects@.len(),
        ensures
            r@ == observations(
                self.projects@,
                files@,
                self.providers@,
                self.projects@.len() as int,
            ),
    {
        let mut out: Vec<ProjectObservation> = Vec::new();
        let mut i: usize = 0;
        while i < self.projects.len()
            invariant
                i <= self.projects@.len() == files@.len(),
                out@ == observations(self.projects@, files@, self.providers@, i as int),
            decreases self.projects@.len() - i,
        {
            let project = &self.projects[i];
            if project.live_set.is_some() {
                let own = find_own_provider(&self.providers, &copy_primary(&files[i]));
                let connected = match own {
                    Some(at) => self.providers[at].is_connected(),
                    None => false,
                };
                let backup_blocked = match project.status {
                    ProjectStatus::NotDownloaded
                    | ProjectStatus::Syncing
                    | ProjectStatus::OutOfSync(SyncDirection::UpstreamAhead)
                    | ProjectStatus::Conflicted => true,
                    _ => false,
                };
                out.push(
                    ProjectObservation {
                        project_id: project.id.clone(),
                        modified_at: project.modified_at,
                        backed_up_at: project.backed_up_at,
                        backup_destination_ready: project.backed_up_at.is_some() && connected,
                        backup_blocked,
                    },
                );
            }
            i = i + 1;
        }
        out
    }

    /// Whether `after` and `launches` are what a poll comes to: the files are
    /// looked at, and every project that is due is backed up.
    pub open spec fn polls(
        self,
        files: Seq<LocalFiles>,
        now: Moment,
        default_aliases: Seq<(Seq<char>, Seq<char>)>,
        clock: i64,
        fresh: ProjectManager,
        after: ProjectManager,
        launches: Seq<BackupLaunch>,
    ) -> bool {
        &&& fresh == (ProjectManager { projects: fresh.projects, ..self })
        &&& fresh.projects@.len() == self.projects@.len()
        &&& forall|i: int|
            0 <= i < self.projects@.len() ==> is_looked_at(
                self.projects@[i],
                #[trigger] fresh.projects@[i],
                files[i],
                now,
            )
        &&& fresh.answers_all(
            due_requests(
                fresh.projects@,
                all_due(
                    fresh.automatic_backup_scheduler@,
                    now,
                    observations(
                        fresh.projects@,
                        files,
                        fresh.providers@,
                        fresh.projects@.len() as int,
                    ),
                ),
                files,
                default_aliases,
                clock,
            ),
            after,
            launches,
        )
    }

    /// Back up every project whose save has been quiet long enough, if backups
    /// are automatic.
    pub fn poll_automatic_backups(
        &mut self,
        files: &Vec<LocalFiles>,
        now: Moment,
        default_aliases: &Vec<PathAliasState>,
        clock: i64,
    ) -> (r: Vec<BackupLaunch>)
        requires
            files@.len() == old(self).projects@.len(),
        ensures
            !old(self).automatic_backups ==> *final(self) == *old(self) && r@.len() == 0,
            old(self).automatic_backups ==> exists|fresh: ProjectManager|
                #[trigger] old(self).polls(
                    files@,
                    now,
                    alias_views(default_aliases@),
                    clock,
                    fresh,
                    *final(self),
                    r@,
                ),
    {
        let mut launches: Vec<BackupLaunch> = Vec::new();
        if !self.automatic_backups {
            return launches;
        }
        self.refresh_files(files, now);
        let ghost fresh = *self;
        let ghost aliases = alias_views(default_aliases@);
        let seen = self.observe(files);
        let ghost told = seen@;
        let ready = self.automatic_backup_scheduler.poll(now, seen);
        let ghost due = candidate_views(ready@);
        assert(due == all_due(fresh.automatic_backup_scheduler@, now, told));
        let mut i: usize = 0;
        assert(due.len() == ready@.len());
        assert(due.take(0) =~= Seq::empty());
        while i < ready.len()
            invariant
                i <= ready@.len() == due.len(),
                due == candidate_views(ready@),
                aliases == alias_views(default_aliases@),
                self.projects@.len() == fresh.projects@.len() == files@.len(),
                forall|j: int|
                    0 <= j < fresh.projects@.len() ==> (#[trigger] self.projects@[j]).id@
                        == fresh.projects@[j].id@,
                fresh.answers_all(
                    due_requests(fresh.projects@, due.take(i as int), files@, aliases, clock),
                    *self,
                    launches@,
                ),
            decreases ready@.len() - i,
        {
            let ghost middle = *self;
            let ghost earlier = launches@;
            let ghost so_far = due_requests(
                fresh.projects@,
                due.take(i as int),
                files@,
                aliases,
                clock,
            );
            let candidate = &ready[i];
            proof {
                assert(due.take(i + 1).drop_last() =~= due.take(i as int));
                assert(due.take(i + 1).last() == due[i as int]);
                assert(due[i as int] == (
                    candidate.project_id@,
                    candidate.reason,
                    candidate.qualified_revision,
                ));
                same_ids_same_places(self.projects@, fresh.projects@, candidate.project_id@);
            }
            if let Some(index) = find_project(&self.projects, candidate.project_id.as_str()) {
                let overtaken = candidate.reason
                    == AutomaticBackupReason::SavedDuringPreviousBackup;
                let context = BackupContext {
                    primary: copy_primary(&files[index]),
                    default_aliases: copy_aliases(default_aliases),
                    now: clock,
                };
                let start = BackupStart::AfterQuietPeriod {
                    qualified_revision: candidate.qualified_revision,
                };
                let launch = self.launch_ready(index, start, context, overtaken);
                launches.push(launch);
                proof {
                    let requests = due_requests(
                        fresh.projects@,
                        due.take(i + 1),
                        files@,
                        aliases,
                        clock,
                    );
                    assert(requests.drop_last() =~= so_far);
                    assert(launches@.drop_last() =~= earlier);
                    assert(middle.answers(requests.last(), *self, launches@.last()));
                    assert(earlier.len() == so_far.len());
                }
            }
            i = i + 1;
        }
        assert(due.take(i as int) =~= due);
        assert(old(self).polls(files@, now, aliases, clock, fresh, *self, launches@));
        launches
    }
}

// ---------------------------------------------------------------------------
// Resolving conflicts
// ---------------------------------------------------------------------------

/// What is said once conflicts are resolved, or are not.
pub open spec fn resolution_notice(name: Seq<char>, result: Result<BackupResult, String>) -> NoticeView {
    match result {
        Ok(BackupResult::Committed(_)) => says(
            NoticeLevel::Success,
            name + " backed up"@,
            "Your choices were merged with the latest provider version."@,
        ),
        Ok(BackupResult::NeedsResolution(_)) => says(
            NoticeLevel::Warning,
            name + " changed while resolving"@,
            "The provider changed again. Review the refreshed fields."@,
        ),
        Ok(BackupResult::NeedsReview(problems)) => says(
            NoticeLevel::Warning,
            name + " still needs review"@,
            "Those choices produce "@ + decimal(problems as nat)
                + " project integrity problem(s). Your original version remains stashed safely."@,
        ),
        Err(message) => says(NoticeLevel::Error, "Couldn't resolve "@ + name, message@),
    }
}

fn resolution_message(project_name: &str, result: &Result<BackupResult, String>) -> (r: Notice)
    ensures
        r@ == resolution_notice(project_name@, *result),
{
    match result {
        Ok(BackupResult::Committed(_)) => Notice::success(
            joined2(project_name, " backed up").as_str(),
            "Your choices were merged with the latest provider version.",
        ),
        Ok(BackupResult::NeedsResolution(_)) => Notice::warning(
            joined2(project_name, " changed while resolving").as_str(),
            "The provider changed again. Review the refreshed fields.",
        ),
        Ok(BackupResult::NeedsReview(problems)) => {
            let message = joined3(
                "Those choices produce ",
                count_text(*problems).as_str(),
                " project integrity problem(s). Your original version remains stashed safely.",
            );
            Notice::warning(
                joined2(project_name, " still needs review").as_str(),
                message.as_str(),
            )
        },
        Err(message) => Notice::error(
            joined2("Couldn't resolve ", project_name).as_str(),
            message.as_str(),
        ),
    }
}

/// Whether `after` is a library in which the transfer of a project is done.
pub open spec fn finishes_one(
    before: Seq<Project>,
    after: Seq<Project>,
    id: Seq<char>,
    history: Seq<CommitSummary>,
    files: LocalFiles,
    now: Moment,
) -> bool {
    if has_project(before, id) {
        let at = project_index(before, id);
        let project = before[at];
        let done = after[at];
        &&& after == before.update(at, done)
        &&& !(project.status is Syncing) ==> done == project
        &&& project.status is Syncing ==> {
            &&& done.last_activity@ == "backed up · just now"@
            &&& (Project {
                status: ProjectStatus::Downloaded,
                sync_progress: 100,
                last_activity: done.last_activity,
                backed_up_at: Some(now),
                ..project
            }).has_history_applied(done, history, files, now)
        }
    } else {
        after == before
    }
}

fn finish_project(
    projects: &mut Vec<Project>,
    id: &str,
    history: Vec<CommitSummary>,
    files: &LocalFiles,
    now: Moment,
)
    ensures
        finishes_one(old(projects)@, final(projects)@, id@, history@, *files, now),
{
    if let Some(at) = find_project(projects, id) {
        projects[at].finish_transfer(history, files, now);
    }
}

impl ProjectManager {
    /// Whether `after` is the manager once a side of a field was chosen.
    pub open spec fn takes_choice(
        self,
        index: int,
        choice: ConflictChoice,
        after: ProjectManager,
    ) -> bool {
        match self.pending_conflict {
            Some(pending) if index < pending.choices@.len() => {
                &&& after == (ProjectManager {
                    pending_conflict: after.pending_conflict,
                    ..self
                })
                &&& after.pending_conflict is Some
                &&& after.pending_conflict->0.choices@ == pending.choices@.update(
                    index,
                    choice,
                )
                &&& after.pending_conflict->0 == (PendingConflict {
                    choices: after.pending_conflict->0.choices,
                    ..pending
                })
            },
            _ => after == self,
        }
    }

    /// Choose a side of a conflicting field.
    pub fn choose_side(&mut self, index: usize, choice: ConflictChoice)
        ensures
            old(self).takes_choice(index as int, choice, *final(self)),
    {
        let known = match &self.pending_conflict {
            Some(pending) => index < pending.choices.len(),
            None => false,
        };
        if !known {
            return;
        }
        if let Some(pending) = self.pending_conflict.take() {
            let mut pending = pending;
            pending.choices.set(index, choice);
            self.pending_conflict = Some(pending);
        }
    }

    /// Whether `after` is the manager once its conflict is being resolved, and `whose`
    /// the id and the name of the project.
    pub open spec fn resolves_again(
        self,
        after: ProjectManager,
        whose: Option<(String, String)>,
    ) -> bool {
        match self.pending_conflict {
            None => whose is None && after == self,
            Some(pending) => {
                &&& whose is Some
                &&& (whose->0).0@ == pending.project_id@
                &&& (whose->0).1@ == pending.project_name@
                &&& after == (ProjectManager {
                    projects: after.projects,
                    overlay: OverlayState { overlay: Overlay::Hidden, ..self.overlay },
                    ..self
                })
                &&& after.projects@ == with_status(
                    self.projects@,
                    pending.project_id@,
                    ProjectStatus::Syncing,
                )
            },
        }
    }

    /// Begin to resolve the conflict that waits: its project is transferred
    /// again. Gives the project's id and name.
    pub fn resolve_pending_conflict(&mut self) -> (r: Option<(String, String)>)
        ensures
            old(self).resolves_again(*final(self), r),
    {
        let (id, name) = match &self.pending_conflict {
            Some(pending) => (pending.project_id.clone(), pending.project_name.clone()),
            None => {
                return None;
            },
        };
        set_status(&mut self.projects, id.as_str(), ProjectStatus::Syncing);
        self.overlay.clear();
        Some((id, name))
    }

    /// Whether `after` is the manager once the resolved backup has ended.
    pub open spec fn ends_resolution(
        self,
        id: Seq<char>,
        name: Seq<char>,
        result: Result<BackupResult, String>,
        files: LocalFiles,
        now: Moment,
        after: ProjectManager,
    ) -> bool {
        match result {
            Ok(BackupResult::Committed(receipt)) => {
                &&& after == (ProjectManager {
                    projects: after.projects,
                    pending_conflict: None,
                    ..self
                })
                &&& finishes_one(
                    self.projects@,
                    after.projects@,
                    id,
                    receipt.history@,
                    files,
                    now,
                )
            },
            Ok(BackupResult::NeedsResolution(conflict)) => {
                &&& after == (ProjectManager {
                    projects: after.projects,
                    pending_conflict: after.pending_conflict,
                    overlay: OverlayState {
                        host: OverlayHost::Main,
                        overlay: Overlay::ConflictResolver,
                    },
                    ..self
                })
                &&& after.projects@ == with_status(self.projects@, id, ProjectStatus::Conflicted)
                &&& awaits_choices(after.pending_conflict, id, name, conflict)
            },
            Ok(BackupResult::NeedsReview(_)) => {
                &&& after == (ProjectManager {
                    projects: after.projects,
                    pending_conflict: None,
                    ..self
                })
                &&& after.projects@ == with_status(self.projects@, id, ProjectStatus::Conflicted)
            },
            Err(_) => {
                &&& after == (ProjectManager { projects: after.projects, ..self })
                &&& after.projects@ == with_status(self.projects@, id, ProjectStatus::Conflicted)
            },
        }
    }

    fn end_conflict(
        &mut self,
        project_id: &str,
        history: Vec<CommitSummary>,
        files: &LocalFiles,
        now: Moment,
    )
        ensures
            *final(self) == (ProjectManager {
                projects: final(self).projects,
                pending_conflict: None,
                ..*old(self)
            }),
            finishes_one(
                old(self).projects@,
                final(self).projects@,
                project_id@,
                history@,
                *files,
                now,
            ),
    {
        finish_project(&mut self.projects, project_id, history, files, now);
        self.pending_conflict = None;
    }

    fn stay_conflicted(&mut self, project_id: &str)
        ensures
            *final(self) == (ProjectManager { projects: final(self).projects, ..*old(self) }),
            final(self).projects@ == with_status(
                old(self).projects@,
                project_id@,
                ProjectStatus::Conflicted,
            ),
    {
        set_status(&mut self.projects, project_id, ProjectStatus::Conflicted);
    }

    fn await_review(&mut self, project_id: &str)
        ensures
            *final(self) == (ProjectManager {
                projects: final(self).projects,
                pending_conflict: None,
                ..*old(self)
            }),
            final(self).projects@ == with_status(
                old(self).projects@,
                project_id@,
                ProjectStatus::Conflicted,
            ),
    {
        set_status(&mut self.projects, project_id, ProjectStatus::Conflicted);
        self.pending_conflict = None;
    }

    fn ask_again(&mut self, project_id: &str, project_name: &str, conflict: ConflictBackup)
        ensures
            *final(self) == (ProjectManager {
                projects: final(self).projects,
                pending_conflict: final(self).pending_conflict,
                overlay: OverlayState {
                    host: OverlayHost::Main,
                    overlay: Overlay::ConflictResolver,
                },
                ..*old(self)
            }),
            final(self).projects@ == with_status(
                old(self).projects@,
                project_id@,
                ProjectStatus::Conflicted,
            ),
            awaits_choices(final(self).pending_conflict, project_id@, project_name@, conflict),
    {
        set_status(&mut self.projects, project_id, ProjectStatus::Conflicted);
        self.pending_conflict = await_choices(project_id, project_name, conflict);
        self.overlay.show(OverlayHost::Main, Overlay::ConflictResolver);
    }

    /// Take over how the resolved backup ended. A failure leaves the conflict
    /// waiting, so that nothing that was chosen is lost.
    pub fn conflict_resolved(
        &mut self,
        project_id: &str,
        project_name: &str,
        result: Result<BackupResult, String>,
        files: &LocalFiles,
        now: Moment,
    ) -> (r: Notice)
        ensures
            r@ == resolution_notice(project_name@, result),
            old(self).ends_resolution(
                project_id@,
                project_name@,
                result,
                *files,
                now,
                *final(self),
            ),
    {
        let notice = resolution_message(project_name, &result);
        match result {
            Ok(BackupResult::Committed(receipt)) => {
                self.end_conflict(project_id, receipt.history, files, now);
            },
            Ok(BackupResult::NeedsResolution(conflict)) => {
                self.ask_again(project_id, project_name, conflict);
            },
            Ok(BackupResult::NeedsReview(_)) => {
                self.await_review(project_id);
            },
            Err(_) => {
                self.stay_conflicted(project_id);
            },
        }
        notice
    }
}

} // verus!
