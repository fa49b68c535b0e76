//! Downloading projects and restoring versions as the window runs them.
use vstd::prelude::*;

use crate::backup::BackupStart;
use crate::catalog::{find_provider, same_listing, ProviderListing};
use crate::format::{copy_location, CommitId, ProjectFormat, ProjectLocation, ProjectMetadata,
    Sidecar};
use crate::library::{find_project, has_project, project_index, WatchedFolder};
use crate::manager::{place_scan, retain_watched, scan_index, still_watched, with_scan, Effects,
    ProjectManager};
use crate::names::{project_file_text, requested_stem, restore_root_text, restore_target};
use crate::navigation::{Overlay, OverlayHost, OverlayState};
use crate::notice::{joined2, joined3, notice_view, says, Notice, NoticeLevel, NoticeView};
use crate::path::{listed, lists_path, Platform};
use crate::project::{ref_view, remote_view, Project, RemoteProjectRef};
use crate::restore::{incomplete_text, is_complete, require_complete_recovery, RestoreCollisionChoice,
    RestoreResult};
use crate::state::{covered, with_path, AppState};
use crate::status::{ProjectAction, ProjectStatus};
use crate::text::{copy_optional, count_text, decimal, optional_view, same, views};
use crate::text_map::TextMap;
use crate::transfers::{is_place, own_provider, with_bare_status, BackupContext, BackupLaunch};

verus! {

// ---------------------------------------------------------------------------
// Offering a restore
// ---------------------------------------------------------------------------

/// A restore that waits for a folder.
#[derive(Debug)]
pub struct RestoreJob {
    pub project_id: String,
    pub project_name: String,
    pub file_name: String,
    pub format: ProjectFormat,
    pub metadata: ProjectMetadata,
    pub location: Option<ProjectLocation>,
    /// The working copy, where there is one.
    pub project_path: Option<String>,
    /// The provider's side of the project.
    pub remote: Option<RemoteProjectRef>,
    /// The provider, as it was listed when the restore was asked for.
    pub listing: ProviderListing,
    pub commit: CommitId,
    /// What the folder dialog says.
    pub prompt: String,
}

/// What asking for a restore came to.
#[derive(Debug)]
pub enum RestoreOffer {
    Nothing,
    Refused(Notice),
    ChooseFolder(RestoreJob),
}

/// What the folder dialog says.
pub open spec fn restore_prompt(location: Option<ProjectLocation>) -> Seq<char> {
    match location {
        Some(location) => "Choose a library root; "@ + location.relative_path@
            + " will be recreated beneath it"@,
        None => "Restore into this folder"@,
    }
}

/// The place of the provider that has a project's history: the one that the
/// project's own records name, or the one whose row it is.
pub open spec fn history_provider(
    providers: Seq<ProviderListing>,
    project: Project,
    primary: Option<Seq<char>>,
) -> Option<int> {
    if project.live_set is Some {
        own_provider(providers, primary)
    } else {
        match project.remote {
            Some(remote) => own_provider(providers, Some(remote.provider_id@)),
            None => None,
        }
    }
}

fn copy_remote(remote: &Option<RemoteProjectRef>) -> (r: Option<RemoteProjectRef>)
    ensures
        ref_view(r) == ref_view(*remote),
        r is Some == remote is Some,
{
    match remote {
        Some(remote) => Some(
            RemoteProjectRef {
                provider_id: remote.provider_id.clone(),
                handle: remote.handle.clone(),
                head: remote.head.clone(),
            },
        ),
        None => None,
    }
}

/// Whether a job restores a version of a project.
pub open spec fn restores(
    job: RestoreJob,
    project: Project,
    listing: ProviderListing,
    commit: CommitId,
) -> bool {
    &&& job.project_id@ == project.id@
    &&& job.project_name@ == project.name@
    &&& job.file_name@ == project.file_name@
    &&& job.format == project.format
    &&& job.metadata@ == project.metadata@
    &&& job.location == project.location
    &&& optional_view(job.project_path) == optional_view(project.live_set)
    &&& job.project_path is Some == project.live_set is Some
    &&& ref_view(job.remote) == ref_view(project.remote)
    &&& job.remote is Some == project.remote is Some
    &&& same_listing(job.listing, listing)
    &&& job.commit == commit
    &&& job.prompt@ == restore_prompt(project.location)
}

/// What is done about a project.
#[derive(Debug)]
pub enum ActionStep {
    Nothing,
    Say(Notice),
    Backup(BackupLaunch),
    Restore(RestoreOffer),
    /// Open the file in its application.
    Open { path: String },
}

/// What is said where a project cannot be opened.
pub fn open_failed(project_name: &str, message: &str) -> (r: Notice)
    ensures
        r@ == says(NoticeLevel::Error, "Couldn't open "@ + project_name@, message@),
{
    Notice::error(joined2("Couldn't open ", project_name).as_str(), message)
}

impl ProjectManager {
    /// The place of the provider that has a project's history.
    pub fn history_provider_for(&self, project: &Project, primary: &Option<String>) -> (r: Option<usize>)
        ensures
            is_place(
                r,
                history_provider(self.providers@, *project, optional_view(*primary)),
                self.providers@,
            ),
    {
        if project.live_set.is_some() {
            match primary {
                Some(id) => find_provider(&self.providers, id.as_str()),
                None => None,
            }
        } else {
            match &project.remote {
                Some(remote) => find_provider(&self.providers, remote.provider_id.as_str()),
                None => None,
            }
        }
    }

    /// Whether `offer` is what asking for a version of a project comes to.
    pub open spec fn offers(
        self,
        index: int,
        commit: CommitId,
        primary: Option<Seq<char>>,
        offer: RestoreOffer,
    ) -> bool {
        if index >= self.projects@.len() {
            offer is Nothing
        } else {
            let project = self.projects@[index];
            match history_provider(self.providers@, project, primary) {
                None => offer matches RestoreOffer::Refused(notice) && notice@ == says(
                    NoticeLevel::Error,
                    "Can't restore this version"@,
                    "The provider for this history is not configured."@,
                ),
                Some(provider) => offer matches RestoreOffer::ChooseFolder(job) && restores(
                    job,
                    project,
                    self.providers@[provider],
                    commit,
                ),
            }
        }
    }

    /// Ask for a version of a project.
    pub fn restore_version(&self, index: usize, commit: CommitId, primary: &Option<String>) -> (r:
        RestoreOffer)
        ensures
            self.offers(index as int, commit, optional_view(*primary), r),
    {
        if index >= self.projects.len() {
            return RestoreOffer::Nothing;
        }
        let project = &self.projects[index];
        let provider: usize = match self.history_provider_for(project, primary) {
            Some(provider) => provider,
            None => {
                return RestoreOffer::Refused(
                    Notice::error(
                        "Can't restore this version",
                        "The provider for this history is not configured.",
                    ),
                );
            },
        };
        let prompt = match &project.location {
            Some(location) => joined3(
                "Choose a library root; ",
                location.relative_path.as_str(),
                " will be recreated beneath it",
            ),
            None => "Restore into this folder".to_owned(),
        };
        RestoreOffer::ChooseFolder(
            RestoreJob {
                project_id: project.id.clone(),
                project_name: project.name.clone(),
                file_name: project.file_name.clone(),
                format: project.format,
                metadata: project.metadata.clone(),
                location: copy_location(&project.location),
                project_path: copy_optional(&project.live_set),
                remote: copy_remote(&project.remote),
                listing: self.providers[provider].clone(),
                commit,
                prompt,
            },
        )
    }

    /// Whether `after` and `step` are what a project's next action comes to.
    pub open spec fn acts(
        self,
        index: int,
        context: crate::transfers::ContextView,
        after: ProjectManager,
        step: ActionStep,
    ) -> bool {
        if index >= self.projects@.len() {
            after == self && step is Nothing
        } else {
            let project = self.projects@[index];
            match project.status.next_action() {
                ProjectAction::Push => step matches ActionStep::Backup(launch) && self.launches(
                    index,
                    BackupStart::Immediate,
                    context,
                    after,
                    launch,
                ),
                ProjectAction::Restore => after == self && match project.remote {
                    None => step matches ActionStep::Say(notice) && notice@ == says(
                        NoticeLevel::Error,
                        "Can't download this project"@,
                        "The provider did not identify a version to restore."@,
                    ),
                    Some(remote) => step matches ActionStep::Restore(offer) && self.offers(
                        index,
                        remote.head,
                        context.primary,
                        offer,
                    ),
                },
                ProjectAction::Pull => after == self && if project.versions@.len() == 0 {
                    step matches ActionStep::Say(notice) && notice@ == says(
                        NoticeLevel::Warning,
                        "Latest version is not loaded yet"@,
                        "Refresh this project's history and try again."@,
                    )
                } else {
                    step matches ActionStep::Restore(offer) && self.offers(
                        index,
                        project.versions@[0].id,
                        context.primary,
                        offer,
                    )
                },
                ProjectAction::Open => after == self && match project.live_set {
                    None => step is Nothing,
                    Some(path) => step matches ActionStep::Open { path: opened } && opened@ == path@,
                },
                ProjectAction::ReviewConflicts => match self.pending_conflict {
                    Some(pending) if pending.project_id@ == project.id@ => {
                        &&& step is Nothing
                        &&& after == (ProjectManager {
                            overlay: OverlayState {
                                host: OverlayHost::Main,
                                overlay: Overlay::ConflictResolver,
                            },
                            ..self
                        })
                    },
                    _ => {
                        &&& after == self
                        &&& step matches ActionStep::Say(notice)
                        &&& notice@ == says(
                            NoticeLevel::Warning,
                            project.name@ + " needs a decision"@,
                            "Run the backup again to refresh the conflicting fields."@,
                        )
                    },
                },
                ProjectAction::Wait => after == self && step is Nothing,
            }
        }
    }

    /// Do what a project's status asks for.
    pub fn handle_project_action(&mut self, index: usize, context: BackupContext) -> (r: ActionStep)
        ensures
            old(self).acts(index as int, context@, *final(self), r),
    {
        if index >= self.projects.len() {
            return ActionStep::Nothing;
        }
        match self.projects[index].status.action() {
            ProjectAction::Push => ActionStep::Backup(
                self.start_project_backup(index, BackupStart::Immediate, context),
            ),
            ProjectAction::Restore => {
                let head = match &self.projects[index].remote {
                    Some(remote) => remote.head.clone(),
                    None => {
                        return ActionStep::Say(
                            Notice::error(
                                "Can't download this project",
                                "The provider did not identify a version to restore.",
                            ),
                        );
                    },
                };
                ActionStep::Restore(self.restore_version(index, head, &context.primary))
            },
            ProjectAction::Pull => {
                if self.projects[index].versions.len() == 0 {
                    return ActionStep::Say(
                        Notice::warning(
                            "Latest version is not loaded yet",
                            "Refresh this project's history and try again.",
                        ),
                    );
                }
                let head = self.projects[index].versions[0].id.clone();
                ActionStep::Restore(self.restore_version(index, head, &context.primary))
            },
            ProjectAction::Open => match &self.projects[index].live_set {
                Some(path) => ActionStep::Open { path: path.clone() },
                None => ActionStep::Nothing,
            },
            ProjectAction::ReviewConflicts => {
                let waits = match &self.pending_conflict {
                    Some(pending) => same(
                        pending.project_id.as_str(),
                        self.projects[index].id.as_str(),
                    ),
                    None => false,
                };
                if waits {
                    self.overlay.show(OverlayHost::Main, Overlay::ConflictResolver);
                    return ActionStep::Nothing;
                }
                let title = joined2(self.projects[index].name.as_str(), " needs a decision");
                ActionStep::Say(
                    Notice::warning(
                        title.as_str(),
                        "Run the backup again to refresh the conflicting fields.",
                    ),
                )
            },
            ProjectAction::Wait => ActionStep::Nothing,
        }
    }
}

// ---------------------------------------------------------------------------
// The destination
// ---------------------------------------------------------------------------

/// Where a restore beneath a folder would go.
pub open spec fn requested_target(
    on: Platform,
    job: RestoreJob,
    destination: Seq<char>,
) -> Seq<char> {
    restore_root_text(
        on,
        destination,
        job.location,
        project_file_text(requested_stem(on, job.file_name@), job.format),
        job.commit.text@,
    )
}

/// The question that is asked where something lies at the destination already.
#[derive(Debug)]
pub struct CollisionQuestion {
    pub title: String,
    pub detail: String,
    pub answers: Vec<String>,
}

/// What to do about the destination.
#[derive(Debug)]
pub enum DestinationStep {
    /// Nothing lies there: restore, but stop if something appears meanwhile.
    Free(RestoreCollisionChoice),
    Ask(CollisionQuestion),
}

/// The explanation of what would happen to what lies at the destination.
pub open spec fn collision_text(target: Seq<char>) -> Seq<char> {
    "A project already exists at "@ + target
        + ". Auru will first build and BLAKE3-verify the restored copy. Nothing existing is changed unless you explicitly choose Overwrite or Delete and replace."@
}

/// Where a restore beneath a folder would go.
pub fn restore_destination(on: Platform, job: &RestoreJob, destination: &str) -> (r: String)
    ensures
        r@ == requested_target(on, *job, destination@),
{
    restore_target(
        on,
        destination,
        job.file_name.as_str(),
        job.format,
        &job.location,
        job.commit.text.as_str(),
    )
}

/// Whether a person has to be asked before a restore goes to a target.
pub fn check_destination(target: &str, exists: bool) -> (r: DestinationStep)
    ensures
        !exists ==> r == DestinationStep::Free(RestoreCollisionChoice::AbortIfExists),
        exists ==> {
            &&& r matches DestinationStep::Ask(question)
            &&& question.title@ == "This restored version already exists"@
            &&& question.detail@ == collision_text(target@)
            &&& views(question.answers@) == seq![
                "Keep both"@,
                "Overwrite files"@,
                "Delete and replace"@,
                "Ignore"@,
            ]
        },
{
    if !exists {
        return DestinationStep::Free(RestoreCollisionChoice::AbortIfExists);
    }
    let mut answers: Vec<String> = Vec::new();
    answers.push("Keep both".to_owned());
    answers.push("Overwrite files".to_owned());
    answers.push("Delete and replace".to_owned());
    answers.push("Ignore".to_owned());
    assert(views(answers@) =~= seq![
        "Keep both"@,
        "Overwrite files"@,
        "Delete and replace"@,
        "Ignore"@,
    ]);
    DestinationStep::Ask(
        CollisionQuestion {
            title: "This restored version already exists".to_owned(),
            detail: joined3(
                "A project already exists at ",
                target,
                ". Auru will first build and BLAKE3-verify the restored copy. Nothing existing is changed unless you explicitly choose Overwrite or Delete and replace.",
            ),
            answers,
        },
    )
}

/// What an answer means. Whatever is not a clear choice leaves everything as it
/// is, and the message says so.
pub fn collision_answer(project_name: &str, answer: Option<usize>) -> (r: Result<
    RestoreCollisionChoice,
    Notice,
>)
    ensures
        match answer {
            Some(0) => r == Ok::<RestoreCollisionChoice, Notice>(RestoreCollisionChoice::Duplicate),
            Some(1) => r == Ok::<RestoreCollisionChoice, Notice>(RestoreCollisionChoice::Overwrite),
            Some(2) => r == Ok::<RestoreCollisionChoice, Notice>(
                RestoreCollisionChoice::DeleteAndReplace,
            ),
            _ => r is Err && r->Err_0@ == says(
                NoticeLevel::Info,
                project_name@ + " restore ignored"@,
                "The existing project was left unchanged."@,
            ),
        },
{
    match answer {
        Some(0) => Ok(RestoreCollisionChoice::Duplicate),
        Some(1) => Ok(RestoreCollisionChoice::Overwrite),
        Some(2) => Ok(RestoreCollisionChoice::DeleteAndReplace),
        _ => Err(
            Notice::info(
                joined2(project_name, " restore ignored").as_str(),
                "The existing project was left unchanged.",
            ),
        ),
    }
}

/// Whose copy is restored.
#[derive(Debug, PartialEq, Eq)]
pub enum RestoreSource {
    /// Beside the working copy at this path.
    Working(String),
    /// A provider's project by its handle, which is then enrolled here.
    Remote(String),
}

/// Whose copy a job restores.
pub fn restore_source(job: &RestoreJob) -> (r: Result<RestoreSource, String>)
    ensures
        match (job.project_path, job.remote) {
            (Some(path), _) => r matches Ok(RestoreSource::Working(working)) && working@ == path@,
            (None, Some(remote)) => r matches Ok(RestoreSource::Remote(handle)) && handle@
                == remote.handle@,
            (None, None) => r is Err && r->Err_0@ == "The project has no provider identity."@,
        },
{
    match (&job.project_path, &job.remote) {
        (Some(path), _) => Ok(RestoreSource::Working(path.clone())),
        (None, Some(remote)) => Ok(RestoreSource::Remote(remote.handle.clone())),
        (None, None) => Err("The project has no provider identity.".to_owned()),
    }
}

/// Whether a sidecar enrols the recovered copy of a job: the provider it came
/// from is its own, knows it by its handle and nobody else does, and both the
/// working copy and the verified one are the version that was restored.
pub open spec fn enrols(
    sidecar: Sidecar,
    provider_id: Seq<char>,
    handle: Seq<char>,
    job: RestoreJob,
) -> bool {
    &&& optional_view(sidecar.primary) == Some(provider_id)
    &&& sidecar.provider_handles@.dom() == set![provider_id]
    &&& sidecar.provider_handles@[provider_id]@ == handle
    &&& sidecar.local_head == Some(job.commit)
    &&& sidecar.verified_head == Some(job.commit)
    &&& sidecar.metadata@ == job.metadata@
    &&& sidecar.location == job.location
}

/// What the sidecar of a recovered project records.
fn enrolled_sidecar(provider_id: &str, handle: &str, job: &RestoreJob) -> (r: Sidecar)
    ensures
        enrols(r, provider_id@, handle@, *job),
{
    let mut provider_handles: TextMap<String> = TextMap::new();
    provider_handles.insert(provider_id, handle.to_owned());
    assert(provider_handles@.dom() =~= set![provider_id@]);
    Sidecar {
        primary: Some(provider_id.to_owned()),
        provider_handles,
        local_head: Some(job.commit.clone()),
        verified_head: Some(job.commit.clone()),
        metadata: job.metadata.clone(),
        location: copy_location(&job.location),
    }
}

/// A recovered copy, and the sidecar that enrols it.
#[derive(Debug)]
pub struct Enrolment {
    pub result: RestoreResult,
    pub sidecar: Sidecar,
}

/// Enrol a recovered copy with the provider it came from. A copy that is not
/// complete, or was not checked, gets no sidecar.
pub fn enrol_recovered(result: RestoreResult, handle: &str, job: &RestoreJob) -> (r: Result<
    Enrolment,
    String,
>)
    ensures
        match r {
            Ok(enrolment) => is_complete(result) && enrolment.result == result && enrols(
                enrolment.sidecar,
                job.listing.entry.id@,
                handle@,
                *job,
            ),
            Err(error) => !is_complete(result) && error@ == incomplete_text(result),
        },
{
    match require_complete_recovery(result) {
        Err(error) => Err(error),
        Ok(result) => Ok(
            Enrolment {
                result,
                sidecar: enrolled_sidecar(job.listing.entry.id.as_str(), handle, job),
            },
        ),
    }
}

/// A recovered project is linked to the provider and the version it came from.
pub proof fn a_recovered_project_stays_linked(
    sidecar: Sidecar,
    provider_id: Seq<char>,
    handle: Seq<char>,
    job: RestoreJob,
)
    requires
        enrols(sidecar, provider_id, handle, job),
    ensures
        remote_view(Some(sidecar)) == Some((provider_id, handle, job.commit.text@)),
{
    assert(sidecar.provider_handles@.dom().contains(provider_id));
}

/// What is said where the sidecar of a recovered project cannot be written.
pub fn enrolment_failed(error: &str) -> (r: String)
    ensures
        r@ == "enroll restored project: "@ + error@,
{
    joined2("enroll restored project: ", error)
}

// ---------------------------------------------------------------------------
// The end of a restore
// ---------------------------------------------------------------------------

/// What is said of a restore.
pub open spec fn restored_notice(name: Seq<char>, result: Result<RestoreResult, String>) -> NoticeView {
    match result {
        Err(message) => says(NoticeLevel::Error, "Couldn't restore "@ + name, message@),
        Ok(report) => if report.unavailable == 0 {
            says(
                NoticeLevel::Success,
                name + " restored"@,
                decimal(report.files_written as nat) + " captured file(s) restored to "@
                    + report.project_file@ + " · "@ + decimal(report.verified_files as nat)
                    + " file(s) BLAKE3 verified."@ + (match report.previous_copy {
                    Some(path) => " The previous copy was retained at "@ + path@
                        + " because cleanup could not remove it."@,
                    None => Seq::empty(),
                }),
            )
        } else {
            says(
                NoticeLevel::Warning,
                name + " partially restored"@,
                "Restored to "@ + report.project_file@ + " · "@ + decimal(
                    report.unavailable as nat,
                ) + " file(s) unavailable"@,
            )
        },
    }
}

fn restore_message(name: &str, result: &Result<RestoreResult, String>) -> (r: Notice)
    ensures
        r@ == restored_notice(name@, *result),
{
    match result {
        Err(message) => Notice::error(joined2("Couldn't restore ", name).as_str(), message.as_str()),
        Ok(report) => {
            if report.unavailable == 0 {
                let mut message = joined3(
                    count_text(report.files_written).as_str(),
                    " captured file(s) restored to ",
                    report.project_file.as_str(),
                );
                message.append(" · ");
                message.append(count_text(report.verified_files).as_str());
                message.append(" file(s) BLAKE3 verified.");
                let ghost base = message@;
                match &report.previous_copy {
                    Some(path) => {
                        let retained = joined3(
                            " The previous copy was retained at ",
                            path.as_str(),
                            " because cleanup could not remove it.",
                        );
                        message.append(retained.as_str());
                    },
                    None => {
                        assert(base + Seq::<char>::empty() =~= base);
                    },
                }
                Notice::success(joined2(name, " restored").as_str(), message.as_str())
            } else {
                let mut message = joined3("Restored to ", report.project_file.as_str(), " · ");
                message.append(count_text(report.unavailable).as_str());
                message.append(" file(s) unavailable");
                Notice::warning(joined2(name, " partially restored").as_str(), message.as_str())
            }
        },
    }
}

/// The scans once a folder that a project was restored into was scanned: it
/// counts only if it is watched.
pub open spec fn with_restored_scan(
    on: Platform,
    folders: Seq<WatchedFolder>,
    roots: Seq<String>,
    scan: Option<WatchedFolder>,
) -> Seq<WatchedFolder> {
    match scan {
        None => folders,
        Some(scan) => {
            let kept = still_watched(on, folders, roots);
            if scan_index(on, kept, scan.path@) < kept.len() || lists_path(on, roots, scan.path@) {
                with_scan(on, kept, scan)
            } else {
                kept
            }
        },
    }
}

fn has_scan(on: Platform, folders: &Vec<WatchedFolder>, path: &str) -> (r: bool)
    ensures
        r == (scan_index(on, folders@, path@) < folders@.len()),
{
    let ghost all = folders@;
    let mut found = false;
    let mut i: usize = 0;
    assert(all.take(0).len() == 0);
    while i < folders.len()
        invariant
            i <= folders@.len(),
            all == folders@,
            found == (scan_index(on, all.take(i as int), path@) < i),
            scan_index(on, all.take(i as int), path@) <= i,
        decreases folders@.len() - i,
    {
        assert(all.take(i + 1).drop_last() =~= all.take(i as int));
        if crate::path::equal(on, folders[i].path.as_str(), path) {
            found = true;
        }
        i = i + 1;
    }
    assert(all.take(i as int) =~= all);
    found
}

fn place_restored_scan(
    on: Platform,
    folders: &mut Vec<WatchedFolder>,
    roots: &Vec<String>,
    scan: Option<WatchedFolder>,
)
    ensures
        final(folders)@ == with_restored_scan(on, old(folders)@, roots@, scan),
{
    if let Some(scan) = scan {
        retain_watched(on, folders, roots);
        if has_scan(on, folders, scan.path.as_str()) || listed(on, roots, scan.path.as_str()) {
            place_scan(on, folders, scan);
        }
    }
}

/// A library in which a provider's row was restored: the copy on disk stands in
/// its place, where it can be read.
pub open spec fn with_restored(projects: Seq<Project>, id: Seq<char>, restored: Option<Project>) -> Seq<
    Project,
> {
    if has_project(projects, id) {
        let at = project_index(projects, id);
        match restored {
            Some(restored) => projects.update(at, restored),
            None => projects.update(
                at,
                Project { status: ProjectStatus::NotDownloaded, ..projects[at] },
            ),
        }
    } else {
        projects
    }
}

impl ProjectManager {
    /// Begin a restore: a row that only a provider has is transferred.
    pub fn restore_started(&mut self, job: &RestoreJob)
        ensures
            job.project_path is Some ==> *final(self) == *old(self),
            job.project_path is None ==> {
                &&& *final(self) == (ProjectManager { projects: final(self).projects, ..*old(self) })
                &&& final(self).projects@ == with_bare_status(
                    old(self).projects@,
                    job.project_id@,
                    ProjectStatus::Syncing,
                )
            },
    {
        if job.project_path.is_none() {
            if let Some(at) = find_project(&self.projects, job.project_id.as_str()) {
                self.projects[at].status = ProjectStatus::Syncing;
            }
        }
    }

    /// Whether `after` is the manager once a restore has ended. Where only a
    /// provider had the project, its folder is watched from then on and the row
    /// becomes the copy on disk.
    pub open spec fn ends_restore(
        self,
        job: RestoreJob,
        destination: Seq<char>,
        result: Result<RestoreResult, String>,
        scan: Option<WatchedFolder>,
        restored: Option<Project>,
        after: ProjectManager,
    ) -> bool {
        if job.project_path is Some {
            after == self
        } else {
            match result {
                Err(_) => {
                    &&& after == (ProjectManager { projects: after.projects, ..self })
                    &&& after.projects@ == with_bare_status(
                        self.projects@,
                        job.project_id@,
                        ProjectStatus::NotDownloaded,
                    )
                },
                Ok(report) => {
                    &&& after == (ProjectManager {
                        projects: after.projects,
                        selected_project: if has_project(self.projects@, job.project_id@)
                            && restored is Some {
                            project_index(self.projects@, job.project_id@) as usize
                        } else {
                            self.selected_project
                        },
                        watched_folders: after.watched_folders,
                        state: after.state,
                        ..self
                    })
                    &&& after.projects@ == with_restored(self.projects@, job.project_id@, restored)
                    &&& after.watched_folders@ == with_restored_scan(
                        self.platform,
                        self.watched_folders@,
                        after.state.watched_folders@,
                        scan,
                    )
                    &&& after.state == (AppState {
                        watched_folders: after.state.watched_folders,
                        projects: after.state.projects,
                        ..self.state
                    })
                    &&& views(after.state.watched_folders@) == with_path(
                        self.platform,
                        self.state.watched_folders@,
                        destination,
                    )
                    &&& views(after.state.projects@) == (if covered(
                        self.platform,
                        after.state.watched_folders@,
                        report.project_file@,
                    ) {
                        views(self.state.projects@)
                    } else {
                        with_path(self.platform, self.state.projects@, report.project_file@)
                    })
                },
            }
        }
    }

    #[verifier::rlimit(40)]
    fn enroll_restored(
        &mut self,
        project_id: &str,
        destination: &str,
        project_file: &str,
        scan: Option<WatchedFolder>,
        restored: Option<Project>,
    )
        ensures
            *final(self) == (ProjectManager {
                projects: final(self).projects,
                selected_project: if has_project(old(self).projects@, project_id@) && restored
                    is Some {
                    project_index(old(self).projects@, project_id@) as usize
                } else {
                    old(self).selected_project
                },
                watched_folders: final(self).watched_folders,
                state: final(self).state,
                ..*old(self)
            }),
            final(self).projects@ == with_restored(old(self).projects@, project_id@, restored),
            final(self).watched_folders@ == with_restored_scan(
                old(self).platform,
                old(self).watched_folders@,
                final(self).state.watched_folders@,
                scan,
            ),
            final(self).state == (AppState {
                watched_folders: final(self).state.watched_folders,
                projects: final(self).state.projects,
                ..old(self).state
            }),
            views(final(self).state.watched_folders@) == with_path(
                old(self).platform,
                old(self).state.watched_folders@,
                destination@,
            ),
            views(final(self).state.projects@) == (if covered(
                old(self).platform,
                final(self).state.watched_folders@,
                project_file@,
            ) {
                views(old(self).state.projects@)
            } else {
                with_path(old(self).platform, old(self).state.projects@, project_file@)
            }),
    {
        self.state.watch(self.platform, destination);
        place_restored_scan(self.platform, &mut self.watched_folders, &self.state.watched_folders, scan);
        self.state.add_project(self.platform, project_file);
        if let Some(at) = find_project(&self.projects, project_id) {
            match restored {
                Some(restored) => {
                    self.projects.set(at, restored);
                    self.selected_project = at;
                },
                None => {
                    self.projects[at].status = ProjectStatus::NotDownloaded;
                },
            }
        }
    }

    /// Take over how a restore ended. `scan` is what lies beneath the chosen
    /// folder now, and `restored` the project that was written there.
    pub fn restore_finished(
        &mut self,
        job: &RestoreJob,
        destination: &str,
        result: Result<RestoreResult, String>,
        scan: Option<WatchedFolder>,
        restored: Option<Project>,
    ) -> (r: Effects)
        ensures
            old(self).ends_restore(*job, destination@, result, scan, restored, *final(self)),
            notice_view(r.notice) == Some(restored_notice(job.project_name@, result)),
            r.save == (job.project_path is None && result is Ok),
            r.refresh@.len() == 0,
    {
        let notice = restore_message(job.project_name.as_str(), &result);
        let remote_only = job.project_path.is_none();
        let save = remote_only && result.is_ok();
        if remote_only {
            match result {
                Ok(report) => {
                    self.enroll_restored(
                        job.project_id.as_str(),
                        destination,
                        report.project_file.as_str(),
                        scan,
                        restored,
                    );
                },
                Err(_) => {
                    if let Some(at) = find_project(&self.projects, job.project_id.as_str()) {
                        self.projects[at].status = ProjectStatus::NotDownloaded;
                    }
                },
            }
        }
        Effects { notice: Some(notice), save, refresh: Vec::new() }
    }
}

} // verus!
