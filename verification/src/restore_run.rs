//! The run of a restore, from the folder it is to go to until it lies there.
//!
//! A [`RestoreRun`] says which step comes next, and goes on from how the step
//! went; performing the steps is left to the caller. A version is restored into
//! a staging folder of its own, and only what is complete enough takes the place
//! of something else. From the moment the staging folder is made, a run that
//! fails removes it last.
use vstd::prelude::*;

use crate::format::{CommitId, ProjectFormat, ProjectLocation};
use crate::names::{folder_above, folder_above_of, is_quarantine, project_file_text, requested_stem,
    restore_root_for, restore_root_text, restored_file_name, staging_candidate, staging_start,
    unique_quarantine_path};
use crate::notice::joined2;
use crate::path::{is_beneath, joined_path, Platform};
use crate::publish::{outcome_view, Publication, PublishStage, StageView};
use crate::restore::{create_staging_root, hash_restore_tree, hash_views, place_in_staging,
    problem_text, project_within_staging, published, refused_text,
    require_complete_replacement, resolve_restore_collision, resolves_to, tree_hashes, CreateFolder,
    RestoreCollisionChoice, RestoreResult, StagingStep, TreeEntry};
use crate::text::{decimal, holds_text, list_holds, optional_view, views};

verus! {

/// What to do next in a restore.
#[derive(Debug)]
pub enum RestoreStage {
    /// See whether something lies at the folder the restore would go to.
    LookAtDestination,
    /// Create the folder that the restore goes into.
    MakeParent,
    /// Create the staging folder; it is the try of this number.
    MakeStaging(u32),
    /// Restore the version into the staging folder.
    Fill,
    /// Read the staging folder.
    ReadTree,
    /// See whether something lies at the path that is to protect what is there.
    LookAtQuarantine,
    /// See whether something lies at the destination by now.
    LookAgain,
    /// A step of publishing.
    Publish(PublishStage),
    /// Remove the staging folder, as far as possible; this is why.
    Clean(String),
}

/// A restore under way.
#[derive(Debug)]
pub struct RestoreRun {
    pub platform: Platform,
    /// The name of the project file.
    pub file_name: String,
    /// The folder that was asked for.
    pub requested: String,
    pub collision: RestoreCollisionChoice,
    /// The number of this process.
    pub process: u32,
    /// The folders that something was found at.
    pub taken: Vec<String>,
    /// The folder the restore goes to.
    pub final_root: String,
    pub staging: String,
    /// What lies in the staging folder.
    pub restored: Option<RestoreResult>,
    /// The place of the project file in the staging folder.
    pub project_relative: String,
    /// The files of the staging folder with their hashes.
    pub expected: Vec<(String, String)>,
    /// The paths that something was found at when one was looked for to protect
    /// what is there.
    pub quarantine_taken: Vec<String>,
    pub quarantine: String,
    pub stage: RestoreStage,
}

/// Where a restore stands after a step.
#[derive(Debug)]
pub enum RestoreStep {
    Next(RestoreRun),
    Done(RestoreResult),
    Failed(String),
}

/// Whether a step is a failure that says so.
pub open spec fn fails_with(step: RestoreStep, message: Seq<char>) -> bool {
    step matches RestoreStep::Failed(said) && said@ == message
}

impl RestoreRun {
    /// Whether there is a staging folder.
    pub open spec fn has_staging(self) -> bool {
        !(self.stage is LookAtDestination || self.stage is MakeParent || self.stage is MakeStaging)
    }

    /// Whether the staging folder was filled and read.
    pub open spec fn is_staged(self) -> bool {
        self.stage is LookAtQuarantine || self.stage is LookAgain || self.stage is Publish
    }

    /// Whether what lies in the staging folder may be published: files may only
    /// be missing from a copy that takes the place of nothing.
    pub open spec fn may_publish(self) -> bool {
        self.restored is Some && (self.restored->0.unavailable == 0 || !self.collision.replaces())
    }

    /// The publication of the restore.
    pub open spec fn publication_of(self) -> Publication {
        Publication {
            final_root: self.final_root,
            quarantine: self.quarantine,
            collision: self.collision,
        }
    }

    /// What holds at every step: the restore goes where nothing lies or to what
    /// it may replace, nothing is published unless it is complete enough, and
    /// the project file lies in the staging folder.
    pub open spec fn wf(self) -> bool {
        &&& resolves_to(self.platform, self.requested@, self.collision, self.taken@, self.final_root@)
        &&& self.stage is LookAtDestination ==> !holds_text(self.taken@, self.final_root@)
        &&& self.stage is MakeStaging ==> self.staging@ == staging_start(
            self.platform,
            self.final_root@,
            self.process as nat,
        ) + decimal(self.stage->MakeStaging_0 as nat)
        &&& self.has_staging() ==> exists|copy: u32|
            self.staging@ == staging_start(self.platform, self.final_root@, self.process as nat)
                + #[trigger] decimal(copy as nat)
        &&& (self.stage is ReadTree || self.is_staged()) ==> {
            &&& self.restored is Some
            &&& is_beneath(self.platform, self.restored->0.project_file@, self.staging@)
            &&& self.project_relative@ == place_in_staging(
                self.platform,
                self.restored->0.project_file@,
                self.staging@,
            )
        }
        &&& self.is_staged() ==> self.may_publish()
        &&& self.is_staged() ==> is_quarantine(
            self.platform,
            self.final_root@,
            self.process as nat,
            self.quarantine_taken@,
            self.quarantine@,
        )
        &&& self.stage is Publish ==> !(self.stage->Publish_0 is Done)
            && !(self.stage->Publish_0 is Failed)
    }

    /// Whether a step may follow: a staging folder stays until it is removed, a
    /// restore is only done once it was published, and it only fails where there
    /// is no staging folder or the folder was just removed.
    pub open spec fn goes_to(self, step: RestoreStep) -> bool {
        match step {
            RestoreStep::Next(after) => {
                &&& after.wf()
                &&& after.platform == self.platform
                &&& after.file_name == self.file_name
                &&& after.requested == self.requested
                &&& after.collision == self.collision
                &&& after.process == self.process
                &&& self.has_staging() ==> after.has_staging() && after.staging == self.staging
                    && after.final_root == self.final_root
            },
            RestoreStep::Done(result) => {
                &&& self.stage is Publish
                &&& self.may_publish()
                &&& result.unavailable == self.restored->0.unavailable
            },
            RestoreStep::Failed(_) => !self.has_staging() || self.stage is Clean,
        }
    }

    /// Whether a step is to remove the staging folder, for a reason.
    pub open spec fn cleans(self, step: RestoreStep, error: Seq<char>) -> bool {
        &&& step matches RestoreStep::Next(after)
        &&& after.stage matches RestoreStage::Clean(reason)
        &&& reason@ == error
        &&& after == (RestoreRun { stage: after.stage, ..self })
    }

    /// Begin a restore of a version.
    pub fn start(
        on: Platform,
        destination: &str,
        requested_file_name: &str,
        format: ProjectFormat,
        location: &Option<ProjectLocation>,
        commit: &CommitId,
        collision: RestoreCollisionChoice,
        process: u32,
    ) -> (r: Self)
        ensures
            r.wf(),
            r.stage is LookAtDestination,
            r.platform == on,
            r.file_name@ == project_file_text(requested_stem(on, requested_file_name@), format),
            r.requested@ == restore_root_text(on, destination@, *location, r.file_name@, commit.text@),
            r.final_root@ == r.requested@,
            r.collision == collision,
            r.process == process,
            r.taken@.len() == 0,
    {
        let file_name = restored_file_name(on, requested_file_name, format);
        let requested = restore_root_for(
            on,
            destination,
            location,
            file_name.as_str(),
            commit.text.as_str(),
        );
        RestoreRun {
            platform: on,
            file_name,
            final_root: requested.clone(),
            requested,
            collision,
            process,
            taken: Vec::new(),
            staging: String::new(),
            restored: None,
            project_relative: String::new(),
            expected: Vec::new(),
            quarantine_taken: Vec::new(),
            quarantine: String::new(),
            stage: RestoreStage::LookAtDestination,
        }
    }

    /// Go on once it is known whether something lies at the destination: where
    /// nothing does, or it may be replaced, the restore goes there; where it is
    /// to be kept, the next name is looked at.
    pub fn destination_seen(self, occupied: bool) -> (r: RestoreStep)
        requires
            self.wf(),
            self.stage is LookAtDestination,
        ensures
            self.goes_to(r),
            ({
                let seen = views(self.taken@).push(self.final_root@);
                if !occupied {
                    r == RestoreStep::Next(RestoreRun { stage: RestoreStage::MakeParent, ..self })
                } else if self.collision is AbortIfExists {
                    fails_with(r, refused_text(self.requested@))
                } else {
                    &&& r matches RestoreStep::Next(after)
                    &&& views(after.taken@) == seen
                    &&& after == (RestoreRun {
                        taken: after.taken,
                        final_root: after.final_root,
                        stage: if self.collision is Duplicate {
                            RestoreStage::LookAtDestination
                        } else {
                            RestoreStage::MakeParent
                        },
                        ..self
                    })
                }
            }),
    {
        if !occupied {
            return RestoreStep::Next(RestoreRun { stage: RestoreStage::MakeParent, ..self });
        }
        let mut run = self;
        let ghost before = views(run.taken@);
        run.taken.push(run.final_root.clone());
        proof {
            assert(views(run.taken@) =~= before.push(run.final_root@));
            assert(run.taken@[run.taken@.len() - 1]@ == run.final_root@);
            if before.len() == 0 {
                assert(!holds_text(self.taken@, self.requested@));
            }
            assert(holds_text(run.taken@, run.requested@)) by {
                if holds_text(self.taken@, self.requested@) {
                    let i = choose|i: int|
                        0 <= i < self.taken@.len() && (#[trigger] self.taken@[i])@
                            == self.requested@;
                    assert(run.taken@[i]@ == self.requested@);
                }
            }
        }
        match resolve_restore_collision(run.platform, run.requested.as_str(), run.collision, &run.taken) {
            Err(error) => RestoreStep::Failed(error),
            Ok(root) => {
                run.stage = if list_holds(&run.taken, root.as_str()) {
                    RestoreStage::MakeParent
                } else {
                    RestoreStage::LookAtDestination
                };
                run.final_root = root;
                RestoreStep::Next(run)
            },
        }
    }

    /// The folder the restore goes into.
    pub fn parent(&self) -> (r: String)
        ensures
            r@ == (if folder_above(self.platform, self.final_root@).len() == 0 {
                "."@
            } else {
                folder_above(self.platform, self.final_root@)
            }),
    {
        let above = folder_above_of(self.platform, self.final_root.as_str());
        if above.as_str().is_empty() {
            ".".to_owned()
        } else {
            above
        }
    }

    /// Whether a step is to create the staging folder on the `copy`-th try.
    pub open spec fn tries(self, step: RestoreStep, copy: u32) -> bool {
        &&& step matches RestoreStep::Next(after)
        &&& after == (RestoreRun {
            staging: after.staging,
            stage: RestoreStage::MakeStaging(copy),
            ..self
        })
        &&& after.staging@ == staging_start(self.platform, self.final_root@, self.process as nat) + decimal(
            copy as nat,
        )
    }

    /// Go on once the folder that the restore goes into is there, or is not.
    pub fn parent_made(self, made: Result<(), String>) -> (r: RestoreStep)
        requires
            self.wf(),
            self.stage is MakeParent,
        ensures
            self.goes_to(r),
            match made {
                Ok(_) => self.tries(r, 1),
                Err(error) => fails_with(r, "create restore parent: "@ + error@),
            },
    {
        match made {
            Err(error) => RestoreStep::Failed(joined2("create restore parent: ", error.as_str())),
            Ok(()) => {
                let staging = staging_candidate(self.platform, self.final_root.as_str(), self.process, 1);
                RestoreStep::Next(
                    RestoreRun { staging, stage: RestoreStage::MakeStaging(1), ..self },
                )
            },
        }
    }

    /// Go on from a try to create the staging folder: a name that is taken is
    /// passed over.
    pub fn staging_made(self, created: CreateFolder) -> (r: RestoreStep)
        requires
            self.wf(),
            self.stage is MakeStaging,
            self.stage->MakeStaging_0 < u32::MAX,
        ensures
            self.goes_to(r),
            match created {
                CreateFolder::Created => r == RestoreStep::Next(
                    RestoreRun { stage: RestoreStage::Fill, ..self },
                ),
                CreateFolder::AlreadyExists => self.tries(
                    r,
                    (self.stage->MakeStaging_0 + 1) as u32,
                ),
                CreateFolder::Failed(error) => fails_with(
                    r,
                    "create restore staging folder: "@ + error@,
                ),
            },
    {
        let copy: u32 = match self.stage {
            RestoreStage::MakeStaging(copy) => copy,
            _ => 1,
        };
        match create_staging_root(copy, created) {
            StagingStep::Failed(error) => RestoreStep::Failed(error),
            StagingStep::Ready => RestoreStep::Next(
                RestoreRun { stage: RestoreStage::Fill, ..self },
            ),
            StagingStep::Retry(next) => {
                let staging = staging_candidate(self.platform, self.final_root.as_str(), self.process, next);
                RestoreStep::Next(
                    RestoreRun { staging, stage: RestoreStage::MakeStaging(next), ..self },
                )
            },
        }
    }

    fn clean(self, error: String) -> (r: RestoreStep)
        requires
            self.wf(),
            self.has_staging(),
        ensures
            self.goes_to(r),
            self.cleans(r, error@),
    {
        RestoreStep::Next(RestoreRun { stage: RestoreStage::Clean(error), ..self })
    }

    /// Go on once the version was restored into the staging folder, or was not.
    pub fn filled(self, restored: Result<RestoreResult, String>) -> (r: RestoreStep)
        requires
            self.wf(),
            self.stage is Fill,
        ensures
            self.goes_to(r),
            match restored {
                Err(error) => self.cleans(r, error@),
                Ok(restored) => if is_beneath(self.platform, restored.project_file@, self.staging@) {
                    &&& r matches RestoreStep::Next(after)
                    &&& after == (RestoreRun {
                        restored: Some(restored),
                        project_relative: after.project_relative,
                        stage: RestoreStage::ReadTree,
                        ..self
                    })
                } else {
                    self.cleans(r, "restored project escaped its staging folder"@)
                },
            },
    {
        let restored = match restored {
            Err(error) => {
                return self.clean(error);
            },
            Ok(restored) => restored,
        };
        match project_within_staging(self.platform, restored.project_file.as_str(), self.staging.as_str()) {
            Err(error) => self.clean(error),
            Ok(project_relative) => RestoreStep::Next(
                RestoreRun {
                    restored: Some(restored),
                    project_relative,
                    stage: RestoreStage::ReadTree,
                    ..self
                },
            ),
        }
    }

    /// The words for a restore that misses files and would replace something.
    pub open spec fn missing_text(self) -> Seq<char> {
        "The staged restore is missing "@ + decimal(self.restored->0.unavailable as nat)
            + " referenced file(s), so the existing copy was left untouched."@
    }

    /// Go on once the staging folder was read, or was not: a folder that cannot
    /// be hashed is not published, nor is one that misses files in place of
    /// something.
    pub fn tree_read(self, tree: Result<Vec<(String, TreeEntry)>, String>) -> (r: RestoreStep)
        requires
            self.wf(),
            self.stage is ReadTree,
        ensures
            self.goes_to(r),
            match tree {
                Err(error) => self.cleans(r, error@),
                Ok(tree) => match tree_hashes(self.platform, Seq::empty(), tree@, Seq::empty()) {
                    Err(problem) => self.cleans(r, problem_text(self.platform, self.staging@, problem)),
                    Ok(hashes) => if !self.may_publish() {
                        self.cleans(r, self.missing_text())
                    } else {
                        &&& r matches RestoreStep::Next(after)
                        &&& hash_views(after.expected@) == hashes
                        &&& after.quarantine_taken@.len() == 0
                        &&& after == (RestoreRun {
                            expected: after.expected,
                            quarantine_taken: after.quarantine_taken,
                            quarantine: after.quarantine,
                            stage: RestoreStage::LookAtQuarantine,
                            ..self
                        })
                    },
                },
            },
    {
        let tree = match tree {
            Err(error) => {
                return self.clean(error);
            },
            Ok(tree) => tree,
        };
        let expected = match hash_restore_tree(self.platform, self.staging.as_str(), &tree) {
            Err(error) => {
                return self.clean(error);
            },
            Ok(expected) => expected,
        };
        let unavailable: usize = match &self.restored {
            Some(restored) => restored.unavailable,
            None => 0,
        };
        match require_complete_replacement(unavailable, self.collision) {
            Err(error) => self.clean(error),
            Ok(()) => {
                let quarantine_taken: Vec<String> = Vec::new();
                let quarantine = unique_quarantine_path(
                    self.platform,
                    self.final_root.as_str(),
                    self.process,
                    &quarantine_taken,
                );
                RestoreStep::Next(
                    RestoreRun {
                        expected,
                        quarantine_taken,
                        quarantine,
                        stage: RestoreStage::LookAtQuarantine,
                        ..self
                    },
                )
            },
        }
    }

    /// Go on once it is known whether something lies at the path that is to
    /// protect what is there.
    pub fn quarantine_seen(self, occupied: bool) -> (r: RestoreStep)
        requires
            self.wf(),
            self.stage is LookAtQuarantine,
        ensures
            self.goes_to(r),
            if !occupied {
                r == RestoreStep::Next(RestoreRun { stage: RestoreStage::LookAgain, ..self })
            } else {
                &&& r matches RestoreStep::Next(after)
                &&& views(after.quarantine_taken@) == views(self.quarantine_taken@).push(
                    self.quarantine@,
                )
                &&& after == (RestoreRun {
                    quarantine_taken: after.quarantine_taken,
                    quarantine: after.quarantine,
                    ..self
                })
            },
    {
        if !occupied {
            return RestoreStep::Next(RestoreRun { stage: RestoreStage::LookAgain, ..self });
        }
        let mut run = self;
        let ghost before = views(run.quarantine_taken@);
        run.quarantine_taken.push(run.quarantine.clone());
        assert(views(run.quarantine_taken@) =~= before.push(run.quarantine@));
        run.quarantine =
        unique_quarantine_path(run.platform, run.final_root.as_str(), run.process, &run.quarantine_taken);
        RestoreStep::Next(run)
    }

    fn publication(&self) -> (r: Publication)
        ensures
            r == self.publication_of(),
    {
        Publication {
            final_root: self.final_root.clone(),
            quarantine: self.quarantine.clone(),
            collision: self.collision,
        }
    }

    /// Whether `step` is where a run goes with a step of publishing: on with it,
    /// or to the end.
    pub open spec fn goes_on(self, stage: StageView, step: RestoreStep) -> bool {
        match stage {
            StageView::Failed(error) => self.cleans(step, error),
            StageView::Done(previous) => {
                &&& step matches RestoreStep::Done(result)
                &&& result.project_file@ == joined_path(self.platform, self.final_root@, self.project_relative@)
                &&& result.files_written == self.restored->0.files_written
                &&& result.unavailable == self.restored->0.unavailable
                &&& result.verified_files == self.expected@.len()
                &&& optional_view(result.previous_copy) == previous
            },
            _ => {
                &&& step matches RestoreStep::Next(after)
                &&& after.stage matches RestoreStage::Publish(next)
                &&& next@ == stage
                &&& after == (RestoreRun { stage: after.stage, ..self })
            },
        }
    }

    fn go_on(self, stage: PublishStage) -> (r: RestoreStep)
        requires
            self.wf(),
            self.is_staged(),
        ensures
            r is Next ==> self.goes_to(r),
            !(r is Failed),
            self.goes_on(stage@, r),
    {
        match stage {
            PublishStage::Failed(error) => self.clean(error),
            PublishStage::Done(previous) => {
                match self.restored {
                    Some(restored) => RestoreStep::Done(
                        published(
                            self.platform,
                            restored,
                            self.final_root.as_str(),
                            self.project_relative.as_str(),
                            self.expected.len(),
                            previous,
                        ),
                    ),
                    None => {
                        assert(false);
                        RestoreStep::Failed(String::new())
                    },
                }
            },
            stage => RestoreStep::Next(RestoreRun { stage: RestoreStage::Publish(stage), ..self }),
        }
    }

    /// Begin to publish, given whether something lies at the destination.
    pub fn destination_seen_again(self, occupied: bool) -> (r: RestoreStep)
        requires
            self.wf(),
            self.stage is LookAgain,
        ensures
            self.goes_to(r),
            self.goes_on(self.publication_of().first_stage(occupied), r),
    {
        let publication = self.publication();
        let stage = publication.start(occupied);
        self.go_on(stage)
    }

    /// Go on from a step of publishing.
    pub fn step_done(self, outcome: Result<(), String>) -> (r: RestoreStep)
        requires
            self.wf(),
            self.stage is Publish,
        ensures
            self.goes_to(r),
            self.goes_on(
                self.publication_of().stage_after(self.stage->Publish_0@, outcome_view(outcome)),
                r,
            ),
    {
        let publication = self.publication();
        let mut run = self;
        let mut stage = RestoreStage::LookAgain;
        std::mem::swap(&mut run.stage, &mut stage);
        match stage {
            RestoreStage::Publish(stage) => {
                let next = publication.next(stage, outcome);
                run.go_on(next)
            },
            _ => {
                assert(false);
                RestoreStep::Failed(String::new())
            },
        }
    }

    /// The restore failed, and its staging folder was removed.
    pub fn cleaned(self) -> (r: RestoreStep)
        requires
            self.wf(),
            self.stage is Clean,
        ensures
            self.goes_to(r),
            r == RestoreStep::Failed(self.stage->Clean_0),
    {
        match self.stage {
            RestoreStage::Clean(error) => RestoreStep::Failed(error),
            _ => {
                assert(false);
                RestoreStep::Failed(String::new())
            },
        }
    }
}

/// Whether each run follows from the one before it.
pub open spec fn is_course(runs: Seq<RestoreRun>) -> bool {
    forall|i: int, j: int|
        #![trigger runs[i], runs[j]]
        0 <= i && j == i + 1 && j < runs.len() ==> runs[i].goes_to(RestoreStep::Next(runs[j]))
}

/// A restore that misses files takes the place of nothing: where it is being
/// published, or was, it is complete or replaces nothing.
pub proof fn an_incomplete_restore_replaces_nothing(run: RestoreRun, step: RestoreStep)
    requires
        run.wf(),
        run.collision.replaces(),
        run.goes_to(step),
    ensures
        run.stage is Publish ==> run.restored->0.unavailable == 0,
        step matches RestoreStep::Done(result) ==> result.unavailable == 0,
        step matches RestoreStep::Next(after) ==> (after.stage is Publish
            ==> after.restored->0.unavailable == 0),
{
}

/// Once there is a staging folder, it stays the one of the restore.
proof fn a_staging_folder_stays(runs: Seq<RestoreRun>, i: int, j: int)
    requires
        is_course(runs),
        0 <= i <= j < runs.len(),
        runs[i].has_staging(),
    ensures
        runs[j].has_staging(),
        runs[j].staging == runs[i].staging,
    decreases j - i,
{
    if i < j {
        a_staging_folder_stays(runs, i, j - 1);
        assert(runs[j - 1].goes_to(RestoreStep::Next(runs[j])));
    }
}

/// A restore that fails leaves no staging folder behind: whatever step failed,
/// the last one before the failure was to remove the folder that was made.
pub proof fn a_failed_restore_removes_its_staging_folder(
    runs: Seq<RestoreRun>,
    i: int,
    error: String,
)
    requires
        is_course(runs),
        0 <= i < runs.len(),
        runs[i].has_staging(),
        runs.last().goes_to(RestoreStep::Failed(error)),
    ensures
        runs.last().stage is Clean,
        runs.last().staging == runs[i].staging,
{
    a_staging_folder_stays(runs, i, runs.len() - 1);
}

/// Nothing is published but by a restore that filled and read its staging
/// folder: what is published lies there.
pub proof fn only_what_was_staged_is_published(run: RestoreRun)
    requires
        run.wf(),
        run.stage is Publish,
    ensures
        run.may_publish(),
        is_beneath(run.platform, run.restored->0.project_file@, run.staging@),
        run.project_relative@ == place_in_staging(run.platform, run.restored->0.project_file@, run.staging@),
{
}

} // verus!
