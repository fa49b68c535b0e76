//! Backing a project up: what is read, in which order the provider is asked,
//! and what the outcome means.
use vstd::prelude::*;

use crate::catalog::{Capabilities, ProviderListing};
use crate::format::{copy_location, location_view, CommitId, CommitSummary, MetadataView, ProjectFormat,
    ProjectLocation, ProjectMetadata, Sidecar};
use crate::json::{content_of, field_at, whole_value, FieldValue, FieldView};
use crate::moment::Moment;
use crate::names::{project_display_name, project_name_text};
use crate::notice::joined3;
use crate::path::Platform;
use crate::retention::{retention_roots, stash_blobs, RetentionReport, RetentionRoots, RetentionRule, Stash};
use crate::state::PathAliasState;
use crate::text::{blank, count_text, decimal, first_chars, is_blank, optional_view, prefix_of, starts};
use serde_json::Value;

verus! {

// ---------------------------------------------------------------------------
// Preparing
// ---------------------------------------------------------------------------

/// How often a project file is read before giving up on it.
pub const MAX_READ_ATTEMPTS: u8 = 3;

/// What to do after a project file was read.
#[derive(Debug, PartialEq, Eq)]
pub enum StableRead {
    /// The file did not change meanwhile: what was read is this revision.
    Stable(Option<Moment>),
    /// Read it again.
    Again,
    GiveUp(String),
}

/// Whether a read of a project file, the `attempt`-th, is judged rightly by its
/// modification times before and after.
pub open spec fn judges(
    path: Seq<char>,
    attempt: u8,
    before: Option<Moment>,
    after: Option<Moment>,
    read: StableRead,
) -> bool {
    &&& before == after ==> read == StableRead::Stable(after)
    &&& before != after && attempt < MAX_READ_ATTEMPTS ==> read is Again
    &&& before != after && attempt >= MAX_READ_ATTEMPTS ==> read is GiveUp && read->GiveUp_0@
        == path
        + " kept changing while it was being read; wait for the save to finish and try again"@
}

/// Judge the `attempt`-th read of a project file by its modification times
/// before and after.
pub fn load_stable_snapshot(
    path: &str,
    attempt: u8,
    before: Option<Moment>,
    after: Option<Moment>,
) -> (r: StableRead)
    ensures
        judges(path@, attempt, before, after, r),
{
    let stable = match (before, after) {
        (Some(a), Some(b)) => a == b,
        (None, None) => true,
        _ => false,
    };
    if stable {
        return StableRead::Stable(after);
    }
    if attempt < MAX_READ_ATTEMPTS {
        return StableRead::Again;
    }
    let mut message = path.to_owned();
    message.append(
        " kept changing while it was being read; wait for the save to finish and try again",
    );
    StableRead::GiveUp(message)
}

/// A project revision that was read and is ready to be backed up. The snapshot
/// itself stays with the caller.
#[derive(Clone, Debug)]
pub struct PreparedBackup {
    pub project_path: String,
    pub format: ProjectFormat,
    pub metadata: ProjectMetadata,
    pub location: Option<ProjectLocation>,
    pub source_revision: Option<Moment>,
}

impl PreparedBackup {
    pub fn source_revision(&self) -> (r: Option<Moment>)
        ensures
            r == self.source_revision,
    {
        self.source_revision
    }
}

/// Join what is known of a project revision. The place that the library knows
/// comes before the one that the sidecar records.
pub fn prepare_backup(
    project_path: String,
    format: ProjectFormat,
    location: Option<ProjectLocation>,
    source_revision: Option<Moment>,
    sidecar: Result<Sidecar, String>,
) -> (r: Result<PreparedBackup, String>)
    ensures
        match sidecar {
            Err(error) => r is Err && r->Err_0@ == "read project metadata: "@ + error@,
            Ok(sidecar) => {
                &&& r is Ok
                &&& r->Ok_0.project_path == project_path
                &&& r->Ok_0.format == format
                &&& r->Ok_0.metadata == sidecar.metadata
                &&& r->Ok_0.location == (if location is Some {
                    location
                } else {
                    sidecar.location
                })
                &&& r->Ok_0.source_revision == source_revision
            },
        },
{
    match sidecar {
        Err(error) => {
            let mut message = "read project metadata: ".to_owned();
            message.append(error.as_str());
            Err(message)
        },
        Ok(sidecar) => {
            let location = match location {
                Some(location) => Some(location),
                None => sidecar.location,
            };
            Ok(
                PreparedBackup {
                    project_path,
                    format,
                    metadata: sidecar.metadata,
                    location,
                    source_revision,
                },
            )
        },
    }
}

/// What started a backup.
#[derive(Clone, Copy, Debug, PartialEq, Eq, Structural)]
pub enum BackupStart {
    Immediate,
    AfterQuietPeriod { qualified_revision: Moment },
}

impl BackupStart {
    /// Whether a revision that was read is the one to back up. A person who
    /// asks for a backup gets the latest save; an automatic backup takes only
    /// the revision that was quiet long enough.
    pub fn accepts_prepared_revision(self, prepared_revision: Option<Moment>) -> (r: bool)
        ensures
            r == (match self {
                BackupStart::Immediate => true,
                BackupStart::AfterQuietPeriod { qualified_revision } => prepared_revision == Some(
                    qualified_revision,
                ),
            }),
    {
        match self {
            BackupStart::Immediate => true,
            BackupStart::AfterQuietPeriod { qualified_revision } => match prepared_revision {
                Some(revision) => revision == qualified_revision,
                None => false,
            },
        }
    }
}

// ---------------------------------------------------------------------------
// Who made a version
// ---------------------------------------------------------------------------

/// Who a version is attributed to.
#[derive(Debug, PartialEq, Eq)]
pub struct AuthorIdentity {
    pub display_name: String,
    pub provider_user_id: String,
    pub provider_id: String,
    pub email: Option<String>,
}

/// Who a provider says is signed in.
#[derive(Debug)]
pub struct AccountIdentity {
    pub display_name: String,
    pub user_id: String,
    pub provider_id: String,
    pub email: Option<String>,
}

/// What asking a provider who is signed in came to.
#[derive(Debug)]
pub enum IdentityRead {
    Known(AccountIdentity),
    /// The provider has no such endpoint.
    NotFound(String),
    Failed(String),
}

/// Whether an identity is that of the person at this computer.
pub open spec fn is_local_author(
    author: AuthorIdentity,
    provider_id: Seq<char>,
    local_display_name: Seq<char>,
) -> bool {
    &&& author.display_name@ == (if is_blank(local_display_name) {
        "Local user"@
    } else {
        local_display_name
    })
    &&& author.provider_user_id@ == "local-user"@
    &&& author.provider_id@ == provider_id
    &&& author.email is None
}

/// The person at this computer, as a provider that knows nobody sees them.
pub fn local_author(provider_id: &str, local_display_name: &str) -> (r: AuthorIdentity)
    ensures
        is_local_author(r, provider_id@, local_display_name@),
{
    AuthorIdentity {
        display_name: if blank(local_display_name) {
            "Local user".to_owned()
        } else {
            local_display_name.to_owned()
        },
        provider_user_id: "local-user".to_owned(),
        provider_id: provider_id.to_owned(),
        email: None,
    }
}

/// Whether a version is attributed rightly: to whoever is signed in there, or to
/// the person at this computer.
pub open spec fn attributes(
    listing: ProviderListing,
    local_display_name: Seq<char>,
    identity: IdentityRead,
    authenticated: bool,
    author: Result<AuthorIdentity, String>,
) -> bool {
    &&& starts(listing.entry.id@, "local:"@) ==> author is Ok && is_local_author(
        author->Ok_0,
        listing.entry.id@,
        local_display_name,
    )
    &&& !starts(listing.entry.id@, "local:"@) ==> match identity {
        IdentityRead::Known(known) => {
            &&& author is Ok
            &&& author->Ok_0.display_name == known.display_name
            &&& author->Ok_0.provider_user_id == known.user_id
            &&& author->Ok_0.provider_id == known.provider_id
            &&& author->Ok_0.email == known.email
        },
        IdentityRead::NotFound(error) => if !authenticated {
            author is Ok && is_local_author(author->Ok_0, listing.entry.id@, local_display_name)
        } else {
            author is Err && author->Err_0@ == "read authenticated identity: "@ + error@
        },
        IdentityRead::Failed(error) => author is Err && author->Err_0@ == "read authenticated identity: "@
            + error@,
    }
}

/// Who a version on a server is attributed to: whoever is signed in there. A
/// provider without accounts, which has no identity to give, gets the person at
/// this computer.
pub fn open_provider_for_backup(
    listing: &ProviderListing,
    local_display_name: &str,
    identity: IdentityRead,
    authenticated: bool,
) -> (r: Result<AuthorIdentity, String>)
    ensures
        attributes(*listing, local_display_name@, identity, authenticated, r),
{
    if listing.is_local() {
        return Ok(local_author(listing.entry.id.as_str(), local_display_name));
    }
    let error = match identity {
        IdentityRead::Known(known) => {
            return Ok(
                AuthorIdentity {
                    display_name: known.display_name,
                    provider_user_id: known.user_id,
                    provider_id: known.provider_id,
                    email: known.email,
                },
            );
        },
        IdentityRead::NotFound(error) => {
            if !authenticated {
                return Ok(local_author(listing.entry.id.as_str(), local_display_name));
            }
            error
        },
        IdentityRead::Failed(error) => error,
    };
    let mut message = "read authenticated identity: ".to_owned();
    message.append(error.as_str());
    Err(message)
}

// ---------------------------------------------------------------------------
// Conflicts
// ---------------------------------------------------------------------------

/// Which side of a conflicting field to keep.
#[derive(Clone, Copy, Debug, PartialEq, Eq, Structural)]
pub enum ConflictChoice {
    Local,
    Remote,
}

/// A field that both sides changed, with its value on either side and before,
/// where there is one.
#[derive(Clone, Debug)]
pub struct ConflictedField {
    pub path: String,
    pub base: Option<Value>,
    pub local: Option<Value>,
    pub remote: Option<Value>,
}

/// The most characters of a text that are shown.
pub const MAX_VALUE_CHARS: usize = 160;

/// A value in words.
pub open spec fn value_text(value: FieldView) -> Seq<char> {
    match value {
        FieldView::Null => "None"@,
        FieldView::Bool(value) => if value {
            "true"@
        } else {
            "false"@
        },
        FieldView::Number(number) => number,
        FieldView::Text(text) => if text.len() > MAX_VALUE_CHARS {
            first_chars(text, MAX_VALUE_CHARS as nat) + "…"@
        } else {
            text
        },
        FieldView::List(count) => decimal(count) + " item(s)"@,
        FieldView::Record(count) => decimal(count) + " field(s)"@,
    }
}

/// A value in words; a long text is cut.
pub fn value_label(value: FieldValue) -> (r: String)
    ensures
        r@ == value_text(value@),
{
    match value {
        FieldValue::Null => "None".to_owned(),
        FieldValue::Bool(value) => {
            if value {
                "true".to_owned()
            } else {
                "false".to_owned()
            }
        },
        FieldValue::Number(number) => number,
        FieldValue::Text(text) => {
            let mut label = prefix_of(text.as_str(), MAX_VALUE_CHARS);
            if text.as_str().unicode_len() > MAX_VALUE_CHARS {
                label.append("…");
            }
            label
        },
        FieldValue::List(count) => {
            let mut out = count_text(count);
            out.append(" item(s)");
            out
        },
        FieldValue::Record(count) => {
            let mut out = count_text(count);
            out.append(" field(s)");
            out
        },
    }
}

/// One side of a conflicting field in words.
pub fn conflict_value_label(value: &Option<Value>) -> (r: String)
    ensures
        match *value {
            None => r@ == "Not present"@,
            Some(value) => field_at(content_of(value), ""@) is Some && r@ == value_text(
                field_at(content_of(value), ""@)->0,
            ),
        },
{
    match value {
        None => "Not present".to_owned(),
        Some(value) => value_label(whole_value(value)),
    }
}

/// The choices a conflict starts with: this computer's side of every field.
pub fn first_choices(count: usize) -> (r: Vec<ConflictChoice>)
    ensures
        r@ == Seq::new(count as nat, |i: int| ConflictChoice::Local),
{
    let mut choices: Vec<ConflictChoice> = Vec::new();
    let mut i: usize = 0;
    while i < count
        invariant
            i <= count,
            choices@ == Seq::new(i as nat, |i: int| ConflictChoice::Local),
        decreases count - i,
    {
        choices.push(ConflictChoice::Local);
        i = i + 1;
        assert(choices@ =~= Seq::new(i as nat, |i: int| ConflictChoice::Local));
    }
    choices
}

// ---------------------------------------------------------------------------
// The run of a backup
// ---------------------------------------------------------------------------

/// What is known of the copy a provider holds.
#[derive(Debug, PartialEq, Eq)]
pub enum BackupVerification {
    Skipped,
    Verified,
    /// Referenced files that could not be captured.
    Incomplete(Vec<String>),
    Failed(String),
}

/// What a backup that was committed came to.
#[derive(Debug)]
pub struct BackupReceipt {
    pub history: Vec<CommitSummary>,
    pub retention: Option<RetentionReport>,
    pub retention_warning: Option<String>,
    pub verification: BackupVerification,
}

/// A backup that waits for a person to choose between two sides.
#[derive(Clone, Debug)]
pub struct ConflictBackup {
    pub conflicts: Vec<ConflictedField>,
    pub request: BackupRequest,
    pub prepared: PreparedBackup,
}

impl ConflictBackup {
    pub fn conflicts(&self) -> (r: &Vec<ConflictedField>)
        ensures
            *r == self.conflicts,
    {
        &self.conflicts
    }
}

/// How a backup ended.
#[derive(Debug)]
pub enum BackupResult {
    Committed(BackupReceipt),
    NeedsResolution(ConflictBackup),
    /// The merged project has so many integrity problems.
    NeedsReview(usize),
}

/// What a backup is asked to do.
#[derive(Clone, Debug)]
pub struct BackupRequest {
    pub provider_id: String,
    pub provider_name: String,
    /// Who the person at this computer says they are.
    pub display_name: String,
    pub retention_rule: Option<RetentionRule>,
    pub verify_uploads: bool,
    /// Where paths that were recorded elsewhere lie on this computer.
    pub path_aliases: Vec<PathAliasState>,
}

/// What pushing a snapshot came to.
#[derive(Debug)]
pub enum PushOutcome {
    Committed { commit: CommitId, unavailable_assets: Vec<String> },
    NeedsResolution(Vec<ConflictedField>),
    NeedsReview(usize),
}

/// What to do next in a backup.
#[derive(Debug)]
pub enum BackupStage {
    OpenProvider,
    /// Read the history there was, to fall back to.
    ReadHistory,
    /// Record the project's place in its sidecar.
    SaveLocation,
    /// Register the project's profile with the provider.
    Register,
    Push,
    /// Read the stored copy back and check it.
    Verify,
    /// Read what must not be pruned.
    ReadPending,
    /// Prune by a rule, but for what is protected.
    Prune { rule: RetentionRule, protected: RetentionRoots },
    /// Read the history there is now.
    RereadHistory,
    /// Record the version as verified in the sidecar.
    RecordVerified,
}

/// A backup under way.
#[derive(Debug)]
pub struct BackupRun {
    pub request: BackupRequest,
    pub prepared: PreparedBackup,
    /// A side for each conflict of an earlier attempt.
    pub resolutions: Option<Vec<ConflictResolution>>,
    pub capabilities: Capabilities,
    pub previous_history: Vec<CommitSummary>,
    pub history: Vec<CommitSummary>,
    /// The version that was pushed.
    pub commit: Option<CommitId>,
    pub verification: BackupVerification,
    pub retention: Option<RetentionReport>,
    pub retention_warning: Option<String>,
    pub stage: BackupStage,
}

/// Where a backup stands after a step.
#[derive(Debug)]
pub enum BackupStep {
    Next(BackupRun),
    Done(BackupResult),
    Failed(String),
}

/// What every version says of itself.
pub const BACKUP_MESSAGE: &'static str = "Backed up changes";

/// What a provider is told of a project.
#[derive(Debug)]
pub struct ProjectProfile {
    pub display_name: String,
    pub format: ProjectFormat,
    pub metadata: ProjectMetadata,
    pub location: Option<ProjectLocation>,
}

/// The history after a backup, where the newest state cannot be read: what was
/// known before, unless nothing says that the backup is there at all.
pub fn load_history_after_backup(
    loaded: Result<Vec<CommitSummary>, String>,
    previous_history: Vec<CommitSummary>,
    verification: &mut BackupVerification,
) -> (r: Result<Vec<CommitSummary>, String>)
    ensures
        match (loaded, *old(verification)) {
            (Ok(history), _) => r == Ok::<Vec<CommitSummary>, String>(history)
                && *final(verification) == *old(verification),
            (Err(error), BackupVerification::Failed(detail)) => {
                &&& r == Ok::<Vec<CommitSummary>, String>(previous_history)
                &&& (*final(verification)) is Failed
                &&& (*final(verification))->Failed_0@ == detail@ + "; re-read backup history: "@
                    + error@
            },
            (Err(error), BackupVerification::Incomplete(_)) => r == Ok::<
                Vec<CommitSummary>,
                String,
            >(previous_history) && *final(verification) == *old(verification),
            (Err(error), BackupVerification::Verified) => {
                &&& r == Ok::<Vec<CommitSummary>, String>(previous_history)
                &&& (*final(verification)) is Failed
                &&& (*final(verification))->Failed_0@ == "re-read backup history: "@ + error@
            },
            (Err(error), BackupVerification::Skipped) => r == Err::<Vec<CommitSummary>, String>(
                error,
            ) && *final(verification) == *old(verification),
        },
{
    let error = match loaded {
        Ok(history) => {
            return Ok(history);
        },
        Err(error) => error,
    };
    match &*verification {
        BackupVerification::Failed(detail) => {
            let mut message = detail.clone();
            message.append("; re-read backup history: ");
            message.append(error.as_str());
            *verification = BackupVerification::Failed(message);
            Ok(previous_history)
        },
        BackupVerification::Incomplete(_) => Ok(previous_history),
        BackupVerification::Verified => {
            let mut message = "re-read backup history: ".to_owned();
            message.append(error.as_str());
            *verification = BackupVerification::Failed(message);
            Ok(previous_history)
        },
        BackupVerification::Skipped => Err(error),
    }
}

fn explained(what: &str, error: &str) -> (r: String)
    ensures
        r@ == what@ + error@,
{
    let mut message = what.to_owned();
    message.append(error);
    message
}

/// Why old versions are kept although a rule asks for pruning.
pub open spec fn kept_text() -> Seq<char> {
    "old versions were kept because this backup was not completely verified"@
}

/// Whether a step is a failure that says so.
pub open spec fn fails_with(step: BackupStep, message: Seq<char>) -> bool {
    step matches BackupStep::Failed(said) && said@ == message
}

impl BackupRun {
    /// What holds at every step: nothing is pruned, and nothing is recorded as
    /// verified, unless the copy was verified; and what is checked or recorded
    /// is the version that was pushed.
    pub open spec fn wf(self) -> bool {
        &&& (self.stage is ReadPending || self.stage is Prune) ==> self.may_prune()
        &&& self.stage is Prune ==> self.request.retention_rule == Some(self.stage->rule)
        &&& self.stage is RecordVerified ==> self.verification is Verified
        &&& (self.stage is Verify || self.stage is ReadPending || self.stage is Prune
            || self.stage is RereadHistory || self.stage is RecordVerified) ==> self.commit is Some
        &&& !(self.stage is RereadHistory || self.stage is RecordVerified)
            ==> self.retention_warning is None && self.retention is None
    }

    /// The step once the history there was is known.
    pub open spec fn after_history(self) -> BackupStage {
        if self.prepared.location is Some {
            BackupStage::SaveLocation
        } else {
            self.after_location()
        }
    }

    /// The step once the place in the library is recorded.
    pub open spec fn after_location(self) -> BackupStage {
        if self.capabilities.project_listing {
            BackupStage::Register
        } else {
            BackupStage::Push
        }
    }

    /// Whether old versions may be pruned: a rule asks for it, the copy was
    /// verified and the provider can.
    pub open spec fn may_prune(self) -> bool {
        self.request.retention_rule is Some && self.verification is Verified
            && self.capabilities.history_retention
    }

    /// Whether `step` is where a run goes once the copy's state is known: on to
    /// pruning, or past it, with the reason why a rule is not followed.
    pub open spec fn goes_on_verified(self, step: BackupStep) -> bool {
        &&& step matches BackupStep::Next(after)
        &&& after == (BackupRun {
            stage: if self.may_prune() {
                BackupStage::ReadPending
            } else {
                BackupStage::RereadHistory
            },
            retention_warning: after.retention_warning,
            ..self
        })
        &&& optional_view(after.retention_warning) == (if self.request.retention_rule is None
            || self.may_prune() {
            None
        } else if !(self.verification is Verified) {
            Some(kept_text())
        } else {
            Some(self.request.provider_name@ + " does not support version retention"@)
        })
    }

    /// Whether a step may follow: what is asked for stays; the project is first
    /// placed, then registered, then pushed; the copy is verified by reading it
    /// back, and only then is anything pruned or the version recorded; and only
    /// what was recorded is reported as verified.
    pub open spec fn goes_to(self, step: BackupStep) -> bool {
        match step {
            BackupStep::Next(after) => {
                &&& after.wf()
                &&& after.request == self.request
                &&& after.prepared == self.prepared
                &&& after.resolutions == self.resolutions
                &&& after.commit == self.commit || self.stage is Push
                &&& after.verification is Verified && !(self.verification is Verified)
                    ==> self.stage is Verify
                &&& self.verification is Verified && !(self.stage is Push || self.stage is Verify)
                    ==> after.verification is Verified
                &&& self.stage is Push || self.stage is Verify ==> after.commit is Some
                &&& after.stage is Push ==> {
                    &&& after.capabilities.project_listing ==> self.stage is Register
                    &&& !after.capabilities.project_listing && self.prepared.location is Some
                        ==> self.stage is SaveLocation || self.stage is Register
                }
                &&& after.stage is Register && self.prepared.location is Some ==> self.stage
                    is SaveLocation
                &&& after.stage is Verify ==> self.stage is Push && self.request.verify_uploads
                &&& after.stage is ReadPending ==> after.verification is Verified
                    && self.request.retention_rule is Some
                &&& after.stage is Prune ==> self.stage is ReadPending
                &&& after.stage is RecordVerified ==> self.stage is RereadHistory
                    && self.verification is Verified
                &&& after.retention is Some && self.retention is None ==> self.stage is Prune
            },
            BackupStep::Done(BackupResult::Committed(receipt)) => {
                &&& self.commit is Some
                &&& receipt.verification is Verified ==> self.stage is RecordVerified
                &&& receipt.retention == self.retention
                &&& receipt.retention_warning == self.retention_warning
            },
            BackupStep::Done(BackupResult::NeedsResolution(conflict)) => {
                &&& self.stage is Push
                &&& conflict.request == self.request
                &&& conflict.prepared == self.prepared
            },
            BackupStep::Done(BackupResult::NeedsReview(_)) => self.stage is Push,
            BackupStep::Failed(_) => true,
        }
    }

    /// Begin a backup.
    pub fn start(
        request: BackupRequest,
        prepared: PreparedBackup,
        resolutions: Option<Vec<ConflictResolution>>,
    ) -> (r: Self)
        ensures
            r.wf(),
            r.request == request,
            r.prepared == prepared,
            r.resolutions == resolutions,
            r.stage is OpenProvider,
            r.previous_history@.len() == 0,
            r.history@.len() == 0,
            r.commit is None,
            r.verification is Skipped,
            r.retention is None,
            r.retention_warning is None,
    {
        BackupRun {
            request,
            prepared,
            resolutions,
            capabilities: Capabilities::default(),
            previous_history: Vec::new(),
            history: Vec::new(),
            commit: None,
            verification: BackupVerification::Skipped,
            retention: None,
            retention_warning: None,
            stage: BackupStage::OpenProvider,
        }
    }

    /// What the provider is told of the project.
    pub fn profile(&self, on: Platform) -> (r: ProjectProfile)
        ensures
            r.display_name@ == project_name_text(on, self.prepared.project_path@),
            r.format == self.prepared.format,
            r.metadata@ == self.prepared.metadata@,
            r.location == self.prepared.location,
    {
        ProjectProfile {
            display_name: project_display_name(on, self.prepared.project_path.as_str()),
            format: self.prepared.format,
            metadata: self.prepared.metadata.clone(),
            location: copy_location(&self.prepared.location),
        }
    }

    fn on_to_location(self) -> (r: Self)
        ensures
            r == (BackupRun { stage: self.after_history(), ..self }),
    {
        let stage = if self.prepared.location.is_some() {
            BackupStage::SaveLocation
        } else if self.capabilities.project_listing {
            BackupStage::Register
        } else {
            BackupStage::Push
        };
        BackupRun { stage, ..self }
    }

    /// Go on once the provider is open, or is not.
    pub fn opened(self, provider: Result<Capabilities, String>) -> (r: BackupStep)
        requires
            self.wf(),
            self.stage is OpenProvider,
        ensures
            self.goes_to(r),
            r matches BackupStep::Next(run) ==> run.wf(),
            match provider {
                Err(error) => r == BackupStep::Failed(error),
                Ok(capabilities) => r == BackupStep::Next(
                    BackupRun {
                        capabilities,
                        stage: if self.request.verify_uploads {
                            BackupStage::ReadHistory
                        } else {
                            (BackupRun { capabilities, ..self }).after_history()
                        },
                        ..self
                    },
                ),
            },
    {
        match provider {
            Err(error) => BackupStep::Failed(error),
            Ok(capabilities) => {
                let run = BackupRun { capabilities, ..self };
                if run.request.verify_uploads {
                    BackupStep::Next(BackupRun { stage: BackupStage::ReadHistory, ..run })
                } else {
                    BackupStep::Next(run.on_to_location())
                }
            },
        }
    }

    /// Go on once the history there was has been asked for; not to know it is
    /// no failure.
    pub fn history_read(self, history: Result<Vec<CommitSummary>, String>) -> (r: BackupStep)
        requires
            self.wf(),
            self.stage is ReadHistory,
        ensures
            self.goes_to(r),
            r matches BackupStep::Next(run) && run.wf() && run == (BackupRun {
                previous_history: run.previous_history,
                stage: self.after_history(),
                ..self
            }) && (match history {
                Ok(history) => run.previous_history == history,
                Err(_) => run.previous_history@.len() == 0,
            }),
    {
        let previous_history = match history {
            Ok(history) => history,
            Err(_) => Vec::new(),
        };
        let run = BackupRun { previous_history, ..self };
        BackupStep::Next(run.on_to_location())
    }

    /// Go on once the place in the library is recorded, or is not.
    pub fn location_saved(self, saved: Result<(), String>) -> (r: BackupStep)
        requires
            self.wf(),
            self.stage is SaveLocation,
        ensures
            self.goes_to(r),
            r matches BackupStep::Next(run) ==> run.wf(),
            match saved {
                Ok(_) => r == BackupStep::Next(BackupRun { stage: self.after_location(), ..self }),
                Err(error) => fails_with(r, "save project library location: "@ + error@),
            },
    {
        match saved {
            Err(error) => BackupStep::Failed(
                explained("save project library location: ", error.as_str()),
            ),
            Ok(()) => {
                let stage = if self.capabilities.project_listing {
                    BackupStage::Register
                } else {
                    BackupStage::Push
                };
                BackupStep::Next(BackupRun { stage, ..self })
            },
        }
    }

    /// Go on once the project's profile is registered, or is not.
    pub fn registered(self, registered: Result<(), String>) -> (r: BackupStep)
        requires
            self.wf(),
            self.stage is Register,
        ensures
            self.goes_to(r),
            r matches BackupStep::Next(run) ==> run.wf(),
            match registered {
                Ok(_) => r == BackupStep::Next(BackupRun { stage: BackupStage::Push, ..self }),
                Err(error) => fails_with(r, "register project with provider: "@ + error@),
            },
    {
        match registered {
            Err(error) => BackupStep::Failed(
                explained("register project with provider: ", error.as_str()),
            ),
            Ok(()) => BackupStep::Next(BackupRun { stage: BackupStage::Push, ..self }),
        }
    }

    fn on_to_retention(self) -> (r: BackupStep)
        requires
            self.commit is Some,
            self.retention_warning is None,
            self.retention is None,
        ensures
            self.goes_on_verified(r),
            r matches BackupStep::Next(run) ==> run.wf(),
    {
        if self.request.retention_rule.is_none() {
            return BackupStep::Next(BackupRun { stage: BackupStage::RereadHistory, ..self });
        }
        let verified = matches!(self.verification, BackupVerification::Verified);
        if !verified {
            let warning =
                "old versions were kept because this backup was not completely verified".to_owned();
            return BackupStep::Next(
                BackupRun {
                    stage: BackupStage::RereadHistory,
                    retention_warning: Some(warning),
                    ..self
                },
            );
        }
        if !self.capabilities.history_retention {
            let mut warning = self.request.provider_name.clone();
            warning.append(" does not support version retention");
            return BackupStep::Next(
                BackupRun {
                    stage: BackupStage::RereadHistory,
                    retention_warning: Some(warning),
                    ..self
                },
            );
        }
        BackupStep::Next(BackupRun { stage: BackupStage::ReadPending, ..self })
    }

    /// Whether `step` is what follows once the snapshot was pushed.
    pub open spec fn is_pushed(
        self,
        outcome: Result<PushOutcome, String>,
        step: BackupStep,
    ) -> bool {
        match outcome {
            Err(error) => step == BackupStep::Failed(error),
            Ok(PushOutcome::NeedsResolution(conflicts)) => step == BackupStep::Done(
                BackupResult::NeedsResolution(
                    ConflictBackup {
                        conflicts,
                        request: self.request,
                        prepared: self.prepared,
                    },
                ),
            ),
            Ok(PushOutcome::NeedsReview(problems)) => step == BackupStep::Done(
                BackupResult::NeedsReview(problems),
            ),
            Ok(PushOutcome::Committed { commit, unavailable_assets }) => if unavailable_assets@.len()
                > 0 {
                (BackupRun {
                    commit: Some(commit),
                    verification: BackupVerification::Incomplete(unavailable_assets),
                    ..self
                }).goes_on_verified(step)
            } else if self.request.verify_uploads {
                step == BackupStep::Next(
                    BackupRun { commit: Some(commit), stage: BackupStage::Verify, ..self },
                )
            } else {
                (BackupRun {
                    commit: Some(commit),
                    verification: BackupVerification::Skipped,
                    ..self
                }).goes_on_verified(step)
            },
        }
    }

    /// Go on once the snapshot was pushed. A copy that misses files is not
    /// worth checking; one that is not to be checked stays unchecked.
    pub fn pushed(self, outcome: Result<PushOutcome, String>) -> (r: BackupStep)
        requires
            self.wf(),
            self.stage is Push,
        ensures
            self.goes_to(r),
            r matches BackupStep::Next(run) ==> run.wf(),
            self.is_pushed(outcome, r),
    {
        match outcome {
            Err(error) => BackupStep::Failed(error),
            Ok(PushOutcome::NeedsResolution(conflicts)) => BackupStep::Done(
                BackupResult::NeedsResolution(
                    ConflictBackup { conflicts, request: self.request, prepared: self.prepared },
                ),
            ),
            Ok(PushOutcome::NeedsReview(problems)) => BackupStep::Done(
                BackupResult::NeedsReview(problems),
            ),
            Ok(PushOutcome::Committed { commit, unavailable_assets }) => {
                if unavailable_assets.len() > 0 {
                    let run = BackupRun {
                        commit: Some(commit),
                        verification: BackupVerification::Incomplete(unavailable_assets),
                        ..self
                    };
                    run.on_to_retention()
                } else if self.request.verify_uploads {
                    BackupStep::Next(
                        BackupRun { commit: Some(commit), stage: BackupStage::Verify, ..self },
                    )
                } else {
                    let run = BackupRun {
                        commit: Some(commit),
                        verification: BackupVerification::Skipped,
                        ..self
                    };
                    run.on_to_retention()
                }
            },
        }
    }

    /// Go on once the stored copy was read back and checked.
    pub fn verified(self, verified: Result<(), String>) -> (r: BackupStep)
        requires
            self.wf(),
            self.stage is Verify,
        ensures
            self.goes_to(r),
            r matches BackupStep::Next(run) ==> run.wf(),
            r matches BackupStep::Next(run) && (run.verification is Verified <==> verified is Ok),
            match verified {
                Ok(_) => (BackupRun {
                    verification: BackupVerification::Verified,
                    ..self
                }).goes_on_verified(r),
                Err(error) => (BackupRun {
                    verification: BackupVerification::Failed(error),
                    ..self
                }).goes_on_verified(r),
            },
    {
        let verification = match verified {
            Ok(()) => BackupVerification::Verified,
            Err(error) => BackupVerification::Failed(error),
        };
        let run = BackupRun { verification, ..self };
        run.on_to_retention()
    }

    /// Go on once the versions still to be pushed and the stashed work are
    /// known, which must not be pruned, or cannot be known.
    pub fn pending_read(self, pending: Result<(Vec<CommitId>, Option<Stash>), String>) -> (r:
        BackupStep)
        requires
            self.wf(),
            self.stage is ReadPending,
        ensures
            self.goes_to(r),
            r matches BackupStep::Next(run) && run.wf() && (match pending {
                Ok((commits, stash)) => {
                    &&& run == (BackupRun { stage: run.stage, ..self })
                    &&& run.stage is Prune
                    &&& Some(run.stage->rule) == self.request.retention_rule
                    &&& run.stage->protected.commits == commits
                    &&& run.stage->protected.blobs@ == stash_blobs(stash)
                },
                Err(error) => {
                    &&& run == (BackupRun {
                        stage: BackupStage::RereadHistory,
                        retention_warning: run.retention_warning,
                        ..self
                    })
                    &&& optional_view(run.retention_warning) == Some(
                        self.request.provider_name@
                            + " could not read pending sync work before pruning: "@ + error@,
                    )
                },
            }),
    {
        match (pending, self.request.retention_rule) {
            (Ok((commits, stash)), Some(rule)) => {
                let protected = retention_roots(commits, stash);
                BackupStep::Next(
                    BackupRun { stage: BackupStage::Prune { rule, protected }, ..self },
                )
            },
            (Err(error), _) => {
                let mut warning = self.request.provider_name.clone();
                warning.append(" could not read pending sync work before pruning: ");
                warning.append(error.as_str());
                BackupStep::Next(
                    BackupRun {
                        stage: BackupStage::RereadHistory,
                        retention_warning: Some(warning),
                        ..self
                    },
                )
            },
            (Ok(_), None) => BackupStep::Next(BackupRun { stage: BackupStage::RereadHistory, ..self }),
        }
    }

    /// Go on once old versions were pruned, or were not.
    pub fn pruned(self, pruned: Result<RetentionReport, String>) -> (r: BackupStep)
        requires
            self.wf(),
            self.stage is Prune,
        ensures
            self.goes_to(r),
            r matches BackupStep::Next(run) && run.wf() && (match pruned {
                Ok(report) => run == (BackupRun {
                    stage: BackupStage::RereadHistory,
                    retention: Some(report),
                    ..self
                }),
                Err(error) => {
                    &&& run == (BackupRun {
                        stage: BackupStage::RereadHistory,
                        retention_warning: run.retention_warning,
                        ..self
                    })
                    &&& optional_view(run.retention_warning) == Some(
                        self.request.provider_name@ + " could not prune old versions: "@ + error@,
                    )
                },
            }),
    {
        match pruned {
            Ok(report) => BackupStep::Next(
                BackupRun {
                    stage: BackupStage::RereadHistory,
                    retention: Some(report),
                    ..self
                },
            ),
            Err(error) => {
                let mut warning = self.request.provider_name.clone();
                warning.append(" could not prune old versions: ");
                warning.append(error.as_str());
                BackupStep::Next(
                    BackupRun {
                        stage: BackupStage::RereadHistory,
                        retention_warning: Some(warning),
                        ..self
                    },
                )
            },
        }
    }

    /// The verification of a run whose history was read again.
    pub open spec fn verification_after(
        self,
        loaded: Result<Vec<CommitSummary>, String>,
        after: BackupVerification,
    ) -> bool {
        match (loaded, self.verification) {
            (Err(error), BackupVerification::Failed(detail)) => after is Failed && after->Failed_0@
                == detail@ + "; re-read backup history: "@ + error@,
            (Err(error), BackupVerification::Verified) => after is Failed && after->Failed_0@
                == "re-read backup history: "@ + error@,
            _ => after == self.verification,
        }
    }

    /// Go on once the history was read again, or could not be: the end, unless
    /// the version is to be recorded as verified.
    pub fn history_reread(self, loaded: Result<Vec<CommitSummary>, String>) -> (r: BackupStep)
        requires
            self.wf(),
            self.stage is RereadHistory,
        ensures
            self.goes_to(r),
            r matches BackupStep::Next(run) ==> run.wf(),
            ({
                let history = if loaded is Ok {
                    loaded->Ok_0
                } else {
                    self.previous_history
                };
                if loaded is Err && self.verification is Skipped {
                    r == BackupStep::Failed(loaded->Err_0)
                } else if loaded is Ok && self.verification is Verified {
                    r matches BackupStep::Next(run) && run == (BackupRun {
                        history,
                        previous_history: run.previous_history,
                        stage: BackupStage::RecordVerified,
                        ..self
                    })
                } else {
                    r matches BackupStep::Done(BackupResult::Committed(receipt)) && receipt.history
                        == history && receipt.retention == self.retention
                        && receipt.retention_warning == self.retention_warning
                        && self.verification_after(loaded, receipt.verification)
                }
            }),
    {
        let mut run = self;
        let mut previous_history: Vec<CommitSummary> = Vec::new();
        std::mem::swap(&mut previous_history, &mut run.previous_history);
        match load_history_after_backup(loaded, previous_history, &mut run.verification) {
            Err(error) => BackupStep::Failed(error),
            Ok(history) => {
                run.history = history;
                let verified = matches!(run.verification, BackupVerification::Verified);
                if verified {
                    BackupStep::Next(BackupRun { stage: BackupStage::RecordVerified, ..run })
                } else {
                    run.finish()
                }
            },
        }
    }

    fn finish(self) -> (r: BackupStep)
        ensures
            self.is_done(r),
    {
        BackupStep::Done(
            BackupResult::Committed(
                BackupReceipt {
                    history: self.history,
                    retention: self.retention,
                    retention_warning: self.retention_warning,
                    verification: self.verification,
                },
            ),
        )
    }

    /// Whether a step is the end, with a receipt of what the run has found.
    pub open spec fn is_done(self, step: BackupStep) -> bool {
        step == BackupStep::Done(
            BackupResult::Committed(
                BackupReceipt {
                    history: self.history,
                    retention: self.retention,
                    retention_warning: self.retention_warning,
                    verification: self.verification,
                },
            ),
        )
    }

    /// Go on once the version is recorded as verified, or could not be.
    pub fn recorded(self, recorded: Result<(), String>) -> (r: BackupStep)
        requires
            self.wf(),
            self.stage is RecordVerified,
        ensures
            self.goes_to(r),
            match recorded {
                Ok(_) => self.is_done(r),
                Err(error) => fails_with(r, "record verified backup: "@ + error@),
            },
    {
        match recorded {
            Ok(()) => self.finish(),
            Err(error) => BackupStep::Failed(explained("record verified backup: ", error.as_str())),
        }
    }
}

/// A conflicting field with the side that a person chose.
#[derive(Debug)]
pub struct ConflictResolution {
    pub conflict: ConflictedField,
    pub choice: ConflictChoice,
}

/// Whether each conflict stands with its choice, in order.
pub open spec fn are_resolutions(
    resolutions: Seq<ConflictResolution>,
    conflicts: Seq<ConflictedField>,
    choices: Seq<ConflictChoice>,
) -> bool {
    &&& resolutions.len() == conflicts.len()
    &&& forall|i: int|
        0 <= i < conflicts.len() ==> #[trigger] resolutions[i] == (ConflictResolution {
            conflict: conflicts[i],
            choice: choices[i],
        })
}

/// Back up again with a side chosen for each conflict: the same revision, with
/// the same request. With too few choices or too many, nothing is begun.
pub fn resolve_backup(conflict: ConflictBackup, choices: &Vec<ConflictChoice>) -> (r: Result<
    BackupRun,
    String,
>)
    ensures
        r is Ok <==> choices@.len() == conflict.conflicts@.len(),
        r is Ok ==> {
            &&& r->Ok_0.wf()
            &&& r->Ok_0.stage is OpenProvider
            &&& r->Ok_0.request == conflict.request
            &&& r->Ok_0.prepared == conflict.prepared
            &&& r->Ok_0.resolutions is Some
            &&& are_resolutions(r->Ok_0.resolutions->0@, conflict.conflicts@, choices@)
            &&& r->Ok_0.commit is None
            &&& r->Ok_0.verification is Skipped
            &&& r->Ok_0.history@.len() == 0
            &&& r->Ok_0.previous_history@.len() == 0
        },
        r is Err ==> r->Err_0@ == "expected "@ + decimal(conflict.conflicts@.len())
            + " conflict choice(s), received "@ + decimal(choices@.len()),
{
    if choices.len() != conflict.conflicts.len() {
        let mut message = "expected ".to_owned();
        message.append(count_text(conflict.conflicts.len()).as_str());
        message.append(" conflict choice(s), received ");
        message.append(count_text(choices.len()).as_str());
        return Err(message);
    }
    let ghost all = conflict.conflicts@;
    let mut rest = conflict.conflicts;
    let mut resolutions: Vec<ConflictResolution> = Vec::new();
    while rest.len() > 0
        invariant
            all.len() == choices@.len(),
            resolutions@.len() + rest@.len() == all.len(),
            rest@ == all.skip(resolutions@.len() as int),
            forall|i: int|
                0 <= i < resolutions@.len() ==> #[trigger] resolutions@[i] == (ConflictResolution {
                    conflict: all[i],
                    choice: choices@[i],
                }),
        decreases rest@.len(),
    {
        let choice = choices[resolutions.len()];
        let conflict = rest.remove(0);
        resolutions.push(ConflictResolution { conflict, choice });
    }
    Ok(BackupRun::start(conflict.request, conflict.prepared, Some(resolutions)))
}

/// A copy that is not verified never leads to pruning, whatever the rule and
/// the provider: the reason why is given instead.
pub proof fn only_verified_copies_prune(run: BackupRun, step: BackupStep)
    requires
        run.goes_on_verified(step),
        !(run.verification is Verified),
    ensures
        step matches BackupStep::Next(after) && after.stage is RereadHistory
            && optional_view(after.retention_warning) == (if run.request.retention_rule is Some {
            Some(kept_text())
        } else {
            None
        }),
{
}

// ---------------------------------------------------------------------------
// Labels
// ---------------------------------------------------------------------------

/// A step of saving a project's labels.
#[derive(Debug)]
pub enum MetadataStep {
    /// Put the labels and the location into the sidecar; the rest of it stays.
    WriteSidecar { metadata: ProjectMetadata, location: Option<ProjectLocation> },
    /// Give the sidecar its modification time back: labels are no backup, and
    /// must not look like one.
    RestoreMarker(Moment),
    /// Open the project with the provider.
    OpenProvider,
    /// Tell the provider of the project anew.
    UpdateProvider(ProjectProfile),
}

/// A step of saving a project's labels, by its texts.
pub enum MetadataStepView {
    WriteSidecar(MetadataView, Option<Seq<char>>),
    RestoreMarker(Moment),
    OpenProvider,
    UpdateProvider(Seq<char>, ProjectFormat, MetadataView, Option<Seq<char>>),
}

impl View for MetadataStep {
    type V = MetadataStepView;

    open spec fn view(&self) -> MetadataStepView {
        match *self {
            MetadataStep::WriteSidecar { metadata, location } => MetadataStepView::WriteSidecar(
                metadata@,
                location_view(location),
            ),
            MetadataStep::RestoreMarker(marker) => MetadataStepView::RestoreMarker(marker),
            MetadataStep::OpenProvider => MetadataStepView::OpenProvider,
            MetadataStep::UpdateProvider(profile) => MetadataStepView::UpdateProvider(
                profile.display_name@,
                profile.format,
                profile.metadata@,
                location_view(profile.location),
            ),
        }
    }
}

/// The views of some steps.
pub open spec fn step_views(steps: Seq<MetadataStep>) -> Seq<MetadataStepView> {
    steps.map_values(|step: MetadataStep| step@)
}

/// What is to be done, in this order, to save labels: the records beside the
/// project are written, and keep their time, and then the provider is told.
pub open spec fn label_steps(
    on_disk: bool,
    marker: Option<Moment>,
    enrolled: bool,
    profile: ProjectProfile,
) -> Seq<MetadataStepView> {
    (if on_disk {
        seq![
            MetadataStepView::WriteSidecar(
                profile.metadata@,
                location_view(profile.location),
            ),
        ] + (match marker {
            Some(marker) => seq![MetadataStepView::RestoreMarker(marker)],
            None => Seq::empty(),
        })
    } else {
        Seq::empty()
    }) + (if enrolled {
        seq![
            MetadataStepView::OpenProvider,
            MetadataStepView::UpdateProvider(
                profile.display_name@,
                profile.format,
                profile.metadata@,
                location_view(profile.location),
            ),
        ]
    } else {
        Seq::empty()
    })
}

/// The steps of saving a project's labels, in order: the sidecar of a project
/// that is on this computer, with its modification time kept where it had one,
/// and the profile of one that a provider knows.
pub fn save_project_metadata(
    on_disk: bool,
    marker: Option<Moment>,
    enrolled: bool,
    profile: ProjectProfile,
) -> (r: Vec<MetadataStep>)
    ensures
        step_views(r@) == label_steps(on_disk, marker, enrolled, profile),
{
    let mut steps: Vec<MetadataStep> = Vec::new();
    if on_disk {
        steps.push(
            MetadataStep::WriteSidecar {
                metadata: profile.metadata.clone(),
                location: copy_location(&profile.location),
            },
        );
        if let Some(marker) = marker {
            steps.push(MetadataStep::RestoreMarker(marker));
        }
    }
    if enrolled {
        steps.push(MetadataStep::OpenProvider);
        steps.push(MetadataStep::UpdateProvider(profile));
    }
    steps
}

impl MetadataStep {
    /// What is said where a step fails.
    pub fn failed(&self, provider_name: &str, error: &str) -> (r: String)
        ensures
            r@ == (match *self {
                MetadataStep::WriteSidecar { .. } => "save local project metadata: "@,
                MetadataStep::RestoreMarker(_) => "restore project backup marker: "@,
                MetadataStep::OpenProvider => "open project metadata on "@ + provider_name@
                    + ": "@,
                MetadataStep::UpdateProvider(_) => "update project metadata on "@ + provider_name@
                    + ": "@,
            }) + error@,
    {
        let mut message = match self {
            MetadataStep::WriteSidecar { .. } => "save local project metadata: ".to_owned(),
            MetadataStep::RestoreMarker(_) => "restore project backup marker: ".to_owned(),
            MetadataStep::OpenProvider => joined3("open project metadata on ", provider_name, ": "),
            MetadataStep::UpdateProvider(_) => {
                joined3("update project metadata on ", provider_name, ": ")
            },
        };
        message.append(error);
        message
    }
}

} // verus!
