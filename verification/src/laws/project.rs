//! Reading a project: what its files say of it, and what it is called.
use vstd::prelude::*;

use crate::format::{ImportKind, ProjectFormat, Sidecar};
use crate::laws::status::{saved_since, was_backed_up};
use crate::moment::Moment;
use crate::path::{file_stem_of, name_of, Platform};
use crate::project::{imports, remote_view, DiskProject, ImportTarget, LocalFiles, Project,
    SnapshotRead};
use crate::status::{ProjectStatus, SyncDirection};

verus! {

/// A project that is read from disk is what its files say: never backed up, changed
/// since, or safe. It is opened where it was found, has no history yet, and nothing
/// of it is being transferred.
pub proof fn a_project_is_what_its_files_say(
    on: Platform,
    project: Project,
    found: DiskProject,
    now: Moment,
)
    requires
        project.is_read_from(on, found, now),
    ensures
        project.status is NeverBackedUp <==> !was_backed_up(found.files),
        project.status is Downloaded <==> was_backed_up(found.files) && !saved_since(found.files),
        project.status == ProjectStatus::OutOfSync(SyncDirection::LocalAhead) <==> was_backed_up(
            found.files,
        ) && saved_since(found.files),
        project.live_set is Some && project.live_set->0@ == found.project_file@,
        project.local_path@ == found.directory@,
        project.format == found.format,
        project.modified_at == found.files.modified_at,
        was_backed_up(found.files) ==> project.backed_up_at == found.files.sidecar_modified_at
            && project.safe_version@ == "backed up"@,
        !was_backed_up(found.files) ==> project.backed_up_at is None && project.safe_version@
            == "not backed up yet"@,
        file_stem_of(on, found.project_file@) matches Some(stem) ==> project.name@ == stem,
        name_of(on, found.project_file@) matches Some(name) ==> project.file_name@ == name,
        project.versions@.len() == 0,
        project.sync_progress == 0,
{
}

/// Two files are two projects.
pub proof fn two_files_are_two_projects(
    on: Platform,
    a: Project,
    b: Project,
    found: DiskProject,
    other: DiskProject,
    now: Moment,
)
    requires
        a.is_read_from(on, found, now),
        b.is_read_from(on, other, now),
    ensures
        a.id@ == b.id@ <==> found.project_file@ == other.project_file@,
{
    let x = "project:"@ + found.project_file@;
    let y = "project:"@ + other.project_file@;
    if x == y {
        assert(x.skip("project:"@.len() as int) =~= found.project_file@);
        assert(y.skip("project:"@.len() as int) =~= other.project_file@);
    }
}

/// A project that is added by hand is work that is not safe yet: it waits to be
/// backed up, whatever its files say, and was never backed up from here.
pub proof fn an_added_project_waits_for_its_backup(
    on: Platform,
    project: Project,
    target: ImportTarget,
    format: ProjectFormat,
    snapshot: SnapshotRead,
    files: LocalFiles,
)
    requires
        imports(on, project, target, format, snapshot, files),
    ensures
        project.status == ProjectStatus::OutOfSync(SyncDirection::LocalAhead),
        project.backed_up_at is None,
        project.live_set is Some && project.live_set->0@ == target.project_file@,
        project.local_path@ == target.root@,
        project.format == format,
        project.modified_at == files.modified_at,
        project.versions@.len() == 0,
        project.id@ == "imported:"@ + target.root@,
        file_stem_of(on, target.project_file@) matches Some(stem) ==> project.name@ == stem,
{
}

/// A project is linked to a provider if its records name one, know it by a handle
/// there and have a version; the link then names these three.
pub proof fn links_come_from_the_records(sidecar: Sidecar)
    ensures
        remote_view(None) is None,
        remote_view(Some(sidecar)) is Some <==> sidecar.primary is Some && sidecar.local_head is Some
            && sidecar.provider_handles@.dom().contains(sidecar.primary->0@),
        remote_view(Some(sidecar)) matches Some(link) ==> link.0 == sidecar.primary->0@ && link.1
            == sidecar.provider_handles@[sidecar.primary->0@]@ && link.2
            == sidecar.local_head->0.text@,
{
}

/// A project that is safe is told apart from every one that is not: only of the
/// former is it said that it is backed up and verified.
pub proof fn only_safe_projects_are_called_safe(project: Project)
    ensures
        project.headline_text() == "Backed up and verified. Safe to unplug."@
            <==> project.status is Downloaded,
        project.headline_text() == "This project exists only on this computer."@
            <==> project.status is NeverBackedUp,
        project.headline_text() == "This computer and the provider have different edits."@
            <==> project.status is Conflicted,
        project.headline_text() == "Changes on this computer aren't backed up."@ <==> project.status
            == ProjectStatus::OutOfSync(SyncDirection::LocalAhead),
        project.headline_text() == "A newer version was saved from another computer."@
            <==> project.status == ProjectStatus::OutOfSync(SyncDirection::UpstreamAhead),
{
    reveal_strlit("Backed up and verified. Safe to unplug.");
    reveal_strlit("This project exists only on this computer.");
    reveal_strlit("A safe copy lives with your provider — it isn't on this computer.");
    reveal_strlit("Copying and verifying this project now.");
    reveal_strlit("Changes on this computer aren't backed up.");
    reveal_strlit("A newer version was saved from another computer.");
    reveal_strlit("This computer and the provider have different edits.");
    assert("Backed up and verified. Safe to unplug."@[0] == 'B');
    assert("This project exists only on this computer."@.len() == 42);
    assert("This project exists only on this computer."@[0] == 'T');
    assert("A safe copy lives with your provider — it isn't on this computer."@.len() == 65);
    assert("Copying and verifying this project now."@[1] == 'o');
    assert("Copying and verifying this project now."@[0] == 'C');
    assert("Changes on this computer aren't backed up."@[0] == 'C');
    assert("Changes on this computer aren't backed up."@[1] == 'h');
    assert("A newer version was saved from another computer."@.len() == 48);
    assert("A newer version was saved from another computer."@[0] == 'A');
    assert("A safe copy lives with your provider — it isn't on this computer."@[0] == 'A');
    assert("This computer and the provider have different edits."@.len() == 52);
    assert("This computer and the provider have different edits."@[0] == 'T');
}

/// Where a project lies is told as it is: not here, and where a restore will put it,
/// or else where it is, and its place in the library besides.
pub proof fn paths_are_told_as_they_are(project: Project)
    ensures
        project.status is NotDownloaded && project.location is None ==> project.path_text()
            == "Not on this computer"@,
        project.status is NotDownloaded ==> (project.location matches Some(location)
            ==> project.path_text() == "Restore location · "@ + location.relative_path@),
        !(project.status is NotDownloaded) ==> project.local_path@.is_prefix_of(
            project.path_text(),
        ),
        !(project.status is NotDownloaded) && project.location is None ==> project.path_text()
            == project.local_path@,
{
    if !(project.status is NotDownloaded) {
        assert(project.local_path@ =~= project.path_text().subrange(
            0,
            project.local_path@.len() as int,
        ));
    }
}

/// Each kind of project has its own extension, and is imported as itself.
pub proof fn kinds_have_their_own_extensions(a: ProjectFormat, b: ProjectFormat, kind: ImportKind)
    ensures
        a.extension_text() == b.extension_text() ==> a == b,
        ProjectFormat::AbletonLiveSet.extension_text() == "als"@,
        ProjectFormat::FlStudio.extension_text() == "flp"@,
        ProjectFormat::BitwigProject.extension_text() == "bwproject"@,
        ProjectFormat::Dawproject.extension_text() == "dawproject"@,
        kind is AbletonLiveSet <==> kind.project_format() is AbletonLiveSet,
{
    reveal_strlit("als");
    reveal_strlit("flp");
    reveal_strlit("bwproject");
    reveal_strlit("dawproject");
    reveal_strlit("auru");
    assert("als"@[0] == 'a' && "flp"@[0] == 'f');
    assert("als"@.len() == 3 && "flp"@.len() == 3 && "bwproject"@.len() == 9 && "dawproject"@.len()
        == 10);
}

} // verus!
