//! Restoring a version: what may be overwritten, what counts as complete, and
//! how a restored folder takes its place without losing what was there.
use vstd::prelude::*;

use crate::names::{is_unique_root, unique_duplicate_root};
use crate::notice::{joined2, joined3};
use crate::path::{components, components_of, is_beneath, join_path, joined_path, Platform};
use crate::text::{count_text, decimal, holds_text, join, joined, list_holds, same, views};

verus! {

/// What a restore came to.
#[derive(Debug)]
pub struct RestoreResult {
    pub project_file: String,
    pub files_written: usize,
    /// Referenced files that could not be restored.
    pub unavailable: usize,
    pub verified_files: usize,
    /// A previous destination retained because cleanup could not remove it.
    pub previous_copy: Option<String>,
}

/// What to do where something lies at the destination.
#[derive(Clone, Copy, Debug, PartialEq, Eq, Structural)]
pub enum RestoreCollisionChoice {
    /// Fail if another process creates the destination after preflight.
    AbortIfExists,
    /// Keep the existing project and choose a numbered restore folder.
    Duplicate,
    /// Replace matching restored files while preserving unrelated files.
    Overwrite,
    /// Replace the whole existing restore folder after verification.
    DeleteAndReplace,
}

impl RestoreCollisionChoice {
    /// Whether the choice puts something in the place of what is there.
    pub open spec fn replaces(self) -> bool {
        self is Overwrite || self is DeleteAndReplace
    }
}

/// Whether a recovered copy can be enrolled as synchronized: complete, and
/// checked.
pub open spec fn is_complete(result: RestoreResult) -> bool {
    result.unavailable == 0 && result.verified_files > 0
}

/// Why a recovered copy cannot be enrolled.
pub open spec fn incomplete_text(result: RestoreResult) -> Seq<char> {
    if result.verified_files == 0 {
        "Restored a copy to "@ + result.project_file@
            + ", but no output files could be hash-verified. The copy was not enrolled as synchronized."@
    } else {
        "Restored a partial copy to "@ + result.project_file@ + ", but "@ + decimal(
            result.unavailable as nat,
        )
            + " referenced file(s) could not be restored. The copy was not enrolled as synchronized."@
    }
}

/// Let only a complete, checked recovery pass.
pub fn require_complete_recovery(result: RestoreResult) -> (r: Result<RestoreResult, String>)
    ensures
        is_complete(result) ==> r == Ok::<RestoreResult, String>(result),
        !is_complete(result) ==> r is Err && r->Err_0@ == incomplete_text(result),
{
    if result.unavailable == 0 && result.verified_files > 0 {
        return Ok(result);
    }
    if result.verified_files == 0 {
        let mut message = "Restored a copy to ".to_owned();
        message.append(result.project_file.as_str());
        message.append(
            ", but no output files could be hash-verified. The copy was not enrolled as synchronized.",
        );
        return Err(message);
    }
    let mut message = "Restored a partial copy to ".to_owned();
    message.append(result.project_file.as_str());
    message.append(", but ");
    message.append(count_text(result.unavailable).as_str());
    message.append(
        " referenced file(s) could not be restored. The copy was not enrolled as synchronized.",
    );
    Err(message)
}

/// Whether a restore is refused: something lies where it would go, and nobody
/// chose what to do about it.
pub open spec fn is_refused(
    requested: Seq<char>,
    collision: RestoreCollisionChoice,
    taken: Seq<String>,
) -> bool {
    holds_text(taken, requested) && collision is AbortIfExists
}

/// The words for a restore that is refused.
pub open spec fn refused_text(requested: Seq<char>) -> Seq<char> {
    requested + " now exists. Choose whether to delete, overwrite, duplicate, or ignore it."@
}

/// Whether `root` is the folder a restore goes to: the one that was asked for,
/// unless something lies there and is to be kept.
pub open spec fn resolves_to(
    on: Platform,
    requested: Seq<char>,
    collision: RestoreCollisionChoice,
    taken: Seq<String>,
    root: Seq<char>,
) -> bool {
    &&& !is_refused(requested, collision, taken)
    &&& if holds_text(taken, requested) && collision is Duplicate {
        is_unique_root(on, requested, taken, root)
    } else {
        root == requested
    }
}

/// The folder a restore goes to, given what lies there. `taken` are the paths
/// something lies at.
pub fn resolve_restore_collision(
    on: Platform,
    requested: &str,
    collision: RestoreCollisionChoice,
    taken: &Vec<String>,
) -> (r: Result<String, String>)
    ensures
        match r {
            Ok(root) => resolves_to(on, requested@, collision, taken@, root@),
            Err(error) => is_refused(requested@, collision, taken@) && error@ == refused_text(
                requested@,
            ),
        },
{
    if !list_holds(taken, requested) {
        return Ok(requested.to_owned());
    }
    match collision {
        RestoreCollisionChoice::AbortIfExists => {
            let mut message = requested.to_owned();
            message.append(
                " now exists. Choose whether to delete, overwrite, duplicate, or ignore it.",
            );
            Err(message)
        },
        RestoreCollisionChoice::Duplicate => Ok(unique_duplicate_root(on, requested, taken)),
        RestoreCollisionChoice::Overwrite | RestoreCollisionChoice::DeleteAndReplace => Ok(
            requested.to_owned(),
        ),
    }
}

/// What creating a staging folder came to.
#[derive(Debug)]
pub enum CreateFolder {
    Created,
    AlreadyExists,
    Failed(String),
}

/// What to do after a try to create a staging folder.
#[derive(Debug, PartialEq, Eq)]
pub enum StagingStep {
    Ready,
    /// Try the name with this number.
    Retry(u32),
    Failed(String),
}

/// Go on from the `copy`-th try to create a staging folder: a name that is
/// taken is passed over.
pub fn create_staging_root(copy: u32, created: CreateFolder) -> (r: StagingStep)
    requires
        copy < u32::MAX,
    ensures
        match created {
            CreateFolder::Created => r is Ready,
            CreateFolder::AlreadyExists => r == StagingStep::Retry((copy + 1) as u32),
            CreateFolder::Failed(error) => r is Failed && r->Failed_0@
                == "create restore staging folder: "@ + error@,
        },
{
    match created {
        CreateFolder::Created => StagingStep::Ready,
        CreateFolder::AlreadyExists => StagingStep::Retry(copy + 1),
        CreateFolder::Failed(error) => {
            let mut message = "create restore staging folder: ".to_owned();
            message.append(error.as_str());
            StagingStep::Failed(message)
        },
    }
}

// ---------------------------------------------------------------------------
// What was restored into the staging folder
// ---------------------------------------------------------------------------

/// A file or folder of a restored tree.
#[derive(Debug)]
pub enum TreeEntry {
    Symlink,
    Folder(Vec<(String, TreeEntry)>),
    /// The hash of the file, or why it could not be had.
    File(Result<String, String>),
    Other,
}

/// The hash of a file, by its texts: where it lies beneath the root, and the
/// hash.
pub type HashView = (Seq<char>, Seq<char>);

/// The hashes of some files, by their texts.
pub open spec fn hash_views(hashes: Seq<(String, String)>) -> Seq<HashView> {
    hashes.map_values(|h: (String, String)| (h.0@, h.1@))
}

/// Why a tree has no hashes: a symlink in it, or a file that cannot be read.
pub enum TreeProblem {
    Symlink(Seq<char>),
    Unreadable(Seq<char>, Seq<char>),
}

/// The hashes of the files of some entries, which lie at `at` beneath the
/// root; or the first problem.
pub open spec fn tree_hashes(
    on: Platform,
    at: Seq<char>,
    entries: Seq<(String, TreeEntry)>,
    before: Seq<HashView>,
) -> Result<Seq<HashView>, TreeProblem>
    decreases entries,
{
    if entries.len() == 0 {
        Ok(before)
    } else {
        match entry_hashes(on, joined_path(on, at, entries[0].0@), entries[0].1, before) {
            Err(problem) => Err(problem),
            Ok(next) => tree_hashes(on, at, entries.drop_first(), next),
        }
    }
}

/// The hashes of the files of one entry.
pub open spec fn entry_hashes(
    on: Platform,
    path: Seq<char>,
    entry: TreeEntry,
    before: Seq<HashView>,
) -> Result<
    Seq<HashView>,
    TreeProblem,
>
    decreases entry,
{
    match entry {
        TreeEntry::Symlink => Err(TreeProblem::Symlink(path)),
        TreeEntry::Folder(entries) => tree_hashes(on, path, entries@, before),
        TreeEntry::File(Ok(hash)) => Ok(before.push((path, hash@))),
        TreeEntry::File(Err(error)) => Err(TreeProblem::Unreadable(path, error@)),
        TreeEntry::Other => Ok(before),
    }
}

/// A problem in words; `root` is the folder that was restored into.
pub open spec fn problem_text(on: Platform, root: Seq<char>, problem: TreeProblem) -> Seq<char> {
    match problem {
        TreeProblem::Symlink(path) => "refusing a symlink in staged restore: "@ + joined_path(
            on,
            root,
            path,
        ),
        TreeProblem::Unreadable(path, error) => "BLAKE3 hash "@ + joined_path(on, root, path) + ": "@
            + error,
    }
}

fn visit_all(
    on: Platform,
    root: &str,
    at: &str,
    entries: &Vec<(String, TreeEntry)>,
    from: usize,
    hashes: &mut Vec<(String, String)>,
) -> (r: Result<(), String>)
    requires
        from <= entries@.len(),
    ensures
        match tree_hashes(on, at@, entries@.skip(from as int), hash_views(old(hashes)@)) {
            Ok(all) => r is Ok && hash_views(final(hashes)@) == all,
            Err(problem) => r is Err && r->Err_0@ == problem_text(on, root@, problem),
        },
    decreases entries@.skip(from as int),
{
    let ghost rest = entries@.skip(from as int);
    if from == entries.len() {
        return Ok(());
    }
    assert(rest.drop_first() =~= entries@.skip(from + 1));
    assert(rest[0] == entries@[from as int]);
    let path = join_path(on, at, entries[from].0.as_str());
    assert(decreases_to!(rest => rest[0]));
    assert(decreases_to!(rest[0] => rest[0].1));
    match visit(on, root, path.as_str(), &entries[from].1, hashes) {
        Err(message) => Err(message),
        Ok(()) => {
            assert(decreases_to!(rest => rest.subrange(1, rest.len() as int)));
            assert(rest.subrange(1, rest.len() as int) =~= entries@.skip(from + 1));
            visit_all(on, root, at, entries, from + 1, hashes)
        },
    }
}

fn visit(
    on: Platform,
    root: &str,
    path: &str,
    entry: &TreeEntry,
    hashes: &mut Vec<(String, String)>,
) -> (r: Result<
    (),
    String,
>)
    ensures
        match entry_hashes(on, path@, *entry, hash_views(old(hashes)@)) {
            Ok(all) => r is Ok && hash_views(final(hashes)@) == all,
            Err(problem) => r is Err && r->Err_0@ == problem_text(on, root@, problem),
        },
    decreases *entry,
{
    match entry {
        TreeEntry::Symlink => {
            let mut message = "refusing a symlink in staged restore: ".to_owned();
            message.append(join_path(on, root, path).as_str());
            Err(message)
        },
        TreeEntry::Folder(entries) => {
            assert(entries@.skip(0) =~= entries@);
            visit_all(on, root, path, entries, 0, hashes)
        },
        TreeEntry::File(Ok(hash)) => {
            let ghost before = hash_views(hashes@);
            hashes.push((path.to_owned(), hash.clone()));
            assert(hash_views(hashes@) =~= before.push((path@, hash@)));
            Ok(())
        },
        TreeEntry::File(Err(error)) => {
            let mut message = "BLAKE3 hash ".to_owned();
            message.append(join_path(on, root, path).as_str());
            message.append(": ");
            message.append(error.as_str());
            Err(message)
        },
        TreeEntry::Other => Ok(()),
    }
}

/// The hashes of a restored tree, in the order of its entries. A symlink is
/// refused wherever it lies.
pub fn hash_restore_tree(
    on: Platform,
    root: &str,
    entries: &Vec<(String, TreeEntry)>,
) -> (r: Result<
    Vec<(String, String)>,
    String,
>)
    ensures
        match tree_hashes(on, Seq::empty(), entries@, Seq::empty()) {
            Ok(all) => r is Ok && hash_views(r->Ok_0@) == all,
            Err(problem) => r is Err && r->Err_0@ == problem_text(on, root@, problem),
        },
{
    let mut hashes: Vec<(String, String)> = Vec::new();
    assert(hash_views(hashes@) =~= Seq::<HashView>::empty());
    assert(entries@.skip(0) =~= entries@);
    proof {
        reveal_strlit("");
        assert(""@ =~= Seq::<char>::empty());
    }
    match visit_all(on, root, "", entries, 0, &mut hashes) {
        Ok(()) => Ok(hashes),
        Err(message) => Err(message),
    }
}

/// Whether a file's hash is the one that is expected.
pub open spec fn hash_holds(expected: (String, String), actual: Result<String, String>) -> bool {
    actual is Ok && actual->Ok_0@ == expected.1@
}

/// What is wrong with a file whose hash is not the one that is expected.
pub open spec fn mismatch_text(
    on: Platform,
    root: Seq<char>,
    expected: (String, String),
    actual: Result<String, String>,
) -> Seq<char> {
    let path = joined_path(on, root, expected.0@);
    match actual {
        Err(error) => "verify restored file "@ + path + ": "@ + error@,
        Ok(hash) => "restored file "@ + path + " failed BLAKE3 verification: expected "@
            + expected.1@ + ", read "@ + hash@,
    }
}

/// Check the files of a restored tree against their hashes, and name the first
/// that differs. `actual` is what each file hashes to now.
pub fn verify_restore_tree(
    on: Platform,
    root: &str,
    expected_files: &Vec<(String, String)>,
    actual: &Vec<Result<String, String>>,
) -> (r: Result<(), String>)
    requires
        expected_files@.len() == actual@.len(),
    ensures
        r is Ok <==> forall|i: int|
            0 <= i < actual@.len() ==> hash_holds(expected_files@[i], #[trigger] actual@[i]),
        r is Err ==> exists|i: int|
            0 <= i < actual@.len() && !hash_holds(expected_files@[i], #[trigger] actual@[i])
                && r->Err_0@ == mismatch_text(on, root@, expected_files@[i], actual@[i]) && forall|
                j: int,
            |
                0 <= j < i ==> hash_holds(expected_files@[j], #[trigger] actual@[j]),
{
    let mut i: usize = 0;
    while i < actual.len()
        invariant
            i <= actual@.len() == expected_files@.len(),
            forall|j: int|
                0 <= j < i ==> hash_holds(expected_files@[j], #[trigger] actual@[j]),
        decreases actual@.len() - i,
    {
        let expected = &expected_files[i];
        match &actual[i] {
            Err(error) => {
                let mut message = "verify restored file ".to_owned();
                message.append(join_path(on, root, expected.0.as_str()).as_str());
                message.append(": ");
                message.append(error.as_str());
                assert(!hash_holds(expected_files@[i as int], actual@[i as int]));
                return Err(message);
            },
            Ok(hash) => {
                if !same(hash.as_str(), expected.1.as_str()) {
                    let mut message = "restored file ".to_owned();
                    message.append(join_path(on, root, expected.0.as_str()).as_str());
                    message.append(" failed BLAKE3 verification: expected ");
                    message.append(expected.1.as_str());
                    message.append(", read ");
                    message.append(hash.as_str());
                    assert(!hash_holds(expected_files@[i as int], actual@[i as int]));
                    return Err(message);
                }
            },
        }
        i = i + 1;
    }
    Ok(())
}

/// Check a file that was just written against the hash of what was written.
pub fn written_file_holds(path: &str, expected: &str, actual: Result<String, String>) -> (r: Result<
    (),
    String,
>)
    ensures
        r is Ok <==> actual is Ok && actual->Ok_0@ == expected@,
        r is Err ==> r->Err_0@ == (match actual {
            Err(error) => "verify "@ + path@ + ": "@ + error@,
            Ok(hash) => path@ + " failed BLAKE3 verification: expected "@ + expected@ + ", read "@
                + hash@,
        }),
{
    match actual {
        Err(error) => {
            let mut message = "verify ".to_owned();
            message.append(path);
            message.append(": ");
            message.append(error.as_str());
            Err(message)
        },
        Ok(hash) => {
            if same(hash.as_str(), expected) {
                return Ok(());
            }
            let mut message = path.to_owned();
            message.append(" failed BLAKE3 verification: expected ");
            message.append(expected);
            message.append(", read ");
            message.append(hash.as_str());
            Err(message)
        },
    }
}

/// Check a file of an existing project that was carried over: the copy at
/// `path` has to hold what `original`, the hash of the file it was made from,
/// says.
pub fn preserved_file_holds(
    path: &str,
    original: Result<String, String>,
    copy: Result<String, String>,
) -> (r: Result<(), String>)
    ensures
        r is Ok <==> original is Ok && copy is Ok && copy->Ok_0@ == original->Ok_0@,
        r is Err ==> r->Err_0@ == (match (original, copy) {
            (Err(error), _) => "hash existing file: "@ + error@,
            (_, Err(error)) => "verify preserved file: "@ + error@,
            _ => "preserved file "@ + path@ + " failed BLAKE3 verification"@,
        }),
{
    let expected = match original {
        Err(error) => {
            return Err(joined2("hash existing file: ", error.as_str()));
        },
        Ok(hash) => hash,
    };
    match copy {
        Err(error) => Err(joined2("verify preserved file: ", error.as_str())),
        Ok(actual) => {
            if same(actual.as_str(), expected.as_str()) {
                Ok(())
            } else {
                Err(joined3("preserved file ", path, " failed BLAKE3 verification"))
            }
        },
    }
}

/// The place of a project file beneath the staging folder.
pub open spec fn place_in_staging(
    on: Platform,
    project_file: Seq<char>,
    staging: Seq<char>,
) -> Seq<char> {
    joined(
        components_of(on, project_file).skip(components_of(on, staging).len() as int),
        seq![on.separator()],
    )
}

/// The place of a restored project file beneath the staging folder; an error
/// where it lies elsewhere.
pub fn project_within_staging(
    on: Platform,
    project_file: &str,
    staging: &str,
) -> (r: Result<String, String>)
    ensures
        r is Ok <==> is_beneath(on, project_file@, staging@),
        r is Ok ==> r->Ok_0@ == place_in_staging(on, project_file@, staging@),
        r is Err ==> r->Err_0@ == "restored project escaped its staging folder"@,
{
    if !crate::path::starts_with(on, project_file, staging) {
        return Err("restored project escaped its staging folder".to_owned());
    }
    let mut parts = components(on, project_file);
    let ghost all = views(parts@);
    let outer = components(on, staging);
    assert(views(outer@).len() == outer@.len());
    let skip: usize = outer.len();
    let mut dropped: usize = 0;
    assert(all.skip(0) =~= all);
    while dropped < skip
        invariant
            dropped <= skip,
            skip <= all.len(),
            views(parts@) == all.skip(dropped as int),
        decreases skip - dropped,
    {
        let ghost before = views(parts@);
        assert(before.len() == parts@.len());
        let _ = parts.remove(0);
        dropped = dropped + 1;
        assert(views(parts@) =~= before.skip(1));
        assert(before.skip(1) =~= all.skip(dropped as int));
    }
    Ok(join(&parts, on.main_separator()))
}

/// Whether a restore that misses referenced files may still be published: not
/// in place of something.
pub fn require_complete_replacement(unavailable: usize, collision: RestoreCollisionChoice) -> (r:
    Result<(), String>)
    ensures
        r is Err <==> unavailable > 0 && collision.replaces(),
        r is Err ==> r->Err_0@ == "The staged restore is missing "@ + decimal(unavailable as nat)
            + " referenced file(s), so the existing copy was left untouched."@,
{
    let replaces = matches!(
        collision,
        RestoreCollisionChoice::Overwrite | RestoreCollisionChoice::DeleteAndReplace
    );
    if unavailable > 0 && replaces {
        let mut message = "The staged restore is missing ".to_owned();
        message.append(count_text(unavailable).as_str());
        message.append(" referenced file(s), so the existing copy was left untouched.");
        return Err(message);
    }
    Ok(())
}

/// The result of a restore that was published.
pub fn published(
    on: Platform,
    staged: RestoreResult,
    final_root: &str,
    project_relative: &str,
    verified_files: usize,
    previous_copy: Option<String>,
) -> (r: RestoreResult)
    ensures
        r.project_file@ == joined_path(on, final_root@, project_relative@),
        r.files_written == staged.files_written,
        r.unavailable == staged.unavailable,
        r.verified_files == verified_files,
        r.previous_copy == previous_copy,
{
    RestoreResult {
        project_file: join_path(on, final_root, project_relative),
        files_written: staged.files_written,
        unavailable: staged.unavailable,
        verified_files,
        previous_copy,
    }
}

} // verus!
