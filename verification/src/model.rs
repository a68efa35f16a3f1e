//! A model of the slice of the filesystem a save touches, and the laws
//! the save pipeline obeys over it.
//!
//! The model keeps the set of directories that exist and a map from file
//! path to file contents. The host binary's two mutating steps act on it
//! as: directory creation inserts the directory into the set (creation of
//! an already-present directory changes nothing), and a write replaces
//! the contents at the target path whole — when it succeeds. A failed
//! step leaves the model as it was.

use vstd::prelude::*;

use crate::errors::SaveErrorView;
use crate::save::app_dir_under;
use crate::save::collision_reason;
use crate::save::provision_decision;
use crate::save::provision_model;
use crate::save::save_outcome_model;
use crate::paths::joined;

verus! {

/// The directories that exist after the application directory `dir` has
/// been created: creation is a plain insertion, so creating an existing
/// directory is a no-op.
pub open spec fn dirs_after_provision(dirs: Set<Seq<char>>, dir: Seq<char>) -> Set<Seq<char>> {
    dirs.insert(dir)
}

/// The files that exist after a write attempt: a successful write
/// replaces the contents at `path` whole (creating the file if absent,
/// never appending); a failed write leaves every file as it was.
pub open spec fn files_after_write(
    files: Map<Seq<char>, Seq<char>>,
    path: Seq<char>,
    content: Seq<char>,
    ok: bool,
) -> Map<Seq<char>, Seq<char>> {
    if ok {
        files.insert(path, content)
    } else {
        files
    }
}

/// The files that exist after a complete save attempt of `content` under
/// `filename`, when the platform steps turn out as given: the write is
/// attempted — and the target file touched — only once the documents
/// root was found and the application directory provisioned.
pub open spec fn files_after_save(
    files: Map<Seq<char>, Seq<char>>,
    filename: Seq<char>,
    content: Seq<char>,
    root: Option<Seq<char>>,
    exists: bool,
    is_dir: bool,
    create: Result<(), Seq<char>>,
    write: Result<(), Seq<char>>,
) -> Map<Seq<char>, Seq<char>> {
    match root {
        None => files,
        Some(rt) => if provision_model(exists, is_dir, create) is Ok {
            files_after_write(files, joined(app_dir_under(rt), filename), content, write is Ok)
        } else {
            files
        },
    }
}

/// Provisioning the application directory is idempotent: a first
/// provisioning leaves the directory existing, a provisioning that finds
/// the directory already existing succeeds while deciding no action, a
/// repeated creation changes nothing, and every previously existing
/// directory still exists.
pub proof fn lemma_provision_idempotent(dirs: Set<Seq<char>>, dir: Seq<char>)
    ensures
        dirs_after_provision(dirs, dir).contains(dir),
        provision_decision(true, true) == Ok::<bool, SaveErrorView>(false),
        dirs_after_provision(dirs_after_provision(dirs, dir), dir) == dirs_after_provision(
            dirs,
            dir,
        ),
        forall|d: Seq<char>|
            dirs.contains(d) ==> #[trigger] dirs_after_provision(dirs, dir).contains(d),
{
    assert(dirs_after_provision(dirs_after_provision(dirs, dir), dir) =~= dirs_after_provision(
        dirs,
        dir,
    ));
}

/// Round trip: whenever provisioning succeeds, a save with a successful
/// write returns the target path, and the file at that path holds
/// exactly the supplied content.
pub proof fn lemma_save_round_trip(
    files: Map<Seq<char>, Seq<char>>,
    filename: Seq<char>,
    content: Seq<char>,
    root: Seq<char>,
    exists: bool,
    is_dir: bool,
    create: Result<(), Seq<char>>,
)
    requires
        provision_model(exists, is_dir, create) is Ok,
    ensures
        save_outcome_model(filename, Some(root), exists, is_dir, create, Ok(()))
            == Ok::<_, SaveErrorView>(joined(app_dir_under(root), filename)),
        files_after_save(files, filename, content, Some(root), exists, is_dir, create, Ok(()))
            .contains_key(joined(app_dir_under(root), filename)),
        files_after_save(files, filename, content, Some(root), exists, is_dir, create, Ok(()))[
            joined(app_dir_under(root), filename)
        ] == content,
{
}

/// Overwrite: a second save of `c2` to the same filename leaves the file
/// containing exactly `c2`, never an accumulation of the two contents.
pub proof fn lemma_save_overwrite(
    files: Map<Seq<char>, Seq<char>>,
    filename: Seq<char>,
    c1: Seq<char>,
    c2: Seq<char>,
    root: Seq<char>,
    exists: bool,
    is_dir: bool,
    create: Result<(), Seq<char>>,
)
    requires
        provision_model(exists, is_dir, create) is Ok,
    ensures
        files_after_save(
            files_after_save(files, filename, c1, Some(root), exists, is_dir, create, Ok(())),
            filename,
            c2,
            Some(root),
            exists,
            is_dir,
            create,
            Ok(()),
        )[joined(app_dir_under(root), filename)] == c2,
{
}

/// Fail fast: whenever a save attempt ends in an error — whichever step
/// failed — no file has been created or modified.
pub proof fn lemma_failed_save_touches_no_file(
    files: Map<Seq<char>, Seq<char>>,
    filename: Seq<char>,
    content: Seq<char>,
    root: Option<Seq<char>>,
    exists: bool,
    is_dir: bool,
    create: Result<(), Seq<char>>,
    write: Result<(), Seq<char>>,
)
    requires
        save_outcome_model(filename, root, exists, is_dir, create, write) is Err,
    ensures
        files_after_save(files, filename, content, root, exists, is_dir, create, write) == files,
{
}

/// Missing root: when the documents lookup fails, the save reports that
/// no documents directory is available, and no file comes into being.
pub proof fn lemma_missing_root(
    files: Map<Seq<char>, Seq<char>>,
    filename: Seq<char>,
    content: Seq<char>,
    exists: bool,
    is_dir: bool,
    create: Result<(), Seq<char>>,
    write: Result<(), Seq<char>>,
)
    ensures
        save_outcome_model(filename, None, exists, is_dir, create, write) == Err::<Seq<char>, _>(
            SaveErrorView::DirectoryUnavailable,
        ),
        files_after_save(files, filename, content, None, exists, is_dir, create, write) == files,
{
}

/// Path collision: when the application directory's path exists but is
/// not a directory, the save fails as a directory-creation failure —
/// whatever the later steps would have returned — and no file is
/// created or modified; in particular the colliding file's bytes are
/// unchanged.
pub proof fn lemma_path_collision(
    files: Map<Seq<char>, Seq<char>>,
    filename: Seq<char>,
    content: Seq<char>,
    root: Seq<char>,
    create: Result<(), Seq<char>>,
    write: Result<(), Seq<char>>,
)
    ensures
        save_outcome_model(filename, Some(root), true, false, create, write) == Err::<
            Seq<char>,
            _,
        >(SaveErrorView::DirectoryCreateFailed(collision_reason())),
        files_after_save(files, filename, content, Some(root), true, false, create, write)
            == files,
{
}

/// Write failure: when the write step fails, the save surfaces exactly
/// that reason as a write error, and the pre-existing contents at the
/// target path — indeed every file — are unchanged.
pub proof fn lemma_write_failure(
    files: Map<Seq<char>, Seq<char>>,
    filename: Seq<char>,
    content: Seq<char>,
    root: Seq<char>,
    exists: bool,
    is_dir: bool,
    create: Result<(), Seq<char>>,
    reason: Seq<char>,
)
    requires
        provision_model(exists, is_dir, create) is Ok,
    ensures
        save_outcome_model(filename, Some(root), exists, is_dir, create, Err(reason)) == Err::<
            Seq<char>,
            _,
        >(SaveErrorView::WriteFailed(reason)),
        files_after_save(files, filename, content, Some(root), exists, is_dir, create, Err(reason))
            == files,
{
}

/// Empty content: a save of the empty string succeeds like any other,
/// and the file it leaves behind has length zero.
pub proof fn lemma_empty_content_save(
    files: Map<Seq<char>, Seq<char>>,
    filename: Seq<char>,
    root: Seq<char>,
    exists: bool,
    is_dir: bool,
    create: Result<(), Seq<char>>,
)
    requires
        provision_model(exists, is_dir, create) is Ok,
    ensures
        save_outcome_model(filename, Some(root), exists, is_dir, create, Ok(())) is Ok,
        files_after_save(
            files,
            filename,
            Seq::<char>::empty(),
            Some(root),
            exists,
            is_dir,
            create,
            Ok(()),
        )[joined(app_dir_under(root), filename)].len() == 0,
{
}

} // verus!
