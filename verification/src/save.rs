//! The save pipeline's decisions.
//!
//! A save runs through three platform steps — the documents-directory
//! lookup, the provisioning of the application subdirectory, and the
//! file write. The functions here make every decision between those
//! steps: which path to provision, whether to create it or refuse a
//! collision, which path to write, and which error to surface for which
//! outcome. The host binary performs the steps themselves and feeds each
//! outcome back in.

use vstd::prelude::*;

use crate::errors::SaveError;
use crate::errors::SaveErrorView;
use crate::paths::join_path;
use crate::paths::joined;

verus! {

/// The fixed name of the subdirectory the application provisions under
/// the user's documents root.
pub open spec fn app_dir_name() -> Seq<char> {
    "DocForge"@
}

/// The application directory under a given documents root.
pub open spec fn app_dir_under(root: Seq<char>) -> Seq<char> {
    joined(root, app_dir_name())
}

/// Directory Provisioner decision: given the outcome of the documents
/// lookup, either name the application directory or report that no
/// documents root is available.
pub fn resolve_app_directory(root: Option<&str>) -> (r: Result<String, SaveError>)
    ensures
        root matches Some(rt) ==> (r matches Ok(d) && d@ == app_dir_under(rt@)),
        root is None ==> (r matches Err(e) && e@ == SaveErrorView::DirectoryUnavailable),
{
    match root {
        Some(rt) => Ok(join_path(rt, "DocForge")),
        None => Err(SaveError::DirectoryUnavailable),
    }
}

/// The reason reported when the application directory's path is already
/// taken by something that is not a directory.
pub open spec fn collision_reason() -> Seq<char> {
    "path exists and is not a directory"@
}

/// Directory Provisioner decision: what to do with the application
/// directory path, given whether it exists and whether it is a directory.
/// An absent path is to be created (`Ok(true)`), an existing directory is
/// left alone (`Ok(false)`), and a path collision with anything else is
/// refused as a creation failure.
pub open spec fn provision_decision(exists: bool, is_dir: bool) -> Result<bool, SaveErrorView> {
    if !exists {
        Ok(true)
    } else if is_dir {
        Ok(false)
    } else {
        Err(SaveErrorView::DirectoryCreateFailed(collision_reason()))
    }
}

/// Directory Provisioner decision: whether the application directory must
/// be created, skipped, or refused, from what the path inspection found.
pub fn provision_step(exists: bool, is_dir: bool) -> (r: Result<bool, SaveError>)
    ensures
        !exists ==> r == Ok::<bool, SaveError>(true),
        exists && is_dir ==> r == Ok::<bool, SaveError>(false),
        exists && !is_dir ==> (r matches Err(e) && e@ == SaveErrorView::DirectoryCreateFailed(
            collision_reason(),
        )),
{
    if !exists {
        Ok(true)
    } else if is_dir {
        Ok(false)
    } else {
        Err(SaveError::DirectoryCreateFailed("path exists and is not a directory".to_owned()))
    }
}

/// Directory Provisioner decision: how a creation outcome ends the
/// provisioning step — success passes through, a failure reason becomes
/// the directory-creation error.
pub fn directory_provisioned(outcome: Result<(), String>) -> (r: Result<(), SaveError>)
    ensures
        outcome is Ok ==> r is Ok,
        outcome matches Err(reason) ==> (r matches Err(e) && e@ == SaveErrorView::DirectoryCreateFailed(reason@)),
{
    match outcome {
        Ok(()) => Ok(()),
        Err(reason) => Err(SaveError::DirectoryCreateFailed(reason)),
    }
}

/// One pending file write: the exact path and the exact bytes-to-be, with
/// no transformation of either.
pub struct WriteCommand {
    pub path: String,
    pub content: String,
}

/// Document Writer decision: the write that a save of `content` under
/// `filename` in `dir` must perform — the joined target path, and the
/// content exactly as supplied.
pub fn prepare_write(dir: &str, filename: &str, content: String) -> (c: WriteCommand)
    ensures
        c.path@ == joined(dir@, filename@),
        c.content@ == content@,
{
    WriteCommand { path: join_path(dir, filename), content }
}

/// Document Writer decision: how a write outcome ends the save — success
/// returns the absolute path written, a failure reason becomes the write
/// error.
pub fn write_completed(path: String, outcome: Result<(), String>) -> (r: Result<String, SaveError>)
    ensures
        outcome is Ok ==> (r matches Ok(p) && p@ == path@),
        outcome matches Err(reason) ==> (r matches Err(e) && e@ == SaveErrorView::WriteFailed(reason@)),
{
    match outcome {
        Ok(()) => Ok(path),
        Err(reason) => Err(SaveError::WriteFailed(reason)),
    }
}

/// The provisioning step as a whole: the decision over what the path
/// inspection found and — only where a creation was decided — the
/// creation attempt's result.
pub open spec fn provision_model(
    exists: bool,
    is_dir: bool,
    create: Result<(), Seq<char>>,
) -> Result<(), SaveErrorView> {
    match provision_decision(exists, is_dir) {
        Err(e) => Err(e),
        Ok(true) => match create {
            Ok(()) => Ok(()),
            Err(reason) => Err(SaveErrorView::DirectoryCreateFailed(reason)),
        },
        Ok(false) => Ok(()),
    }
}

/// The result a save of `filename` reaches when the platform steps turn
/// out as given: the first failure wins, and only a fully successful run
/// yields the target path.
pub open spec fn save_outcome_model(
    filename: Seq<char>,
    root: Option<Seq<char>>,
    exists: bool,
    is_dir: bool,
    create: Result<(), Seq<char>>,
    write: Result<(), Seq<char>>,
) -> Result<Seq<char>, SaveErrorView> {
    match root {
        None => Err(SaveErrorView::DirectoryUnavailable),
        Some(rt) => match provision_model(exists, is_dir, create) {
            Err(e) => Err(e),
            Ok(()) => match write {
                Err(reason) => Err(SaveErrorView::WriteFailed(reason)),
                Ok(()) => Ok(joined(app_dir_under(rt), filename)),
            },
        },
    }
}

/// The abstract value of a save result.
pub open spec fn outcome_view(r: Result<String, SaveError>) -> Result<Seq<char>, SaveErrorView> {
    match r {
        Ok(p) => Ok(p@),
        Err(e) => Err(e@),
    }
}

/// The abstract value of a lookup outcome.
pub open spec fn root_view(root: Option<&str>) -> Option<Seq<char>> {
    match root {
        Some(rt) => Some(rt@),
        None => None,
    }
}

/// The abstract value of a creation or write outcome.
pub open spec fn step_view(outcome: Result<(), String>) -> Result<(), Seq<char>> {
    match outcome {
        Ok(()) => Ok(()),
        Err(reason) => Err(reason@),
    }
}

/// The complete save decision sequence over given step outcomes: resolve
/// the application directory, provision it from what the path inspection
/// found (creating it only when absent, refusing a collision), join the
/// target path, and account for the write.
pub fn save_document_outcome(
    filename: &str,
    root: Option<&str>,
    exists: bool,
    is_dir: bool,
    create: Result<(), String>,
    write: Result<(), String>,
) -> (r: Result<String, SaveError>)
    ensures
        outcome_view(r) == save_outcome_model(
            filename@,
            root_view(root),
            exists,
            is_dir,
            step_view(create),
            step_view(write),
        ),
{
    let dir = match resolve_app_directory(root) {
        Ok(d) => d,
        Err(e) => {
            return Err(e);
        },
    };
    let need_create = match provision_step(exists, is_dir) {
        Ok(b) => b,
        Err(e) => {
            return Err(e);
        },
    };
    if need_create {
        if let Err(e) = directory_provisioned(create) {
            return Err(e);
        }
    }
    let path = join_path(dir.as_str(), filename);
    write_completed(path, write)
}

} // verus!
