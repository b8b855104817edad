//! Tracking one more file in a branch.

use vstd::prelude::*;
use vstd::string::*;
use crate::commands::branches::target_branch;
use crate::error::{ErrorModel, MilieuError};
use crate::keyed::{has_key, key_pos};
use crate::manifest::{
    branch_position, file_position, files_model, BranchModel, FileEntry,
    FileEntryModel, Manifest, ManifestModel,
};
use crate::repo::{env_path_error, validate_env_path};
use crate::text::opt_view;

verus! {

/// What adding a file came to.
#[derive(Clone, Copy, Debug, PartialEq, Eq, Structural)]
pub enum AddOutcome {
    /// The branch now tracks the file.
    Added,
    /// The branch tracked the file already; nothing changed.
    AlreadyTracked,
}

/// What `run` returns and leaves in the manifest, for the branch called `branch`.
pub open spec fn add_spec(
    manifest: ManifestModel,
    path: Seq<char>,
    tag: Option<Seq<char>>,
    branch: Seq<char>,
) -> (Result<AddOutcome, ErrorModel>, ManifestModel) {
    let at = key_pos(manifest.branches, branch);
    match env_path_error(path) {
        Some(text) => (Err(ErrorModel::CommandFailed(text)), manifest),
        None => if at >= manifest.branches.len() {
            (Err(ErrorModel::BranchNotFound(branch)), manifest)
        } else if has_key(manifest.branches[at].files, path) {
            (Ok(AddOutcome::AlreadyTracked), manifest)
        } else {
            (
                Ok(AddOutcome::Added),
                ManifestModel {
                    branches: manifest.branches.update(
                        at,
                        BranchModel {
                            name: manifest.branches[at].name,
                            files: manifest.branches[at].files.push(
                                FileEntryModel {
                                    path,
                                    tag,
                                    last_synced_hash: None,
                                    last_synced_version: None,
                                },
                            ),
                        },
                    ),
                    ..manifest
                },
            )
        },
    }
}

/// The view of the outcome of an addition.
pub open spec fn add_view(out: Result<AddOutcome, MilieuError>) -> Result<AddOutcome, ErrorModel> {
    match out {
        Ok(o) => Ok(o),
        Err(e) => Err(e@),
    }
}

/// Tracks `path` in the branch asked for, or in the active one.
///
/// Refuses a path that may not be tracked and a branch that is not there. A
/// path that the branch tracks already changes nothing.
pub fn run(manifest: &mut Manifest, path: &str, tag: Option<String>, branch_override: Option<&str>) -> (out:
    Result<AddOutcome, MilieuError>)
    ensures
        (add_view(out), final(manifest)@) == add_spec(
            old(manifest)@,
            path@,
            opt_view(tag),
            match branch_override {
                Some(name) => name@,
                None => old(manifest)@.active_branch,
            },
        ),
{
    match validate_env_path(path) {
        Err(e) => {
            return Err(e);
        },
        Ok(_) => {},
    }
    let branch_name = target_branch(manifest, branch_override);
    let at = branch_position(&manifest.branches, branch_name.as_str());
    if at >= manifest.branches.len() {
        return Err(MilieuError::BranchNotFound(branch_name));
    }
    let ghost before = manifest@;
    assert(before.branches[at as int] == manifest.branches@[at as int]@);
    let found = file_position(&manifest.branches[at].files, path);
    if found < manifest.branches[at].files.len() {
        return Ok(AddOutcome::AlreadyTracked);
    }
    let ghost old_files = files_model(manifest.branches@[at as int].files@);
    let entry = FileEntry::new(String::from_str(path), tag);
    let branch = &mut manifest.branches[at];
    branch.files.push(entry);
    assert(files_model(manifest.branches@[at as int].files@) =~= old_files.push(
        FileEntryModel {
            path: path@,
            tag: opt_view(tag),
            last_synced_hash: None,
            last_synced_version: None,
        },
    ));
    assert(manifest@.branches =~= before.branches.update(
        at as int,
        BranchModel {
            name: before.branches[at as int].name,
            files: before.branches[at as int].files.push(
                FileEntryModel {
                    path: path@,
                    tag: opt_view(tag),
                    last_synced_hash: None,
                    last_synced_version: None,
                },
            ),
        },
    ));
    Ok(AddOutcome::Added)
}

} // verus!
