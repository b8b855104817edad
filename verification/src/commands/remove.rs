//! No longer tracking a file in a branch.

use vstd::prelude::*;
use vstd::string::*;
use crate::commands::branches::target_branch;
use crate::error::{ErrorModel, MilieuError};
use crate::keyed::{has_key, key_pos, without_key};
use crate::manifest::{
    branch_position, file_position, files_model, BranchModel, FileEntry,
    FileEntryModel, Manifest, ManifestModel,
};
use crate::repo::{env_path_error, validate_env_path};
use crate::text::str_eq;

verus! {

/// What `run` returns and leaves in the manifest, for the branch called `branch`.
pub open spec fn remove_spec(manifest: ManifestModel, path: Seq<char>, branch: Seq<char>) -> (
    Option<ErrorModel>,
    ManifestModel,
) {
    let at = key_pos(manifest.branches, branch);
    match env_path_error(path) {
        Some(text) => (Some(ErrorModel::CommandFailed(text)), manifest),
        None => if at >= manifest.branches.len() {
            (Some(ErrorModel::BranchNotFound(branch)), manifest)
        } else if !has_key(manifest.branches[at].files, path) {
            (Some(ErrorModel::CommandFailed("file not tracked in branch"@)), manifest)
        } else {
            (
                None,
                ManifestModel {
                    branches: manifest.branches.update(
                        at,
                        BranchModel {
                            name: manifest.branches[at].name,
                            files: without_key(manifest.branches[at].files, path),
                        },
                    ),
                    ..manifest
                },
            )
        },
    }
}

/// Stops tracking `path` in the branch asked for, or in the active one.
///
/// Refuses a path that may not be tracked, a branch that is not there, and a
/// path that the branch does not track; the manifest then stays as it was.
pub fn run(manifest: &mut Manifest, path: &str, branch_override: Option<&str>) -> (out: Result<
    (),
    MilieuError,
>)
    ensures
        (crate::repo::refusal(out), final(manifest)@) == remove_spec(
            old(manifest)@,
            path@,
            match branch_override {
                Some(name) => name@,
                None => old(manifest)@.active_branch,
            },
        ),
{
    match validate_env_path(path) {
        Err(e) => {
            return Err(e);
        },
        Ok(_) => {},
    }
    let branch_name = target_branch(manifest, branch_override);
    let at = branch_position(&manifest.branches, branch_name.as_str());
    if at >= manifest.branches.len() {
        return Err(MilieuError::BranchNotFound(branch_name));
    }
    let ghost before = manifest@;
    assert(before.branches[at as int] == manifest.branches@[at as int]@);
    let found = file_position(&manifest.branches[at].files, path);
    if found >= manifest.branches[at].files.len() {
        return Err(MilieuError::failed("file not tracked in branch"));
    }
    let ghost old_files = files_model(manifest.branches@[at as int].files@);
    let mut kept: Vec<FileEntry> = Vec::new();
    let mut i: usize = 0;
    assert(old_files.take(0) =~= Seq::<FileEntryModel>::empty());
    assert(files_model(kept@) =~= Seq::<FileEntryModel>::empty());
    while i < manifest.branches[at].files.len()
        invariant
            at < manifest.branches.len(),
            i <= manifest.branches@[at as int].files.len(),
            manifest@ == before,
            old_files == files_model(manifest.branches@[at as int].files@),
            files_model(kept@) == without_key(old_files.take(i as int), path@),
        decreases manifest.branches@[at as int].files.len() - i,
    {
        let entry = &manifest.branches[at].files[i];
        assert(old_files.take(i as int + 1).drop_last() =~= old_files.take(i as int));
        assert(old_files.take(i as int + 1).last() == entry@);
        if !str_eq(entry.path.as_str(), path) {
            let ghost old_kept = files_model(kept@);
            kept.push(entry.clone());
            assert(files_model(kept@) =~= old_kept.push(entry@));
        }
        i += 1;
    }
    assert(old_files.take(i as int) =~= old_files);
    let branch = &mut manifest.branches[at];
    branch.files = kept;
    assert(manifest@.branches =~= before.branches.update(
        at as int,
        BranchModel {
            name: before.branches[at as int].name,
            files: without_key(before.branches[at as int].files, path@),
        },
    ));
    Ok(())
}

} // verus!
