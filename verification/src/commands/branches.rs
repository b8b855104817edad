//! Branches of the manifest: adding one, removing one, choosing the active one,
//! listing them.

use vstd::prelude::*;
use vstd::string::*;
use crate::commands::push::{first_path_error, strings_view};
use crate::error::{ErrorModel, MilieuError};
use crate::keyed::{has_key, without_key};
use crate::manifest::{
    branch_position, branches_model, files_model, Branch, BranchModel, FileEntry, FileEntryModel,
    Manifest, ManifestModel,
};
use crate::repo::{validate_env_path};
use crate::text::{concat2, str_eq};

verus! {

/// The entries of a new branch: one per file, with the tag at the same place if
/// there is one, and no baseline.
pub open spec fn new_entries(files: Seq<Seq<char>>, tags: Seq<Seq<char>>) -> Seq<FileEntryModel> {
    Seq::new(
        files.len(),
        |i: int|
            FileEntryModel {
                path: files[i],
                tag: if i < tags.len() {
                    Some(tags[i])
                } else {
                    None
                },
                last_synced_hash: None,
                last_synced_version: None,
            },
    )
}

/// Why a branch cannot be added; `None` where it can.
pub open spec fn add_error(
    manifest: ManifestModel,
    name: Seq<char>,
    files: Seq<Seq<char>>,
    tags: Seq<Seq<char>>,
) -> Option<ErrorModel> {
    if files.len() == 0 {
        Some(ErrorModel::CommandFailed("at least one --file is required"@))
    } else if tags.len() != 0 && tags.len() != files.len() {
        Some(ErrorModel::CommandFailed("--tag count must match --file count"@))
    } else if has_key(manifest.branches, name) {
        Some(ErrorModel::CommandFailed("branch already exists: "@ + name))
    } else {
        match first_path_error(files) {
            Some(text) => Some(ErrorModel::CommandFailed(text)),
            None => None,
        }
    }
}

/// Adds a branch that tracks the given files, each with the tag at the same
/// place where tags are given.
///
/// Refuses an empty list of files, a list of tags of another length, a name
/// that a branch already has, and a file that may not be tracked; the manifest
/// then stays as it was.
pub fn add(manifest: &mut Manifest, name: &str, files: Vec<String>, tags: Vec<String>) -> (out:
    Result<(), MilieuError>)
    ensures
        match add_error(old(manifest)@, name@, strings_view(files@), strings_view(tags@)) {
            Some(e) => out matches Err(f) && f@ == e && final(manifest)@ == old(manifest)@,
            None => out is Ok && final(manifest)@ == (ManifestModel {
                branches: old(manifest)@.branches.push(
                    BranchModel {
                        name: name@,
                        files: new_entries(strings_view(files@), strings_view(tags@)),
                    },
                ),
                ..old(manifest)@
            }),
        },
{
    if files.len() == 0 {
        return Err(MilieuError::failed("at least one --file is required"));
    }
    if tags.len() != 0 && tags.len() != files.len() {
        return Err(MilieuError::failed("--tag count must match --file count"));
    }
    match manifest.ensure_unique_branch(name) {
        Err(e) => {
            return Err(e);
        },
        Ok(_) => {},
    }
    let ghost paths = strings_view(files@);
    let ghost labels = strings_view(tags@);
    let ghost before = manifest@;
    let mut entries: Vec<FileEntry> = Vec::new();
    let mut i: usize = 0;
    assert(paths.take(0) =~= Seq::<Seq<char>>::empty());
    while i < files.len()
        invariant
            i <= files.len(),
            paths == strings_view(files@),
            labels == strings_view(tags@),
            manifest@ == before,
            before == old(manifest)@,
            files.len() != 0,
            tags.len() == 0 || tags.len() == files.len(),
            !has_key(before.branches, name@),
            entries.len() == i,
            first_path_error(paths.take(i as int)) is None,
            forall|j: int| 0 <= j < i ==> entries@[j]@ == new_entries(paths, labels)[j],
        decreases files.len() - i,
    {
        assert(paths.take(i as int + 1).drop_last() =~= paths.take(i as int));
        assert(paths.take(i as int + 1).last() == files@[i as int]@);
        match validate_env_path(files[i].as_str()) {
            Err(e) => {
                proof {
                    lemma_error_stays(paths, i as int + 1);
                }
                return Err(e);
            },
            Ok(_) => {},
        }
        let tag = if i < tags.len() {
            Some(tags[i].clone())
        } else {
            None
        };
        entries.push(FileEntry::new(files[i].clone(), tag));
        i += 1;
    }
    assert(paths.take(i as int) =~= paths);
    assert(files_model(entries@) =~= new_entries(paths, labels));
    manifest.branches.push(Branch { name: String::from_str(name), files: entries });
    assert(branches_model(manifest.branches@) =~= before.branches.push(
        BranchModel { name: name@, files: new_entries(paths, labels) },
    ));
    Ok(())
}

/// An error among the first `n` paths is the first error of all of them.
proof fn lemma_error_stays(paths: Seq<Seq<char>>, n: int)
    requires
        0 <= n <= paths.len(),
        first_path_error(paths.take(n)) is Some,
    ensures
        first_path_error(paths) == first_path_error(paths.take(n)),
    decreases paths.len() - n,
{
    if n < paths.len() {
        assert(paths.take(n + 1).drop_last() =~= paths.take(n));
        lemma_error_stays(paths, n + 1);
    } else {
        assert(paths.take(n) =~= paths);
    }
}

/// Why a branch cannot be removed; `None` where it can.
pub open spec fn remove_error(manifest: ManifestModel, name: Seq<char>) -> Option<ErrorModel> {
    if manifest.active_branch == name {
        Some(ErrorModel::CommandFailed("cannot remove the active branch"@))
    } else if !has_key(manifest.branches, name) {
        Some(ErrorModel::BranchNotFound(name))
    } else {
        None
    }
}

/// Removes the branch of the given name. Refuses the active branch and a name
/// that no branch has; the manifest then stays as it was.
pub fn remove(manifest: &mut Manifest, name: &str) -> (out: Result<(), MilieuError>)
    ensures
        match remove_error(old(manifest)@, name@) {
            Some(e) => out matches Err(f) && f@ == e && final(manifest)@ == old(manifest)@,
            None => out is Ok && final(manifest)@ == (ManifestModel {
                branches: without_key(old(manifest)@.branches, name@),
                ..old(manifest)@
            }),
        },
{
    if str_eq(manifest.active_branch.as_str(), name) {
        return Err(MilieuError::failed("cannot remove the active branch"));
    }
    let at = branch_position(&manifest.branches, name);
    if at >= manifest.branches.len() {
        return Err(MilieuError::BranchNotFound(String::from_str(name)));
    }
    let ghost before = branches_model(manifest.branches@);
    let mut kept: Vec<Branch> = Vec::new();
    let mut i: usize = 0;
    assert(before.take(0) =~= Seq::<BranchModel>::empty());
    assert(branches_model(kept@) =~= Seq::<BranchModel>::empty());
    while i < manifest.branches.len()
        invariant
            i <= manifest.branches.len(),
            before == branches_model(manifest.branches@),
            branches_model(kept@) == without_key(before.take(i as int), name@),
        decreases manifest.branches.len() - i,
    {
        assert(before.take(i as int + 1).drop_last() =~= before.take(i as int));
        assert(before.take(i as int + 1).last() == manifest.branches@[i as int]@);
        if !str_eq(manifest.branches[i].name.as_str(), name) {
            let ghost old_kept = branches_model(kept@);
            kept.push(manifest.branches[i].clone());
            assert(branches_model(kept@) =~= old_kept.push(manifest.branches@[i as int]@));
        }
        i += 1;
    }
    assert(before.take(i as int) =~= before);
    manifest.branches = kept;
    Ok(())
}

/// Makes the branch of the given name the active one, or fails with
/// `BranchNotFound` and leaves the manifest as it was.
pub fn set_default(manifest: &mut Manifest, name: &str) -> (out: Result<(), MilieuError>)
    ensures
        match out {
            Ok(_) => has_key(old(manifest)@.branches, name@) && final(manifest)@ == (ManifestModel {
                active_branch: name@,
                ..old(manifest)@
            }),
            Err(e) => !has_key(old(manifest)@.branches, name@) && e@ == ErrorModel::BranchNotFound(
                name@,
            ) && final(manifest)@ == old(manifest)@,
        },
{
    let at = branch_position(&manifest.branches, name);
    if at >= manifest.branches.len() {
        return Err(MilieuError::BranchNotFound(String::from_str(name)));
    }
    manifest.active_branch = String::from_str(name);
    Ok(())
}

/// The line of a branch in the list: the active one is marked with a star.
pub open spec fn branch_line(manifest: ManifestModel, i: int) -> Seq<char> {
    if manifest.branches[i].name == manifest.active_branch {
        "* "@ + manifest.branches[i].name
    } else {
        "  "@ + manifest.branches[i].name
    }
}

/// The list of the branches, one line each, the active one marked with a star.
pub fn list(manifest: &Manifest) -> (out: Vec<String>)
    ensures
        out.len() == manifest.branches.len(),
        forall|i: int| 0 <= i < out.len() ==> out@[i]@ == branch_line(manifest@, i),
{
    let mut out: Vec<String> = Vec::new();
    let mut i: usize = 0;
    while i < manifest.branches.len()
        invariant
            i <= manifest.branches.len(),
            out.len() == i,
            forall|j: int| 0 <= j < i ==> out@[j]@ == branch_line(manifest@, j),
        decreases manifest.branches.len() - i,
    {
        let name = manifest.branches[i].name.as_str();
        assert(manifest@.branches[i as int].name == name@);
        let line = if str_eq(name, manifest.active_branch.as_str()) {
            concat2("* ", name)
        } else {
            concat2("  ", name)
        };
        out.push(line);
        i += 1;
    }
    out
}

/// The branch that a command works on: the one asked for, or the active one.
pub fn target_branch(manifest: &Manifest, branch_override: Option<&str>) -> (out: String)
    ensures
        out@ == (match branch_override {
            Some(name) => name@,
            None => manifest@.active_branch,
        }),
{
    match branch_override {
        Some(name) => String::from_str(name),
        None => manifest.active_branch.clone(),
    }
}

} // verus!
