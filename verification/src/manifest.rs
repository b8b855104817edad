//! The local record of a repository: its identity, its branches, the files that
//! each branch tracks, and the baseline of each file.

use vstd::prelude::*;
use vstd::string::*;
use crate::error::{ErrorModel, MilieuError};
use crate::keyed::{key_pos, key_pos_from, Keyed};
use crate::text::{concat2, opt_clone, opt_view, str_eq};

verus! {

/// A tracked file: its path, its tag, and the hash and version last seen equal on
/// both sides.
#[derive(Debug)]
pub struct FileEntry {
    pub path: String,
    pub tag: Option<String>,
    pub last_synced_hash: Option<String>,
    pub last_synced_version: Option<u32>,
}

/// A branch: its name and the files it tracks, in order.
#[derive(Debug)]
pub struct Branch {
    pub name: String,
    pub files: Vec<FileEntry>,
}

/// Where the repository is served from, when not from the profile's address.
#[derive(Debug)]
pub struct Remote {
    pub base_url: Option<String>,
}

/// The manifest of a repository.
#[derive(Debug)]
pub struct Manifest {
    pub version: u32,
    pub repo_id: String,
    pub repo_name: String,
    pub active_branch: String,
    pub branches: Vec<Branch>,
    pub remote: Option<Remote>,
}

/// A file entry as plain values.
pub struct FileEntryModel {
    pub path: Seq<char>,
    pub tag: Option<Seq<char>>,
    pub last_synced_hash: Option<Seq<char>>,
    pub last_synced_version: Option<u32>,
}

/// A branch as plain values.
pub struct BranchModel {
    pub name: Seq<char>,
    pub files: Seq<FileEntryModel>,
}

/// A manifest as plain values. `remote` is absent, or holds the address that may
/// itself be absent.
pub struct ManifestModel {
    pub version: u32,
    pub repo_id: Seq<char>,
    pub repo_name: Seq<char>,
    pub active_branch: Seq<char>,
    pub branches: Seq<BranchModel>,
    pub remote: Option<Option<Seq<char>>>,
}

impl Keyed for FileEntryModel {
    open spec fn key(self) -> Seq<char> {
        self.path
    }
}

impl Keyed for BranchModel {
    open spec fn key(self) -> Seq<char> {
        self.name
    }
}

impl View for FileEntry {
    type V = FileEntryModel;

    open spec fn view(&self) -> FileEntryModel {
        FileEntryModel {
            path: self.path@,
            tag: opt_view(self.tag),
            last_synced_hash: opt_view(self.last_synced_hash),
            last_synced_version: self.last_synced_version,
        }
    }
}

/// The models of a run of file entries.
pub open spec fn files_model(files: Seq<FileEntry>) -> Seq<FileEntryModel> {
    Seq::new(files.len(), |i: int| files[i]@)
}

impl View for Branch {
    type V = BranchModel;

    open spec fn view(&self) -> BranchModel {
        BranchModel { name: self.name@, files: files_model(self.files@) }
    }
}

/// The models of a run of branches.
pub open spec fn branches_model(branches: Seq<Branch>) -> Seq<BranchModel> {
    Seq::new(branches.len(), |i: int| branches[i]@)
}

/// The model of the optional remote override.
pub open spec fn remote_model(remote: Option<Remote>) -> Option<Option<Seq<char>>> {
    match remote {
        Some(r) => Some(opt_view(r.base_url)),
        None => None,
    }
}

impl View for Manifest {
    type V = ManifestModel;

    open spec fn view(&self) -> ManifestModel {
        ManifestModel {
            version: self.version,
            repo_id: self.repo_id@,
            repo_name: self.repo_name@,
            active_branch: self.active_branch@,
            branches: branches_model(self.branches@),
            remote: remote_model(self.remote),
        }
    }
}

impl Clone for FileEntry {
    fn clone(&self) -> (out: Self)
        ensures
            out@ == self@,
    {
        FileEntry {
            path: self.path.clone(),
            tag: opt_clone(&self.tag),
            last_synced_hash: opt_clone(&self.last_synced_hash),
            last_synced_version: self.last_synced_version,
        }
    }
}

/// A copy of a run of file entries.
pub fn clone_files(files: &Vec<FileEntry>) -> (out: Vec<FileEntry>)
    ensures
        files_model(out@) == files_model(files@),
{
    let mut out: Vec<FileEntry> = Vec::new();
    let mut i: usize = 0;
    while i < files.len()
        invariant
            i <= files.len(),
            out.len() == i,
            forall|j: int| 0 <= j < i ==> out@[j]@ == files@[j]@,
        decreases files.len() - i,
    {
        out.push(files[i].clone());
        i += 1;
    }
    assert(files_model(out@) =~= files_model(files@));
    out
}

impl Clone for Branch {
    fn clone(&self) -> (out: Self)
        ensures
            out@ == self@,
    {
        Branch { name: self.name.clone(), files: clone_files(&self.files) }
    }
}

/// A copy of a run of branches.
pub fn clone_branches(branches: &Vec<Branch>) -> (out: Vec<Branch>)
    ensures
        branches_model(out@) == branches_model(branches@),
{
    let mut out: Vec<Branch> = Vec::new();
    let mut i: usize = 0;
    while i < branches.len()
        invariant
            i <= branches.len(),
            out.len() == i,
            forall|j: int| 0 <= j < i ==> out@[j]@ == branches@[j]@,
        decreases branches.len() - i,
    {
        out.push(branches[i].clone());
        i += 1;
    }
    assert(branches_model(out@) =~= branches_model(branches@));
    out
}

impl Clone for Remote {
    fn clone(&self) -> (out: Self)
        ensures
            opt_view(out.base_url) == opt_view(self.base_url),
    {
        Remote { base_url: opt_clone(&self.base_url) }
    }
}

/// A copy of the optional remote override.
pub fn clone_remote(remote: &Option<Remote>) -> (out: Option<Remote>)
    ensures
        remote_model(out) == remote_model(*remote),
{
    match remote {
        Some(r) => Some(r.clone()),
        None => None,
    }
}

impl Clone for Manifest {
    fn clone(&self) -> (out: Self)
        ensures
            out@ == self@,
    {
        Manifest {
            version: self.version,
            repo_id: self.repo_id.clone(),
            repo_name: self.repo_name.clone(),
            active_branch: self.active_branch.clone(),
            branches: clone_branches(&self.branches),
            remote: clone_remote(&self.remote),
        }
    }
}

impl FileEntry {
    /// An entry that was never synced.
    pub fn new(path: String, tag: Option<String>) -> (out: Self)
        ensures
            out@ == (FileEntryModel {
                path: path@,
                tag: opt_view(tag),
                last_synced_hash: None,
                last_synced_version: None,
            }),
    {
        FileEntry { path, tag, last_synced_hash: None, last_synced_version: None }
    }

    /// The repository-relative path.
    pub fn path(&self) -> (out: &str)
        ensures
            out@ == self@.path,
    {
        self.path.as_str()
    }

    /// The tag, if the entry has one.
    pub fn tag(&self) -> (out: Option<&str>)
        ensures
            crate::crypto::opt_str_view(out) == self@.tag,
    {
        match &self.tag {
            Some(t) => Some(t.as_str()),
            None => None,
        }
    }

    /// Records the hash and the version that both sides now agree on. Path and tag
    /// stay.
    pub fn set_synced(&mut self, hash: String, version: Option<u32>)
        ensures
            final(self)@ == (FileEntryModel {
                last_synced_hash: Some(hash@),
                last_synced_version: version,
                ..old(self)@
            }),
    {
        self.last_synced_hash = Some(hash);
        self.last_synced_version = version;
    }
}

/// A file entry without its baseline.
pub open spec fn entry_without_state(entry: FileEntryModel) -> FileEntryModel {
    FileEntryModel { last_synced_hash: None, last_synced_version: None, ..entry }
}

/// A branch whose entries have no baseline.
pub open spec fn branch_without_state(branch: BranchModel) -> BranchModel {
    BranchModel {
        name: branch.name,
        files: Seq::new(branch.files.len(), |i: int| entry_without_state(branch.files[i])),
    }
}

/// A manifest whose entries have no baseline; all else as it was.
pub open spec fn manifest_without_state(manifest: ManifestModel) -> ManifestModel {
    ManifestModel {
        branches: Seq::new(
            manifest.branches.len(),
            |i: int| branch_without_state(manifest.branches[i]),
        ),
        ..manifest
    }
}

/// Index of the first branch called `name`; the number of branches when there is
/// none.
pub fn branch_position(branches: &Vec<Branch>, name: &str) -> (at: usize)
    ensures
        at == key_pos(branches_model(branches@), name@),
        at <= branches.len(),
        at < branches.len() ==> branches@[at as int]@.name == name@,
{
    let mut i: usize = 0;
    while i < branches.len()
        invariant
            i <= branches.len(),
            key_pos_from(branches_model(branches@), name@, 0) == key_pos_from(
                branches_model(branches@),
                name@,
                i as int,
            ),
        decreases branches.len() - i,
    {
        assert(branches_model(branches@)[i as int] == branches@[i as int]@);
        if str_eq(branches[i].name.as_str(), name) {
            return i;
        }
        i += 1;
    }
    i
}

/// Index of the first entry at `path`; the number of entries when there is none.
pub fn file_position(files: &Vec<FileEntry>, path: &str) -> (at: usize)
    ensures
        at == key_pos(files_model(files@), path@),
        at <= files.len(),
        at < files.len() ==> files@[at as int]@.path == path@,
{
    let mut i: usize = 0;
    while i < files.len()
        invariant
            i <= files.len(),
            key_pos_from(files_model(files@), path@, 0) == key_pos_from(
                files_model(files@),
                path@,
                i as int,
            ),
        decreases files.len() - i,
    {
        assert(files_model(files@)[i as int] == files@[i as int]@);
        if str_eq(files[i].path.as_str(), path) {
            return i;
        }
        i += 1;
    }
    i
}

impl Manifest {
    /// The first branch called `name`, or `BranchNotFound` with the name.
    pub fn find_branch(&self, name: &str) -> (out: Result<&Branch, MilieuError>)
        ensures
            match out {
                Ok(branch) => {
                    let at = key_pos(self@.branches, name@);
                    at < self.branches.len() && *branch == self.branches@[at]
                },
                Err(e) => key_pos(self@.branches, name@) == self.branches.len() && e@
                    == ErrorModel::BranchNotFound(name@),
            },
    {
        let at = branch_position(&self.branches, name);
        if at < self.branches.len() {
            Ok(&self.branches[at])
        } else {
            Err(MilieuError::BranchNotFound(String::from_str(name)))
        }
    }

    /// The first branch called `name`, for changing it in place, or
    /// `BranchNotFound` with the name. What the caller leaves in the branch is
    /// what the manifest then holds at that place; nothing else changes.
    pub fn find_branch_mut(&mut self, name: &str) -> (out: Result<&mut Branch, MilieuError>)
        ensures
            match out {
                Ok(branch) => {
                    let at = key_pos(old(self)@.branches, name@);
                    &&& at < old(self).branches.len()
                    &&& *branch == old(self).branches@[at]
                    &&& final(self).branches@ == old(self).branches@.update(at, *final(branch))
                    &&& final(self).version == old(self).version
                    &&& final(self).repo_id == old(self).repo_id
                    &&& final(self).repo_name == old(self).repo_name
                    &&& final(self).active_branch == old(self).active_branch
                    &&& final(self).remote == old(self).remote
                },
                Err(e) => {
                    &&& key_pos(old(self)@.branches, name@) == old(self).branches.len()
                    &&& e@ == ErrorModel::BranchNotFound(name@)
                    &&& *final(self) == *old(self)
                },
            },
    {
        let at = branch_position(&self.branches, name);
        if at < self.branches.len() {
            Ok(&mut self.branches[at])
        } else {
            Err(MilieuError::BranchNotFound(String::from_str(name)))
        }
    }

    /// Refuses a name that a branch already has.
    pub fn ensure_unique_branch(&self, name: &str) -> (out: Result<(), MilieuError>)
        ensures
            match out {
                Ok(_) => key_pos(self@.branches, name@) == self.branches.len(),
                Err(e) => key_pos(self@.branches, name@) < self.branches.len() && e@
                    == ErrorModel::CommandFailed("branch already exists: "@ + name@),
            },
    {
        let at = branch_position(&self.branches, name);
        if at < self.branches.len() {
            Err(MilieuError::CommandFailed(concat2("branch already exists: ", name)))
        } else {
            Ok(())
        }
    }

    /// A copy with every baseline cleared, as it is published to the remote.
    pub fn without_state(&self) -> (out: Self)
        ensures
            out@ == manifest_without_state(self@),
    {
        let mut branches: Vec<Branch> = Vec::new();
        let mut i: usize = 0;
        while i < self.branches.len()
            invariant
                i <= self.branches.len(),
                branches.len() == i,
                forall|j: int| 0 <= j < i ==> branches@[j]@ == branch_without_state(self.branches@[j]@),
            decreases self.branches.len() - i,
        {
            let source = &self.branches[i];
            let mut files: Vec<FileEntry> = Vec::new();
            let mut k: usize = 0;
            while k < source.files.len()
                invariant
                    k <= source.files.len(),
                    files.len() == k,
                    forall|j: int| 0 <= j < k ==> files@[j]@ == entry_without_state(source.files@[j]@),
                decreases source.files.len() - k,
            {
                let entry = &source.files[k];
                files.push(
                    FileEntry {
                        path: entry.path.clone(),
                        tag: opt_clone(&entry.tag),
                        last_synced_hash: None,
                        last_synced_version: None,
                    },
                );
                k += 1;
            }
            let branch = Branch { name: source.name.clone(), files };
            assert(branch@.files =~= branch_without_state(source@).files);
            branches.push(branch);
            i += 1;
        }
        let out = Manifest {
            version: self.version,
            repo_id: self.repo_id.clone(),
            repo_name: self.repo_name.clone(),
            active_branch: self.active_branch.clone(),
            branches,
            remote: clone_remote(&self.remote),
        };
        assert(out@.branches =~= manifest_without_state(self@).branches);
        out
    }
}

} // verus!
