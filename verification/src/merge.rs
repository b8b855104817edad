//! Merging the local manifest with the one that the remote holds.
//!
//! The result starts from the remote's branches, one per name. Each local branch
//! whose name is new is added as it is; each other one has its files merged
//! into the branch of that name, by path, the local entry winning. Identity and
//! active branch are the remote's; the remote override stays the local one.

use vstd::prelude::*;
use vstd::string::*;
use crate::keyed::{
    extends_keys, key_pos, keyed, lemma_key_pos_from, lemma_key_pos_is, lemma_keyed_of_unique,
    lemma_keyed_unique, lemma_put_all, lemma_put_all_members, lemma_put_all_onto_self, partly_put,
    put, put_all, unique_keys, Keyed,
};
use crate::manifest::{
    branch_position, branches_model, clone_branches, clone_remote, file_position,
    files_model, Branch, BranchModel, FileEntry, FileEntryModel, Manifest, ManifestModel,
};

verus! {

/// The files of a branch after a local branch of the same name was merged into
/// it: one entry per path, the local entry winning.
pub open spec fn merge_files(existing: Seq<FileEntryModel>, local: Seq<FileEntryModel>) -> Seq<
    FileEntryModel,
> {
    put_all(keyed(existing), local)
}

/// The branches after one local branch was taken in.
pub open spec fn absorb(acc: Seq<BranchModel>, local: BranchModel) -> Seq<BranchModel> {
    let at = key_pos(acc, local.name);
    if at < acc.len() {
        acc.update(
            at,
            BranchModel { name: acc[at].name, files: merge_files(acc[at].files, local.files) },
        )
    } else {
        acc.push(local)
    }
}

/// The branches after a run of local branches was taken in, first to last.
pub open spec fn absorb_all(acc: Seq<BranchModel>, locals: Seq<BranchModel>) -> Seq<BranchModel>
    decreases locals.len(),
{
    if locals.len() == 0 {
        acc
    } else {
        absorb_all(absorb(acc, locals[0]), locals.drop_first())
    }
}

/// The branches of the merged manifest, before the fallback for an empty list.
pub open spec fn merged_branches(local: Seq<BranchModel>, remote: Seq<BranchModel>) -> Seq<
    BranchModel,
> {
    absorb_all(keyed(remote), local)
}

/// The merged manifest.
pub open spec fn merge_spec(local: ManifestModel, remote: ManifestModel) -> ManifestModel {
    let merged = merged_branches(local.branches, remote.branches);
    ManifestModel {
        version: remote.version,
        repo_id: remote.repo_id,
        repo_name: remote.repo_name,
        active_branch: remote.active_branch,
        branches: if merged.len() == 0 {
            local.branches
        } else {
            merged
        },
        remote: local.remote,
    }
}

/// No branch of the manifest lists a path twice.
pub open spec fn paths_unique(branches: Seq<BranchModel>) -> bool {
    forall|i: int| 0 <= i < branches.len() ==> unique_keys((#[trigger] branches[i]).files)
}

/// `files` has one entry per path and starts with the paths of `seed`, one each,
/// in the order of `seed`.
pub open spec fn settled(seed: Seq<FileEntryModel>, files: Seq<FileEntryModel>) -> bool {
    unique_keys(files) && extends_keys(files, keyed(seed))
}

/// What holds of the branches while local branches are taken in: one branch per
/// name, the seeded names at their places, and each seeded branch settled.
pub open spec fn absorbing(acc: Seq<BranchModel>, seed: Seq<BranchModel>) -> bool {
    &&& unique_keys(acc)
    &&& extends_keys(acc, seed)
    &&& forall|i: int| 0 <= i < seed.len() ==> settled(seed[i].files, (#[trigger] acc[i]).files)
}

proof fn lemma_extends_trans<T: Keyed>(a: Seq<T>, b: Seq<T>, c: Seq<T>)
    requires
        extends_keys(a, b),
        extends_keys(b, c),
    ensures
        extends_keys(a, c),
{
    assert forall|i: int| 0 <= i < c.len() implies (#[trigger] a[i]).key() == c[i].key() by {
        assert(a[i].key() == b[i].key());
        assert(b[i].key() == c[i].key());
    }
}

proof fn lemma_absorb_keeps(acc: Seq<BranchModel>, local: BranchModel, seed: Seq<BranchModel>)
    requires
        absorbing(acc, seed),
    ensures
        absorbing(absorb(acc, local), seed),
        absorb(acc, local).len() >= 1,
{
    lemma_key_pos_from(acc, local.name, 0);
    let at = key_pos(acc, local.name);
    let out = absorb(acc, local);
    if at < acc.len() {
        let old_files = acc[at].files;
        let new_files = merge_files(old_files, local.files);
        assert forall|i: int, j: int| 0 <= i < j < out.len() implies (#[trigger] out[i]).key() != (
        #[trigger] out[j]).key() by {
            assert(out[i].key() == acc[i].key());
            assert(out[j].key() == acc[j].key());
        }
        assert forall|i: int| 0 <= i < seed.len() implies (#[trigger] out[i]).key()
            == seed[i].key() by {
            assert(out[i].key() == acc[i].key());
        }
        assert forall|i: int| 0 <= i < seed.len() implies settled(
            seed[i].files,
            (#[trigger] out[i]).files,
        ) by {
            assert(settled(seed[i].files, acc[i].files));
            if i == at {
                lemma_keyed_of_unique(old_files);
                lemma_put_all(old_files, local.files);
                lemma_extends_trans(new_files, old_files, keyed(seed[i].files));
            }
        }
    } else {
        assert forall|i: int, j: int| 0 <= i < j < out.len() implies (#[trigger] out[i]).key() != (
        #[trigger] out[j]).key() by {
            if j < acc.len() {
                assert(out[i] == acc[i] && out[j] == acc[j]);
            } else {
                assert(out[i] == acc[i]);
            }
        }
        assert forall|i: int| 0 <= i < seed.len() implies (#[trigger] out[i]).key()
            == seed[i].key() by {
            assert(out[i] == acc[i]);
        }
        assert forall|i: int| 0 <= i < seed.len() implies settled(
            seed[i].files,
            (#[trigger] out[i]).files,
        ) by {
            assert(out[i] == acc[i]);
        }
    }
}

proof fn lemma_absorb_all_keeps(acc: Seq<BranchModel>, locals: Seq<BranchModel>, seed: Seq<
    BranchModel,
>)
    requires
        absorbing(acc, seed),
    ensures
        absorbing(absorb_all(acc, locals), seed),
        absorb_all(acc, locals).len() >= acc.len(),
        locals.len() > 0 ==> absorb_all(acc, locals).len() >= 1,
    decreases locals.len(),
{
    if locals.len() > 0 {
        lemma_absorb_keeps(acc, locals[0], seed);
        lemma_absorb_all_keeps(absorb(acc, locals[0]), locals.drop_first(), seed);
        lemma_key_pos_from(acc, locals[0].name, 0);
    }
}

proof fn lemma_absorb_onto_self_from(seed: Seq<BranchModel>, goal: Seq<BranchModel>, n: int)
    requires
        absorbing(goal, seed),
        0 <= n <= goal.len(),
    ensures
        absorb_all(partly_put(seed, goal, n), goal.skip(n)) == goal,
    decreases goal.len() - n,
{
    let acc = partly_put(seed, goal, n);
    let rest = goal.skip(n);
    if n == goal.len() {
        assert(acc =~= goal);
        assert(rest.len() == 0);
    } else {
        let x = goal[n];
        assert(rest[0] == x);
        assert(rest.drop_first() =~= goal.skip(n + 1));
        assert forall|j: int| 0 <= j < n implies (#[trigger] acc[j]).key() != x.key() by {
            assert(acc[j] == goal[j]);
        }
        if n < seed.len() {
            assert(acc[n] == seed[n]);
            assert(goal[n].key() == seed[n].key());
            lemma_key_pos_is(acc, x.name, 0, n);
            assert(settled(seed[n].files, goal[n].files));
            lemma_put_all_onto_self(keyed(seed[n].files), goal[n].files);
            assert(merge_files(seed[n].files, x.files) == x.files);
            assert(BranchModel { name: seed[n].name, files: x.files } == x);
            assert(absorb(acc, x) =~= partly_put(seed, goal, n + 1));
        } else {
            assert(acc.len() == n);
            lemma_key_pos_is(acc, x.name, 0, n);
            assert(absorb(acc, x) =~= partly_put(seed, goal, n + 1));
        }
        lemma_absorb_onto_self_from(seed, goal, n + 1);
    }
}

/// Merging a merged manifest with the same remote once more changes nothing,
/// provided that no branch of the remote lists a path twice.
pub proof fn lemma_merge_idempotent(local: ManifestModel, remote: ManifestModel)
    requires
        paths_unique(remote.branches),
    ensures
        merge_spec(merge_spec(local, remote), remote) == merge_spec(local, remote),
{
    let seed = keyed(remote.branches);
    lemma_keyed_unique(remote.branches);
    lemma_put_all_members(Seq::<BranchModel>::empty(), remote.branches);
    assert forall|i: int| 0 <= i < seed.len() implies settled(
        seed[i].files,
        (#[trigger] seed[i]).files,
    ) by {
        let b = seed[i];
        assert(remote.branches.contains(b));
        let j = choose|j: int| 0 <= j < remote.branches.len() && remote.branches[j] == b;
        assert(unique_keys(remote.branches[j].files));
        lemma_keyed_of_unique(b.files);
    }
    assert(absorbing(seed, seed));
    lemma_absorb_all_keeps(seed, local.branches, seed);
    let merged = merged_branches(local.branches, remote.branches);
    let once = merge_spec(local, remote);
    if merged.len() == 0 {
        assert(local.branches.len() == 0);
        assert(seed.len() == 0);
        assert(once.branches =~= Seq::<BranchModel>::empty());
        assert(merged_branches(once.branches, remote.branches) =~= seed);
    } else {
        lemma_absorb_onto_self_from(seed, merged, 0);
        assert(partly_put(seed, merged, 0) =~= seed);
        assert(merged.skip(0) =~= merged);
    }
}

fn put_file(files: &mut Vec<FileEntry>, entry: FileEntry)
    ensures
        files_model(final(files)@) == put(files_model(old(files)@), entry@),
{
    let at = file_position(files, entry.path.as_str());
    if at < files.len() {
        files[at] = entry;
    } else {
        files.push(entry);
    }
    assert(files_model(files@) =~= put(files_model(old(files)@), entry@));
}

fn put_files(acc: &mut Vec<FileEntry>, files: &Vec<FileEntry>)
    ensures
        files_model(final(acc)@) == put_all(files_model(old(acc)@), files_model(files@)),
{
    let ghost all = files_model(files@);
    let ghost goal = put_all(files_model(acc@), all);
    assert(all.skip(0) =~= all);
    let mut i: usize = 0;
    while i < files.len()
        invariant
            i <= files.len(),
            all == files_model(files@),
            put_all(files_model(acc@), all.skip(i as int)) == goal,
        decreases files.len() - i,
    {
        assert(all.skip(i as int)[0] == files@[i as int]@);
        assert(all.skip(i as int).drop_first() =~= all.skip(i as int + 1));
        put_file(acc, files[i].clone());
        i += 1;
    }
    assert(all.skip(i as int).len() == 0);
}

/// The merged files of a branch: one entry per path of `existing`, then each
/// entry of `local` in place of the entry at its path, or at the end.
pub fn merge_file_lists(existing: &Vec<FileEntry>, local: &Vec<FileEntry>) -> (out: Vec<FileEntry>)
    ensures
        files_model(out@) == merge_files(files_model(existing@), files_model(local@)),
{
    let mut out: Vec<FileEntry> = Vec::new();
    assert(files_model(out@) =~= Seq::<FileEntryModel>::empty());
    put_files(&mut out, existing);
    put_files(&mut out, local);
    out
}

fn put_branch(acc: &mut Vec<Branch>, branch: Branch)
    ensures
        branches_model(final(acc)@) == put(branches_model(old(acc)@), branch@),
{
    let at = branch_position(acc, branch.name.as_str());
    if at < acc.len() {
        acc[at] = branch;
    } else {
        acc.push(branch);
    }
    assert(branches_model(acc@) =~= put(branches_model(old(acc)@), branch@));
}

fn absorb_branch(acc: &mut Vec<Branch>, local: &Branch)
    ensures
        branches_model(final(acc)@) == absorb(branches_model(old(acc)@), local@),
{
    let at = branch_position(acc, local.name.as_str());
    if at < acc.len() {
        let merged = Branch {
            name: acc[at].name.clone(),
            files: merge_file_lists(&acc[at].files, &local.files),
        };
        assert(branches_model(acc@)[at as int] == acc@[at as int]@);
        acc[at] = merged;
    } else {
        acc.push(local.clone());
    }
    assert(branches_model(acc@) =~= absorb(branches_model(old(acc)@), local@));
}

/// Merges the local manifest with the remote one.
pub fn merge_manifests(local: &Manifest, remote: &Manifest) -> (out: Manifest)
    ensures
        out@ == merge_spec(local@, remote@),
{
    let mut branches: Vec<Branch> = Vec::new();
    let ghost theirs = branches_model(remote.branches@);
    let ghost ours = branches_model(local.branches@);
    assert(branches_model(branches@) =~= Seq::<BranchModel>::empty());
    assert(theirs.skip(0) =~= theirs);
    assert(ours.skip(0) =~= ours);
    let mut i: usize = 0;
    while i < remote.branches.len()
        invariant
            i <= remote.branches.len(),
            theirs == branches_model(remote.branches@),
            put_all(branches_model(branches@), theirs.skip(i as int)) == keyed(theirs),
        decreases remote.branches.len() - i,
    {
        assert(theirs.skip(i as int)[0] == remote.branches@[i as int]@);
        assert(theirs.skip(i as int).drop_first() =~= theirs.skip(i as int + 1));
        put_branch(&mut branches, remote.branches[i].clone());
        i += 1;
    }
    assert(theirs.skip(i as int).len() == 0);
    let mut k: usize = 0;
    while k < local.branches.len()
        invariant
            k <= local.branches.len(),
            ours == branches_model(local.branches@),
            absorb_all(branches_model(branches@), ours.skip(k as int)) == merged_branches(
                ours,
                theirs,
            ),
        decreases local.branches.len() - k,
    {
        assert(ours.skip(k as int)[0] == local.branches@[k as int]@);
        assert(ours.skip(k as int).drop_first() =~= ours.skip(k as int + 1));
        absorb_branch(&mut branches, &local.branches[k]);
        k += 1;
    }
    assert(ours.skip(k as int).len() == 0);
    if branches.len() == 0 {
        branches = clone_branches(&local.branches);
    }
    Manifest {
        version: remote.version,
        repo_id: remote.repo_id.clone(),
        repo_name: remote.repo_name.clone(),
        active_branch: remote.active_branch.clone(),
        branches,
        remote: clone_remote(&local.remote),
    }
}

} // verus!
