//! Push: the size cap, the scan for drift on the remote, and the upload of each
//! file that differs from what the remote holds.

use vstd::prelude::*;
use vstd::string::*;
use vstd::utf8::encode_utf8;
use crate::api::{ObjectRequest, ObjectResponse};
use crate::b64::{base64_encode, base64_text, can_encode, encodable};
use crate::commands::pull::{object_aad, opt_slice};
use crate::crypto::{
    aad_for, decrypt_bytes, decrypt_spec, encrypt_with_nonce, encryptable, sealed_pair, NONCE_LEN,
    UMK_LEN,
};
use crate::digest::{baseline, baseline_of, blake3_digest, content_hash, hash_eq, hex_text, to_hex};
use crate::error::{ErrorModel, MilieuError};
use crate::manifest::{BranchModel, FileEntry, FileEntryModel, Manifest};
use crate::primitives::random_array;
use crate::repo::{env_path_error, valid_env_path, validate_env_path};
use crate::text::{concat2, concat3, decimal, decimal_text, str_eq};

verus! {

/// The most plaintext, in bytes, that the tracked files of a repository may hold
/// together: 1 MiB.
pub const MAX_REPO_BYTES: u64 = 1048576;

/// The sum of the sizes; a file that is not there counts as empty.
pub open spec fn total_size(sizes: Seq<Option<u64>>) -> nat
    decreases sizes.len(),
{
    if sizes.len() == 0 {
        0
    } else {
        total_size(sizes.drop_last()) + (match sizes.last() {
            Some(n) => n as nat,
            None => 0,
        })
    }
}

/// The complaint about a repository of `total` bytes.
pub open spec fn size_complaint(total: nat) -> Seq<char> {
    "repo size "@ + decimal_text(total) + " bytes exceeds 1MB cap"@
}

/// Accepts the sizes of the tracked files, one per distinct path, when they sum
/// to 1 MiB or less, and refuses them otherwise.
pub fn enforce_repo_size_limit(sizes: &Vec<Option<u64>>) -> (out: Result<(), MilieuError>)
    ensures
        out is Ok <==> total_size(sizes@) <= MAX_REPO_BYTES,
        out matches Err(e) ==> e@ == ErrorModel::CommandFailed(size_complaint(total_size(sizes@))),
{
    let mut total: u128 = 0;
    let mut i: usize = 0;
    while i < sizes.len()
        invariant
            i <= sizes.len(),
            total == total_size(sizes@.take(i as int)),
            total <= i * 0xffff_ffff_ffff_ffff,
        decreases sizes.len() - i,
    {
        let size: u64 = match sizes[i] {
            Some(n) => n,
            None => 0,
        };
        assert(sizes@.take(i as int + 1).drop_last() =~= sizes@.take(i as int));
        assert(total + size <= (i + 1) * 0xffff_ffff_ffff_ffff) by (nonlinear_arith)
            requires
                total <= i * 0xffff_ffff_ffff_ffff,
                size <= 0xffff_ffff_ffff_ffff,
        ;
        assert((i + 1) * 0xffff_ffff_ffff_ffff <= u128::MAX) by (nonlinear_arith)
            requires
                i + 1 <= 0x1_0000_0000_0000_0000,
        ;
        total = total + size as u128;
        i += 1;
    }
    assert(sizes@.take(i as int) =~= sizes@);
    if total > MAX_REPO_BYTES as u128 {
        let number = decimal(total);
        Err(
            MilieuError::CommandFailed(
                concat3("repo size ", number.as_str(), " bytes exceeds 1MB cap"),
            ),
        )
    } else {
        Ok(())
    }
}

/// The paths of a run of entries.
pub open spec fn paths_of(files: Seq<FileEntryModel>) -> Seq<Seq<char>> {
    Seq::new(files.len(), |i: int| files[i].path)
}

/// The paths of every branch in a row, branch by branch.
pub open spec fn all_paths(branches: Seq<BranchModel>) -> Seq<Seq<char>>
    decreases branches.len(),
{
    if branches.len() == 0 {
        Seq::empty()
    } else {
        all_paths(branches.drop_last()) + paths_of(branches.last().files)
    }
}

/// The paths without repeats, each at the place of its first occurrence.
pub open spec fn distinct(paths: Seq<Seq<char>>) -> Seq<Seq<char>>
    decreases paths.len(),
{
    if paths.len() == 0 {
        Seq::empty()
    } else {
        let before = distinct(paths.drop_last());
        if before.contains(paths.last()) {
            before
        } else {
            before.push(paths.last())
        }
    }
}

/// The complaint about the first path of the run that may not be tracked.
pub open spec fn first_path_error(paths: Seq<Seq<char>>) -> Option<Seq<char>>
    decreases paths.len(),
{
    if paths.len() == 0 {
        None
    } else {
        match first_path_error(paths.drop_last()) {
            Some(text) => Some(text),
            None => env_path_error(paths.last()),
        }
    }
}

/// The views of a run of strings.
pub open spec fn strings_view(v: Seq<String>) -> Seq<Seq<char>> {
    Seq::new(v.len(), |i: int| v[i]@)
}

fn holds(seen: &Vec<String>, path: &str) -> (found: bool)
    ensures
        found == strings_view(seen@).contains(path@),
{
    let mut i: usize = 0;
    while i < seen.len()
        invariant
            i <= seen.len(),
            forall|j: int| 0 <= j < i ==> strings_view(seen@)[j] != path@,
        decreases seen.len() - i,
    {
        if str_eq(seen[i].as_str(), path) {
            assert(strings_view(seen@)[i as int] == path@);
            return true;
        }
        i += 1;
    }
    false
}

/// The distinct paths that the manifest tracks over all its branches, each at
/// the place of its first occurrence, once each of them was validated. The
/// first path that may not be tracked aborts with its complaint.
pub fn tracked_paths(manifest: &Manifest) -> (out: Result<Vec<String>, MilieuError>)
    ensures
        match out {
            Ok(paths) => {
                &&& strings_view(paths@) == distinct(all_paths(manifest@.branches))
                &&& first_path_error(distinct(all_paths(manifest@.branches))) is None
            },
            Err(e) => first_path_error(distinct(all_paths(manifest@.branches))) matches Some(text)
                && e@ == ErrorModel::CommandFailed(text),
        },
{
    let ghost branches = manifest@.branches;
    let mut seen: Vec<String> = Vec::new();
    let mut i: usize = 0;
    assert(branches.take(0) =~= Seq::<BranchModel>::empty());
    assert(strings_view(seen@) =~= Seq::<Seq<char>>::empty());
    while i < manifest.branches.len()
        invariant
            i <= manifest.branches.len(),
            branches == manifest@.branches,
            strings_view(seen@) == distinct(all_paths(branches.take(i as int))),
            first_path_error(strings_view(seen@)) is None,
        decreases manifest.branches.len() - i,
    {
        let branch = &manifest.branches[i];
        let ghost before = all_paths(branches.take(i as int));
        let ghost these = paths_of(branch@.files);
        assert(branches[i as int] == branch@);
        assert(branches.take(i as int + 1).drop_last() =~= branches.take(i as int));
        assert(these.take(0) =~= Seq::<Seq<char>>::empty());
        assert(before + these.take(0) =~= before);
        assert(all_paths(branches.take(i as int + 1)) == before + these);
        let mut k: usize = 0;
        while k < branch.files.len()
            invariant
                k <= branch.files.len(),
                i < branches.len(),
                branches == manifest@.branches,
                all_paths(branches.take(i as int + 1)) == before + these,
                these == paths_of(branch@.files),
                strings_view(seen@) == distinct(before + these.take(k as int)),
                first_path_error(strings_view(seen@)) is None,
            decreases branch.files.len() - k,
        {
            let path = branch.files[k].path();
            assert(path@ == these[k as int]);
            let ghost upto = before + these.take(k as int);
            let ghost next = before + these.take(k as int + 1);
            assert(next.drop_last() =~= upto);
            assert(next.last() == path@);
            if !holds(&seen, path) {
                let ghost old_view = strings_view(seen@);
                match validate_env_path(path) {
                    Err(e) => {
                        proof {
                            let full = distinct(all_paths(branches));
                            let whole = all_paths(branches.take(i as int + 1));
                            assert(distinct(next) == old_view.push(path@));
                            assert(distinct(next).drop_last() =~= old_view);
                            assert(first_path_error(distinct(next)) == env_path_error(path@));
                            assert((before + these).take(next.len() as int) =~= next);
                            lemma_distinct_grows(next, whole);
                            lemma_all_paths_grows(branches, i as int + 1);
                            lemma_distinct_grows(whole, all_paths(branches));
                            lemma_prefix_trans(distinct(next), distinct(whole), full);
                            lemma_first_error_prefix(distinct(next), full);
                        }
                        return Err(e);
                    },
                    Ok(_) => {},
                }
                seen.push(String::from_str(path));
                assert(strings_view(seen@) =~= old_view.push(path@));
                assert(strings_view(seen@).drop_last() =~= old_view);
            }
            k += 1;
        }
        assert(these.take(k as int) =~= these);
        i += 1;
    }
    assert(branches.take(i as int) =~= branches);
    Ok(seen)
}

/// `a` comes first in `b`.
pub open spec fn is_prefix(a: Seq<Seq<char>>, b: Seq<Seq<char>>) -> bool {
    a.len() <= b.len() && a == b.take(a.len() as int)
}

proof fn lemma_prefix_trans(a: Seq<Seq<char>>, b: Seq<Seq<char>>, c: Seq<Seq<char>>)
    requires
        is_prefix(a, b),
        is_prefix(b, c),
    ensures
        is_prefix(a, c),
{
    assert(a =~= c.take(a.len() as int));
}

proof fn lemma_distinct_step(paths: Seq<Seq<char>>, more: Seq<Seq<char>>)
    ensures
        is_prefix(distinct(paths), distinct(paths + more)),
    decreases more.len(),
{
    if more.len() == 0 {
        assert(paths + more =~= paths);
        assert(distinct(paths).take(distinct(paths).len() as int) =~= distinct(paths));
    } else {
        let all = paths + more;
        assert(all.drop_last() =~= paths + more.drop_last());
        lemma_distinct_step(paths, more.drop_last());
        let mid = distinct(paths + more.drop_last());
        let d = distinct(paths);
        assert(d == mid.take(d.len() as int));
        if !mid.contains(all.last()) {
            assert(mid.push(all.last()).take(d.len() as int) =~= mid.take(d.len() as int));
        }
    }
}

/// The distinct paths of a run come first among the distinct paths of any longer
/// run.
proof fn lemma_distinct_grows(paths: Seq<Seq<char>>, longer: Seq<Seq<char>>)
    requires
        is_prefix(paths, longer),
    ensures
        is_prefix(distinct(paths), distinct(longer)),
{
    let more = longer.skip(paths.len() as int);
    assert(paths + more =~= longer);
    lemma_distinct_step(paths, more);
}

proof fn lemma_all_paths_grows(branches: Seq<BranchModel>, n: int)
    requires
        0 <= n <= branches.len(),
    ensures
        is_prefix(all_paths(branches.take(n)), all_paths(branches)),
    decreases branches.len() - n,
{
    let a = all_paths(branches.take(n));
    if n == branches.len() {
        assert(branches.take(n) =~= branches);
        assert(a.take(a.len() as int) =~= a);
    } else {
        lemma_all_paths_grows(branches, n + 1);
        let b = all_paths(branches.take(n + 1));
        assert(branches.take(n + 1).drop_last() =~= branches.take(n));
        assert(b == a + paths_of(branches[n].files));
        let c = all_paths(branches);
        assert(b == c.take(b.len() as int));
        assert(a =~= c.take(a.len() as int));
    }
}

/// An error among the first paths of a run is the first error of the run.
proof fn lemma_first_error_prefix(head: Seq<Seq<char>>, all: Seq<Seq<char>>)
    requires
        is_prefix(head, all),
        first_path_error(head) is Some,
    ensures
        first_path_error(all) == first_path_error(head),
    decreases all.len(),
{
    if head.len() < all.len() {
        assert(all.drop_last().take(head.len() as int) =~= all.take(head.len() as int));
        lemma_first_error_prefix(head, all.drop_last());
    } else {
        assert(all.take(all.len() as int) =~= all);
    }
}

/// Whether the remote has drifted: with a baseline, its content is no longer the
/// baseline; without one, its content is not the local content.
pub open spec fn push_conflict(local: Seq<u8>, base: Option<Seq<u8>>, remote: Seq<u8>) -> bool {
    match base {
        None => local != remote,
        Some(b) => remote != b,
    }
}

/// Whether the remote has drifted, from the three hashes.
pub fn is_push_conflict(local: &[u8; 32], base: Option<[u8; 32]>, remote: &[u8; 32]) -> (out: bool)
    ensures
        out == push_conflict(local@, crate::commands::pull::opt_hash(base), remote@),
{
    match base {
        None => !hash_eq(local, remote),
        Some(b) => !hash_eq(remote, &b),
    }
}

/// The plaintext of the latest remote object as push reads it: under the
/// associated data of schema version 1 for the place of `entry`.
pub open spec fn pushed_plain(
    key: Seq<u8>,
    repo_id: Seq<char>,
    branch: Seq<char>,
    entry: FileEntryModel,
    remote: Option<&ObjectResponse>,
) -> Option<Result<Seq<u8>, ErrorModel>> {
    match remote {
        None => None,
        Some(obj) => Some(
            decrypt_spec(key, object_aad(1, repo_id, branch, entry), obj.nonce@, obj.ciphertext@),
        ),
    }
}

/// What the scan finds for one file: whether it is in conflict, or why the push
/// cannot go on.
pub open spec fn scan_spec(
    entry: FileEntryModel,
    local: Option<Seq<u8>>,
    remote: Option<Result<Seq<u8>, ErrorModel>>,
) -> Result<bool, ErrorModel> {
    match env_path_error(entry.path) {
        Some(text) => Err(ErrorModel::CommandFailed(text)),
        None => match local {
            None => Err(ErrorModel::CommandFailed("missing file: "@ + entry.path)),
            Some(data) => match remote {
                None => Ok(false),
                Some(Err(_)) => Err(
                    ErrorModel::CommandFailed(
                        "failed to decrypt remote for "@ + entry.path + "; run `milieu pull`"@,
                    ),
                ),
                Some(Ok(plain)) => Ok(
                    push_conflict(
                        blake3_digest(data),
                        baseline_of(entry.last_synced_hash),
                        blake3_digest(plain),
                    ),
                ),
            },
        },
    }
}

/// A file whose remote content no longer has the hash of the baseline is found
/// in conflict, whatever its local content is: the scan then holds its path, and
/// a scan that holds a path rejects the push before anything is uploaded.
pub proof fn lemma_drift_is_conflict(
    entry: FileEntryModel,
    local: Seq<u8>,
    remote: Seq<u8>,
    base: Seq<u8>,
)
    requires
        valid_env_path(entry.path),
        baseline_of(entry.last_synced_hash) == Some(base),
        blake3_digest(remote) != base,
    ensures
        scan_spec(entry, Some(local), Some(Ok(remote))) == Ok::<bool, ErrorModel>(true),
{
}

/// The view of the outcome of a scan of one file.
pub open spec fn flag_view(out: Result<bool, MilieuError>) -> Result<bool, ErrorModel> {
    match out {
        Ok(b) => Ok(b),
        Err(e) => Err(e@),
    }
}

/// Scans one file before a push: validates its path, asks for its local
/// content, decrypts the latest remote object if there is one, and says whether
/// the remote has drifted from the baseline.
pub fn scan_entry(
    entry: &FileEntry,
    repo_id: &str,
    branch: &str,
    repo_key: &[u8; UMK_LEN],
    local: Option<&[u8]>,
    remote: Option<&ObjectResponse>,
) -> (out: Result<bool, MilieuError>)
    ensures
        flag_view(out) == scan_spec(
            entry@,
            opt_slice(local),
            pushed_plain(repo_key@, repo_id@, branch@, entry@, remote),
        ),
{
    let path = entry.path();
    match validate_env_path(path) {
        Err(e) => {
            return Err(e);
        },
        Ok(_) => {},
    }
    let data = match local {
        None => {
            return Err(MilieuError::CommandFailed(concat2("missing file: ", path)));
        },
        Some(data) => data,
    };
    let obj = match remote {
        None => {
            return Ok(false);
        },
        Some(obj) => obj,
    };
    let aad = aad_for(1, repo_id, branch, path, entry.tag());
    match decrypt_bytes(repo_key, aad.as_slice(), obj.nonce.as_str(), obj.ciphertext.as_str()) {
        Err(_) => Err(
            MilieuError::CommandFailed(
                concat3("failed to decrypt remote for ", path, "; run `milieu pull`"),
            ),
        ),
        Ok(plain) => {
            let local_hash = content_hash(data);
            let remote_hash = content_hash(plain.as_slice());
            let base = baseline(&entry.last_synced_hash);
            Ok(is_push_conflict(&local_hash, base, &remote_hash))
        },
    }
}

/// The list of conflicts as it is shown: one line per path.
pub open spec fn conflict_lines(paths: Seq<Seq<char>>) -> Seq<char>
    decreases paths.len(),
{
    if paths.len() == 0 {
        Seq::empty()
    } else {
        conflict_lines(paths.drop_last()) + "\n  - "@ + paths.last()
    }
}

/// The complaint of a push that found conflicts.
pub open spec fn conflict_report(paths: Seq<Seq<char>>) -> Seq<char> {
    "remote has new changes; run `milieu pull` first:"@ + conflict_lines(paths)
}

/// The conflicts that the scan of a branch has found so far.
pub struct PushScan {
    conflicts: Vec<String>,
}

/// The proof that a scan found no conflict. Only `PushScan::finish` makes one,
/// and nothing is prepared for upload without it.
pub struct PushClearance {
    sealed: (),
}

impl View for PushScan {
    type V = Seq<Seq<char>>;

    closed spec fn view(&self) -> Seq<Seq<char>> {
        strings_view(self.conflicts@)
    }
}

impl PushScan {
    /// A scan that has seen no file yet.
    pub fn new() -> (out: PushScan)
        ensures
            out@ == Seq::<Seq<char>>::empty(),
    {
        let out = PushScan { conflicts: Vec::new() };
        assert(out@ =~= Seq::<Seq<char>>::empty());
        out
    }

    /// The paths found in conflict so far.
    pub fn conflicts(&self) -> (out: &Vec<String>)
        ensures
            strings_view(out@) == self@,
    {
        &self.conflicts
    }

    /// Scans one more file and keeps its path if the remote has drifted from its
    /// baseline. An error leaves the scan as it was.
    pub fn scan(
        &mut self,
        entry: &FileEntry,
        repo_id: &str,
        branch: &str,
        repo_key: &[u8; UMK_LEN],
        local: Option<&[u8]>,
        remote: Option<&ObjectResponse>,
    ) -> (out: Result<(), MilieuError>)
        ensures
            match scan_spec(
                entry@,
                opt_slice(local),
                pushed_plain(repo_key@, repo_id@, branch@, entry@, remote),
            ) {
                Ok(true) => out is Ok && final(self)@ == old(self)@.push(entry@.path),
                Ok(false) => out is Ok && final(self)@ == old(self)@,
                Err(e) => out matches Err(f) && f@ == e && final(self)@ == old(self)@,
            },
    {
        match scan_entry(entry, repo_id, branch, repo_key, local, remote) {
            Err(e) => Err(e),
            Ok(false) => Ok(()),
            Ok(true) => {
                self.conflicts.push(String::from_str(entry.path()));
                assert(self@ =~= old(self)@.push(entry@.path));
                Ok(())
            },
        }
    }

    /// Ends the scan: clears the push when no file is in conflict, and otherwise
    /// rejects it with the list of the files that are.
    pub fn finish(&self) -> (out: Result<PushClearance, MilieuError>)
        ensures
            out is Ok <==> self@.len() == 0,
            out matches Err(e) ==> e@ == ErrorModel::CommandFailed(conflict_report(self@)),
    {
        if self.conflicts.len() == 0 {
            return Ok(PushClearance { sealed: () });
        }
        let mut message = String::from_str("remote has new changes; run `milieu pull` first:");
        let mut i: usize = 0;
        assert(self@.take(0) =~= Seq::<Seq<char>>::empty());
        while i < self.conflicts.len()
            invariant
                i <= self.conflicts.len(),
                message@ == conflict_report(self@.take(i as int)),
            decreases self.conflicts.len() - i,
        {
            assert(self@.take(i as int + 1).drop_last() =~= self@.take(i as int));
            assert(self@.take(i as int + 1).last() == self.conflicts@[i as int]@);
            message.append("\n  - ");
            message.append(self.conflicts[i].as_str());
            i += 1;
        }
        assert(self@.take(i as int) =~= self@);
        Err(MilieuError::CommandFailed(message))
    }
}

/// Whether two byte strings are the same.
pub fn bytes_eq(a: &[u8], b: &[u8]) -> (same: bool)
    ensures
        same == (a@ == b@),
{
    if a.len() != b.len() {
        return false;
    }
    let mut i: usize = 0;
    while i < a.len()
        invariant
            i <= a.len(),
            a.len() == b.len(),
            forall|j: int| 0 <= j < i ==> a@[j] == b@[j],
        decreases a.len() - i,
    {
        if a[i] != b[i] {
            return false;
        }
        i += 1;
    }
    assert(a@ =~= b@);
    true
}

/// What the upload pass does with one file.
#[derive(Debug)]
pub enum UploadStep {
    /// The remote already holds the local content; the entry was marked as
    /// synced and nothing is sent.
    Unchanged,
    /// Send this object; then record the version that the remote assigns.
    Upload(ObjectRequest),
}

/// Whether `request` is the object that carries `data` for the place of `entry`
/// under `key`, sealed with `nonce`.
pub open spec fn is_upload_of(
    request: ObjectRequest,
    key: Seq<u8>,
    nonce: Seq<u8>,
    repo_id: Seq<char>,
    branch: Seq<char>,
    entry: FileEntryModel,
    data: Seq<u8>,
    created_at: Seq<char>,
) -> bool {
    let aad = object_aad(1, repo_id, branch, entry);
    let pair = sealed_pair(key, nonce, aad, data);
    &&& request.path@ == entry.path
    &&& request.nonce@ == pair.0
    &&& request.ciphertext@ == pair.1
    &&& request.aad@ == base64_text(aad)
    &&& request.ciphertext_hash@ == hex_text(blake3_digest(encode_utf8(pair.1)))
    &&& request.created_at@ == created_at
    &&& request.schema_version == 1
    &&& decrypt_spec(key, aad, request.nonce@, request.ciphertext@) == Ok::<Seq<u8>, ErrorModel>(
        data,
    )
}

/// The entry once it is known that both sides hold `data`.
pub open spec fn synced_to(entry: FileEntryModel, data: Seq<u8>, version: Option<u32>) -> FileEntryModel {
    FileEntryModel {
        last_synced_hash: Some(hex_text(blake3_digest(data))),
        last_synced_version: version,
        ..entry
    }
}

/// The upload pass for one file, with the nonce to seal under.
///
/// A path that may not be tracked, a missing local file and a remote object
/// that does not decrypt abort with the entry unchanged. Where the remote
/// content is exactly the local content, the entry is marked as synced at the
/// remote's version and nothing is sent. Otherwise the local content is sealed
/// for the place of the entry; the entry changes only once the caller records
/// the version that the remote assigned.
pub fn prepare_upload_with(
    clearance: &PushClearance,
    entry: &mut FileEntry,
    repo_id: &str,
    branch: &str,
    repo_key: &[u8; UMK_LEN],
    local: Option<&[u8]>,
    remote: Option<&ObjectResponse>,
    created_at: &str,
    nonce: &[u8; NONCE_LEN],
) -> (out: Result<UploadStep, MilieuError>)
    ensures
        match out {
            Ok(UploadStep::Unchanged) => {
                &&& valid_env_path(old(entry)@.path)
                &&& local matches Some(data) && pushed_plain(
                    repo_key@,
                    repo_id@,
                    branch@,
                    old(entry)@,
                    remote,
                ) == Some(Ok::<Seq<u8>, ErrorModel>(data@)) && final(entry)@ == synced_to(
                    old(entry)@,
                    data@,
                    remote->0.version,
                )
            },
            Ok(UploadStep::Upload(request)) => {
                &&& valid_env_path(old(entry)@.path)
                &&& final(entry)@ == old(entry)@
                &&& local matches Some(data) && is_upload_of(
                    request,
                    repo_key@,
                    nonce@,
                    repo_id@,
                    branch@,
                    old(entry)@,
                    data@,
                    created_at@,
                ) && pushed_plain(repo_key@, repo_id@, branch@, old(entry)@, remote) != Some(
                    Ok::<Seq<u8>, ErrorModel>(data@),
                )
            },
            Err(e) => {
                &&& final(entry)@ == old(entry)@
                &&& upload_error(
                    old(entry)@,
                    opt_slice(local),
                    pushed_plain(repo_key@, repo_id@, branch@, old(entry)@, remote),
                    object_aad(1, repo_id@, branch@, old(entry)@),
                ) == Some(e@)
            },
        },
        out is Err <==> upload_error(
            old(entry)@,
            opt_slice(local),
            pushed_plain(repo_key@, repo_id@, branch@, old(entry)@, remote),
            object_aad(1, repo_id@, branch@, old(entry)@),
        ) is Some,
{
    let ghost before = entry@;
    match validate_env_path(entry.path()) {
        Err(e) => {
            return Err(e);
        },
        Ok(_) => {},
    }
    let data = match local {
        None => {
            return Err(MilieuError::CommandFailed(concat2("missing file: ", entry.path())));
        },
        Some(data) => data,
    };
    let aad = aad_for(1, repo_id, branch, entry.path(), entry.tag());
    match remote {
        Some(obj) => {
            let plain = match decrypt_bytes(
                repo_key,
                aad.as_slice(),
                obj.nonce.as_str(),
                obj.ciphertext.as_str(),
            ) {
                Err(e) => {
                    return Err(e);
                },
                Ok(bytes) => bytes,
            };
            if bytes_eq(plain.as_slice(), data) {
                let remote_hash = content_hash(plain.as_slice());
                entry.set_synced(to_hex(&remote_hash), obj.version);
                return Ok(UploadStep::Unchanged);
            }
        },
        None => {},
    }
    if !can_encode(aad.len()) {
        return Err(MilieuError::crypto("associated data too long"));
    }
    let (nonce_b64, sealed_b64) = match encrypt_with_nonce(repo_key, nonce, aad.as_slice(), data) {
        Err(e) => {
            return Err(e);
        },
        Ok(pair) => pair,
    };
    let sealed_hash = content_hash(sealed_b64.as_str().as_bytes());
    let request = ObjectRequest {
        path: String::from_str(entry.path()),
        nonce: nonce_b64,
        ciphertext: sealed_b64,
        aad: base64_encode(aad.as_slice()),
        ciphertext_hash: to_hex(&sealed_hash),
        created_at: String::from_str(created_at),
        schema_version: 1,
    };
    Ok(UploadStep::Upload(request))
}

/// Why the upload pass stops at a file; `None` where it goes on.
pub open spec fn upload_error(
    entry: FileEntryModel,
    local: Option<Seq<u8>>,
    remote: Option<Result<Seq<u8>, ErrorModel>>,
    aad: Seq<u8>,
) -> Option<ErrorModel> {
    match env_path_error(entry.path) {
        Some(text) => Some(ErrorModel::CommandFailed(text)),
        None => match local {
            None => Some(ErrorModel::CommandFailed("missing file: "@ + entry.path)),
            Some(data) => match remote {
                Some(Err(e)) => Some(e),
                Some(Ok(plain)) if plain == data => None,
                _ => if !encodable(aad.len()) {
                    Some(ErrorModel::Crypto("associated data too long"@))
                } else if !encryptable(data.len()) {
                    Some(ErrorModel::Crypto("encrypt: aead::Error"@))
                } else {
                    None
                },
            },
        },
    }
}

/// The upload pass for one file, sealing under a fresh random nonce. See
/// `prepare_upload_with`; whatever nonce was drawn, the object sent decrypts to
/// the local content under the associated data of the entry's place.
pub fn prepare_upload(
    clearance: &PushClearance,
    entry: &mut FileEntry,
    repo_id: &str,
    branch: &str,
    repo_key: &[u8; UMK_LEN],
    local: Option<&[u8]>,
    remote: Option<&ObjectResponse>,
    created_at: &str,
) -> (out: Result<UploadStep, MilieuError>)
    ensures
        match out {
            Ok(UploadStep::Unchanged) => {
                local matches Some(data) && pushed_plain(
                    repo_key@,
                    repo_id@,
                    branch@,
                    old(entry)@,
                    remote,
                ) == Some(Ok::<Seq<u8>, ErrorModel>(data@)) && final(entry)@ == synced_to(
                    old(entry)@,
                    data@,
                    remote->0.version,
                )
            },
            Ok(UploadStep::Upload(request)) => {
                &&& final(entry)@ == old(entry)@
                &&& local matches Some(data) && exists|nonce: Seq<u8>| #[trigger]
                    is_upload_of(
                        request,
                        repo_key@,
                        nonce,
                        repo_id@,
                        branch@,
                        old(entry)@,
                        data@,
                        created_at@,
                    )
            },
            Err(e) => final(entry)@ == old(entry)@,
        },
        out is Err <==> upload_error(
            old(entry)@,
            opt_slice(local),
            pushed_plain(repo_key@, repo_id@, branch@, old(entry)@, remote),
            object_aad(1, repo_id@, branch@, old(entry)@),
        ) is Some,
{
    let nonce: [u8; 24] = random_array::<24>();
    prepare_upload_with(clearance, entry, repo_id, branch, repo_key, local, remote, created_at, &nonce)
}

/// Records that the remote took the local content as the given version. The
/// baseline recorded reads back as the hash of the local content.
pub fn record_upload(entry: &mut FileEntry, local: &[u8], version: Option<u32>)
    ensures
        final(entry)@ == synced_to(old(entry)@, local@, version),
        baseline_of(final(entry)@.last_synced_hash) == Some(blake3_digest(local@)),
{
    let hash = content_hash(local);
    proof {
        crate::digest::lemma_hex_round_trip(hash@);
    }
    entry.set_synced(to_hex(&hash), version);
}

} // verus!
