//! Pull: reconciling one tracked file with the latest object of the remote.

use vstd::prelude::*;
use vstd::string::*;
use vstd::utf8::encode_utf8;
use crate::api::ObjectResponse;
use crate::b64::{base64_encode, base64_text, can_encode, encodable};
use crate::crypto::{aad_for, aad_text, decrypt_bytes, decrypt_spec, UMK_LEN};
use crate::digest::{
    baseline, baseline_of, blake3_digest, content_hash, hash_eq, hex_text, lemma_hex_round_trip,
    to_hex, HASH_LEN,
};
use crate::error::{ErrorModel, MilieuError};
use crate::manifest::{FileEntry, FileEntryModel};
use crate::primitives::{lossy_text, utf8_lossy};
use crate::repo::{env_path_error, validate_env_path};
use crate::text::{concat2, str_eq};

pub use crate::merge::merge_manifests;

verus! {

/// What a pull does with one file.
#[derive(Debug, Clone, Copy, PartialEq, Eq, Structural)]
pub enum PullKind {
    /// The remote content replaces the local file, or creates it.
    Pulled,
    /// Both sides hold the same content; nothing is written.
    UpToDate,
    /// Only the local side changed; the file stays as it is.
    KeptLocal,
    /// Both sides changed; both contents are written with markers.
    Conflict,
}

/// The three-way table: the hash of the local file if there is one, the baseline
/// if there is one, and the hash of the remote content.
pub open spec fn pull_kind(local: Option<Seq<u8>>, base: Option<Seq<u8>>, remote: Seq<u8>) -> PullKind {
    match local {
        None => PullKind::Pulled,
        Some(l) => match base {
            None => if l == remote {
                PullKind::UpToDate
            } else {
                PullKind::Conflict
            },
            Some(b) => if l == b {
                PullKind::Pulled
            } else if remote == b {
                PullKind::KeptLocal
            } else if l == remote {
                PullKind::UpToDate
            } else {
                PullKind::Conflict
            },
        },
    }
}

/// The view of an optional hash.
pub open spec fn opt_hash(h: Option<[u8; HASH_LEN]>) -> Option<Seq<u8>> {
    match h {
        Some(x) => Some(x@),
        None => None,
    }
}

/// Looks a file up in the three-way table.
pub fn decide_pull(
    local: Option<[u8; HASH_LEN]>,
    base: Option<[u8; HASH_LEN]>,
    remote: &[u8; HASH_LEN],
) -> (out: PullKind)
    ensures
        out == pull_kind(opt_hash(local), opt_hash(base), remote@),
{
    match local {
        None => PullKind::Pulled,
        Some(l) => match base {
            None => if hash_eq(&l, remote) {
                PullKind::UpToDate
            } else {
                PullKind::Conflict
            },
            Some(b) => if hash_eq(&l, &b) {
                PullKind::Pulled
            } else if hash_eq(remote, &b) {
                PullKind::KeptLocal
            } else if hash_eq(&l, remote) {
                PullKind::UpToDate
            } else {
                PullKind::Conflict
            },
        },
    }
}

/// The content written on a conflict: the local text and the remote text between
/// markers.
pub open spec fn conflict_text(local: Seq<u8>, remote: Seq<u8>) -> Seq<char> {
    "<<<<<<< local\n"@ + utf8_lossy(local) + "\n=======\n"@ + utf8_lossy(remote)
        + "\n>>>>>>> remote\n"@
}

/// The content written on a conflict, as bytes.
pub fn conflict_content(local: &[u8], remote: &[u8]) -> (out: Vec<u8>)
    ensures
        out@ == encode_utf8(conflict_text(local@, remote@)),
{
    let mut text = String::from_str("<<<<<<< local\n");
    let ours = lossy_text(local);
    let theirs = lossy_text(remote);
    text.append(ours.as_str());
    text.append("\n=======\n");
    text.append(theirs.as_str());
    text.append("\n>>>>>>> remote\n");
    text.as_str().as_bytes_vec()
}

/// The associated data that an object at this place must carry.
pub open spec fn object_aad(
    schema_version: u32,
    repo_id: Seq<char>,
    branch: Seq<char>,
    entry: FileEntryModel,
) -> Seq<u8> {
    encode_utf8(aad_text(schema_version, repo_id, branch, entry.path, entry.tag))
}

/// Whether the associated data that the remote stored with an object is the one
/// that belongs to this place.
pub open spec fn aad_matches(stored: Seq<char>, expected: Seq<u8>) -> bool {
    encodable(expected.len()) && stored == base64_text(expected)
}

/// The plaintext of a remote object that must sit at the place of `entry`: an
/// object whose stored associated data names another place is refused before
/// anything is decrypted.
pub open spec fn checked_plain(
    key: Seq<u8>,
    repo_id: Seq<char>,
    branch: Seq<char>,
    entry: FileEntryModel,
    schema_version: u32,
    stored_aad: Seq<char>,
    nonce: Seq<char>,
    ciphertext: Seq<char>,
) -> Result<Seq<u8>, ErrorModel> {
    let aad = object_aad(schema_version, repo_id, branch, entry);
    if !aad_matches(stored_aad, aad) {
        Err(ErrorModel::Crypto("aad mismatch for "@ + entry.path))
    } else {
        decrypt_spec(key, aad, nonce, ciphertext)
    }
}

/// What a pull leaves to do for one file.
#[derive(Debug)]
pub enum PullStep {
    /// The remote has no object for the file; nothing changes.
    MissingRemote,
    /// Write these bytes, the remote content, to the file.
    Write(Vec<u8>),
    /// Write these bytes, both contents between markers, to the file.
    WriteConflict(Vec<u8>),
    /// Leave the file: both sides agree.
    UpToDate,
    /// Leave the file: only the local side changed.
    KeepLocal,
}

/// A `PullStep` with its bytes as a sequence.
pub enum PullStepModel {
    MissingRemote,
    Write(Seq<u8>),
    WriteConflict(Seq<u8>),
    UpToDate,
    KeepLocal,
}

impl View for PullStep {
    type V = PullStepModel;

    open spec fn view(&self) -> PullStepModel {
        match self {
            PullStep::MissingRemote => PullStepModel::MissingRemote,
            PullStep::Write(b) => PullStepModel::Write(b@),
            PullStep::WriteConflict(b) => PullStepModel::WriteConflict(b@),
            PullStep::UpToDate => PullStepModel::UpToDate,
            PullStep::KeepLocal => PullStepModel::KeepLocal,
        }
    }
}

/// The step that the table asks for, given the local content if there is any and
/// the remote content.
pub open spec fn step_for(kind: PullKind, local: Option<Seq<u8>>, plain: Seq<u8>) -> PullStepModel {
    match kind {
        PullKind::Pulled => PullStepModel::Write(plain),
        PullKind::UpToDate => PullStepModel::UpToDate,
        PullKind::KeptLocal => PullStepModel::KeepLocal,
        PullKind::Conflict => PullStepModel::WriteConflict(
            encode_utf8(conflict_text(local.unwrap(), plain)),
        ),
    }
}

/// The entry after the step: the version is the remote's; the baseline becomes
/// the hash of the remote content, unless only the local side changed.
pub open spec fn entry_after(
    kind: PullKind,
    entry: FileEntryModel,
    plain: Seq<u8>,
    version: Option<u32>,
) -> FileEntryModel {
    match kind {
        PullKind::KeptLocal => FileEntryModel { last_synced_version: version, ..entry },
        _ => FileEntryModel {
            last_synced_hash: Some(hex_text(blake3_digest(plain))),
            last_synced_version: version,
            ..entry
        },
    }
}

/// The hash of the local content, if there is any.
pub open spec fn local_digest(local: Option<Seq<u8>>) -> Option<Seq<u8>> {
    match local {
        Some(data) => Some(blake3_digest(data)),
        None => None,
    }
}

/// The row of the table that applies to an entry, its local content and the
/// remote content.
pub open spec fn kind_for(entry: FileEntryModel, local: Option<Seq<u8>>, plain: Seq<u8>) -> PullKind {
    pull_kind(local_digest(local), baseline_of(entry.last_synced_hash), blake3_digest(plain))
}

/// The view of optional bytes.
pub open spec fn opt_slice(data: Option<&[u8]>) -> Option<Seq<u8>> {
    match data {
        Some(d) => Some(d@),
        None => None,
    }
}

/// Reconciles a tracked file with the remote content, already decrypted: looks
/// the file up in the three-way table, records the new baseline and version in
/// the entry, and says what to write.
///
/// Whenever the step writes the file, the baseline recorded is the hash of the
/// remote content, and it reads back as that hash.
pub fn reconcile(entry: &mut FileEntry, local: Option<&[u8]>, plain: Vec<u8>, version: Option<u32>) -> (out:
    PullStep)
    ensures
        out@ == step_for(kind_for(old(entry)@, opt_slice(local), plain@), opt_slice(local), plain@),
        final(entry)@ == entry_after(
            kind_for(old(entry)@, opt_slice(local), plain@),
            old(entry)@,
            plain@,
            version,
        ),
        (out is Write || out is WriteConflict) ==> final(entry)@.last_synced_hash == Some(
            hex_text(blake3_digest(plain@)),
        ),
        !(out is KeepLocal) ==> baseline_of(final(entry)@.last_synced_hash) == Some(
            blake3_digest(plain@),
        ),
{
    let remote_hash = content_hash(plain.as_slice());
    proof {
        lemma_hex_round_trip(remote_hash@);
    }
    let data = match local {
        None => {
            entry.set_synced(to_hex(&remote_hash), version);
            return PullStep::Write(plain);
        },
        Some(data) => data,
    };
    let base = baseline(&entry.last_synced_hash);
    match decide_pull(Some(content_hash(data)), base, &remote_hash) {
        PullKind::Pulled => {
            entry.set_synced(to_hex(&remote_hash), version);
            PullStep::Write(plain)
        },
        PullKind::UpToDate => {
            entry.set_synced(to_hex(&remote_hash), version);
            PullStep::UpToDate
        },
        PullKind::KeptLocal => {
            entry.last_synced_version = version;
            PullStep::KeepLocal
        },
        PullKind::Conflict => {
            entry.set_synced(to_hex(&remote_hash), version);
            PullStep::WriteConflict(conflict_content(data, plain.as_slice()))
        },
    }
}

/// The plaintext of the remote object for `entry`, after the check that the
/// object's stored associated data names this repository, branch, path and tag.
pub fn open_checked(
    entry: &FileEntry,
    repo_id: &str,
    branch: &str,
    repo_key: &[u8; UMK_LEN],
    remote: &ObjectResponse,
) -> (out: Result<Vec<u8>, MilieuError>)
    ensures
        crate::crypto::bytes_view(out) == checked_plain(
            repo_key@,
            repo_id@,
            branch@,
            entry@,
            remote.schema_version,
            remote.aad@,
            remote.nonce@,
            remote.ciphertext@,
        ),
{
    let aad = aad_for(remote.schema_version, repo_id, branch, entry.path(), entry.tag());
    let matches = can_encode(aad.len()) && str_eq(
        remote.aad.as_str(),
        base64_encode(aad.as_slice()).as_str(),
    );
    if !matches {
        return Err(MilieuError::Crypto(concat2("aad mismatch for ", entry.path())));
    }
    decrypt_bytes(repo_key, aad.as_slice(), remote.nonce.as_str(), remote.ciphertext.as_str())
}

/// What `pull_entry` returns and leaves in the entry.
pub open spec fn pull_entry_spec(
    entry: FileEntryModel,
    path_error: Option<Seq<char>>,
    remote: Option<(Result<Seq<u8>, ErrorModel>, Option<u32>)>,
    local: Option<Seq<u8>>,
) -> (Result<PullStepModel, ErrorModel>, FileEntryModel) {
    match path_error {
        Some(text) => (Err(ErrorModel::CommandFailed(text)), entry),
        None => match remote {
            None => (Ok(PullStepModel::MissingRemote), entry),
            Some((Err(e), _)) => (Err(e), entry),
            Some((Ok(plain), version)) => {
                let kind = kind_for(entry, local, plain);
                (Ok(step_for(kind, local, plain)), entry_after(kind, entry, plain, version))
            },
        },
    }
}

/// The remote object as the contract of `pull_entry` reads it: its checked
/// plaintext and its version.
pub open spec fn remote_reading(
    entry: FileEntryModel,
    repo_id: Seq<char>,
    branch: Seq<char>,
    key: Seq<u8>,
    remote: Option<&ObjectResponse>,
) -> Option<(Result<Seq<u8>, ErrorModel>, Option<u32>)> {
    match remote {
        None => None,
        Some(obj) => Some(
            (
                checked_plain(
                    key,
                    repo_id,
                    branch,
                    entry,
                    obj.schema_version,
                    obj.aad@,
                    obj.nonce@,
                    obj.ciphertext@,
                ),
                obj.version,
            ),
        ),
    }
}

/// The view of the outcome of a pull step.
pub open spec fn step_view(out: Result<PullStep, MilieuError>) -> Result<PullStepModel, ErrorModel> {
    match out {
        Ok(step) => Ok(step@),
        Err(e) => Err(e@),
    }
}

/// One file of a pull: validates its path, checks and decrypts the latest remote
/// object, reconciles it with the local content and the baseline, and records
/// the outcome in the entry.
///
/// A path that may not be tracked, a stored associated data that names another
/// place, and a failed decryption abort with the entry unchanged. Without a
/// remote object nothing changes. Whenever the step writes the file, the
/// baseline recorded is the hash of the remote content.
pub fn pull_entry(
    entry: &mut FileEntry,
    repo_id: &str,
    branch: &str,
    repo_key: &[u8; UMK_LEN],
    remote: Option<&ObjectResponse>,
    local: Option<&[u8]>,
) -> (out: Result<PullStep, MilieuError>)
    ensures
        (step_view(out), final(entry)@) == pull_entry_spec(
            old(entry)@,
            env_path_error(old(entry)@.path),
            remote_reading(old(entry)@, repo_id@, branch@, repo_key@, remote),
            opt_slice(local),
        ),
        out matches Ok(step) && (step is Write || step is WriteConflict) ==> (remote_reading(
            old(entry)@,
            repo_id@,
            branch@,
            repo_key@,
            remote,
        ) matches Some((Ok(plain), _)) && final(entry)@.last_synced_hash == Some(
            hex_text(blake3_digest(plain)),
        )),
{
    match validate_env_path(entry.path()) {
        Err(e) => {
            return Err(e);
        },
        Ok(_) => {},
    }
    let obj = match remote {
        None => {
            return Ok(PullStep::MissingRemote);
        },
        Some(obj) => obj,
    };
    let plain = match open_checked(entry, repo_id, branch, repo_key, obj) {
        Err(e) => {
            return Err(e);
        },
        Ok(bytes) => bytes,
    };
    let step = reconcile(entry, local, plain, obj.version);
    Ok(step)
}

} // verus!
