//! Status: how each tracked file stands between the local side, the remote and
//! the baseline.

use vstd::prelude::*;
use vstd::string::*;
use crate::api::ObjectResponse;
use crate::commands::pull::object_aad;
use crate::crypto::{aad_for, decrypt_bytes, decrypt_spec};
use crate::digest::{baseline, baseline_of, blake3_digest, content_hash, hash_eq, HASH_LEN};
use crate::manifest::{file_position, FileEntry, FileEntryModel, Manifest};
use crate::keyed::key_pos;
use crate::style::{green, peach, red, yellow, Rgb};
use crate::commands::push::strings_view;
use crate::manifest::{Branch, BranchModel};
use crate::text::{chars_of, concat2, decimal, decimal_text, range_is, str_eq};
use vstd::utf8::encode_utf8;

verus! {

/// The local side of a tracked file.
#[derive(Clone, Copy, Debug)]
pub enum LocalStatus {
    /// The file is there; this is the hash of its content.
    Present { hash: [u8; HASH_LEN] },
    /// The file is not there.
    Missing,
}

impl LocalStatus {
    /// `present` or `missing`.
    pub fn label(&self) -> (out: &'static str)
        ensures
            out@ == (if self is Present {
                "present"@
            } else {
                "missing"@
            }),
    {
        match self {
            LocalStatus::Present { .. } => "present",
            LocalStatus::Missing => "missing",
        }
    }
}

/// The local side of a file from its content, if it is there.
pub fn local_status(data: Option<&[u8]>) -> (out: LocalStatus)
    ensures
        match data {
            Some(d) => out matches LocalStatus::Present { hash } && hash@ == blake3_digest(d@),
            None => out is Missing,
        },
{
    match data {
        Some(d) => LocalStatus::Present { hash: content_hash(d) },
        None => LocalStatus::Missing,
    }
}

/// How a tracked file stands.
#[derive(Clone, Copy, Debug, PartialEq, Eq, Structural)]
pub enum ChangeKind {
    /// Both sides hold the same content.
    Clean,
    /// Only the local side has the file.
    NewLocal,
    /// Only the remote has the file.
    NewRemote,
    /// The local side left the baseline; the remote did not.
    ModifiedLocal,
    /// The remote left the baseline; the local side did not.
    ModifiedRemote,
    /// Both sides left the baseline, to different contents.
    ModifiedBoth,
    /// The sides differ and there is no baseline, or the remote does not decrypt.
    ModifiedUnknown,
    /// Neither side has the file.
    Absent,
}

/// The state of a file from the hash of the local content if there is any, what
/// the remote object decrypts to if there is one, and the baseline.
pub open spec fn change_kind_of(
    local: Option<Seq<u8>>,
    remote: Option<Option<Seq<u8>>>,
    base: Option<Seq<u8>>,
) -> ChangeKind {
    match (local, remote) {
        (None, None) => ChangeKind::Absent,
        (None, Some(_)) => ChangeKind::NewRemote,
        (Some(_), None) => ChangeKind::NewLocal,
        (Some(_), Some(None)) => ChangeKind::ModifiedUnknown,
        (Some(l), Some(Some(plain))) => {
            let r = blake3_digest(plain);
            match base {
                Some(b) => if l == b && r == b {
                    ChangeKind::Clean
                } else if l != b && r == b {
                    ChangeKind::ModifiedLocal
                } else if l == b && r != b {
                    ChangeKind::ModifiedRemote
                } else if l == r {
                    ChangeKind::Clean
                } else {
                    ChangeKind::ModifiedBoth
                },
                None => if l == r {
                    ChangeKind::Clean
                } else {
                    ChangeKind::ModifiedUnknown
                },
            }
        },
    }
}

/// The hash of the local side, if the file is there.
pub open spec fn local_hash_of(local: LocalStatus) -> Option<Seq<u8>> {
    match local {
        LocalStatus::Present { hash } => Some(hash@),
        LocalStatus::Missing => None,
    }
}

/// What the remote object decrypts to under the associated data of the place of
/// `entry`: absent without an object, `None` inside where decryption fails.
pub open spec fn remote_plain_of(
    key: Seq<u8>,
    repo_id: Seq<char>,
    branch: Seq<char>,
    entry: FileEntryModel,
    remote: Option<&ObjectResponse>,
) -> Option<Option<Seq<u8>>> {
    match remote {
        None => None,
        Some(obj) => Some(
            match decrypt_spec(
                key,
                object_aad(obj.schema_version, repo_id, branch, entry),
                obj.nonce@,
                obj.ciphertext@,
            ) {
                Ok(plain) => Some(plain),
                Err(_) => None,
            },
        ),
    }
}

/// How a tracked file stands between the local side, the latest remote object
/// and the baseline.
pub fn change_kind(
    local: &LocalStatus,
    remote: Option<&ObjectResponse>,
    repo_key: &[u8; 32],
    manifest: &Manifest,
    branch: &str,
    entry: &FileEntry,
) -> (out: ChangeKind)
    ensures
        out == change_kind_of(
            local_hash_of(*local),
            remote_plain_of(repo_key@, manifest@.repo_id, branch@, entry@, remote),
            baseline_of(entry@.last_synced_hash),
        ),
{
    match (local, remote) {
        (LocalStatus::Missing, None) => ChangeKind::Absent,
        (LocalStatus::Missing, Some(_)) => ChangeKind::NewRemote,
        (LocalStatus::Present { .. }, None) => ChangeKind::NewLocal,
        (LocalStatus::Present { hash }, Some(obj)) => {
            let aad = aad_for(
                obj.schema_version,
                manifest.repo_id.as_str(),
                branch,
                entry.path(),
                entry.tag(),
            );
            let plain = match decrypt_bytes(
                repo_key,
                aad.as_slice(),
                obj.nonce.as_str(),
                obj.ciphertext.as_str(),
            ) {
                Ok(bytes) => bytes,
                Err(_) => {
                    return ChangeKind::ModifiedUnknown;
                },
            };
            let remote_hash = content_hash(plain.as_slice());
            match baseline(&entry.last_synced_hash) {
                Some(base) => {
                    let local_changed = !hash_eq(hash, &base);
                    let remote_changed = !hash_eq(&remote_hash, &base);
                    if !local_changed && !remote_changed {
                        ChangeKind::Clean
                    } else if local_changed && !remote_changed {
                        ChangeKind::ModifiedLocal
                    } else if !local_changed && remote_changed {
                        ChangeKind::ModifiedRemote
                    } else if hash_eq(hash, &remote_hash) {
                        ChangeKind::Clean
                    } else {
                        ChangeKind::ModifiedBoth
                    }
                },
                None => if hash_eq(hash, &remote_hash) {
                    ChangeKind::Clean
                } else {
                    ChangeKind::ModifiedUnknown
                },
            }
        },
    }
}

/// The word for a state.
pub open spec fn change_kind_text(kind: ChangeKind) -> Seq<char> {
    match kind {
        ChangeKind::Clean => "no_change"@,
        ChangeKind::NewLocal => "new_local"@,
        ChangeKind::NewRemote => "new_remote"@,
        ChangeKind::ModifiedLocal => "modified_local"@,
        ChangeKind::ModifiedRemote => "modified_remote"@,
        ChangeKind::ModifiedBoth => "modified_both"@,
        ChangeKind::ModifiedUnknown => "modified_unknown"@,
        ChangeKind::Absent => "no_change"@,
    }
}

/// The word for a state.
pub fn change_kind_str(kind: ChangeKind) -> (out: &'static str)
    ensures
        out@ == change_kind_text(kind),
{
    match kind {
        ChangeKind::Clean => "no_change",
        ChangeKind::NewLocal => "new_local",
        ChangeKind::NewRemote => "new_remote",
        ChangeKind::ModifiedLocal => "modified_local",
        ChangeKind::ModifiedRemote => "modified_remote",
        ChangeKind::ModifiedBoth => "modified_both",
        ChangeKind::ModifiedUnknown => "modified_unknown",
        ChangeKind::Absent => "no_change",
    }
}

/// Whether the local side of a file in this state holds changes to push.
pub open spec fn locally_modified(kind: ChangeKind) -> bool {
    kind is NewLocal || kind is ModifiedLocal || kind is ModifiedBoth || kind is ModifiedUnknown
}

/// The version column of the status table: `v` and the number, `v1` for a new
/// local file without one, `-` otherwise; on the local side, `(m)` follows where
/// the file holds changes to push.
pub open spec fn version_text(kind: ChangeKind, version: Option<u32>, is_local: bool) -> Seq<char> {
    let base = match version {
        Some(v) => "v"@ + decimal_text(v as nat),
        None => if is_local && kind is NewLocal {
            "v1"@
        } else {
            "-"@
        },
    };
    if is_local && locally_modified(kind) {
        base + "(m)"@
    } else {
        base
    }
}

/// The version column of the status table.
pub fn format_version(kind: ChangeKind, version: Option<u32>, is_local: bool) -> (out: String)
    ensures
        out@ == version_text(kind, version, is_local),
{
    let is_new = match kind {
        ChangeKind::NewLocal => true,
        _ => false,
    };
    let mut base = match version {
        Some(v) => concat2("v", decimal(v as u128).as_str()),
        None => if is_local && is_new {
            String::from_str("v1")
        } else {
            String::from_str("-")
        },
    };
    let modified = match kind {
        ChangeKind::NewLocal | ChangeKind::ModifiedLocal | ChangeKind::ModifiedBoth
        | ChangeKind::ModifiedUnknown => true,
        _ => false,
    };
    if is_local && modified {
        base.append("(m)");
    }
    base
}

/// The colour of a row of the status table.
pub fn status_color(kind: ChangeKind) -> (out: Rgb)
    ensures
        out == (match kind {
            ChangeKind::Clean | ChangeKind::Absent | ChangeKind::NewLocal => green(),
            ChangeKind::NewRemote | ChangeKind::ModifiedRemote => peach(),
            ChangeKind::ModifiedLocal | ChangeKind::ModifiedUnknown => yellow(),
            ChangeKind::ModifiedBoth => red(),
        }),
{
    match kind {
        ChangeKind::Clean | ChangeKind::Absent => green(),
        ChangeKind::NewLocal => green(),
        ChangeKind::NewRemote => peach(),
        ChangeKind::ModifiedLocal => yellow(),
        ChangeKind::ModifiedRemote => peach(),
        ChangeKind::ModifiedBoth => red(),
        ChangeKind::ModifiedUnknown => yellow(),
    }
}

/// Whether a file in this state asks for a pull before a push.
pub fn needs_pull(kind: ChangeKind) -> (out: bool)
    ensures
        out == (kind is NewRemote || kind is ModifiedRemote || kind is ModifiedBoth),
{
    match kind {
        ChangeKind::NewRemote | ChangeKind::ModifiedRemote | ChangeKind::ModifiedBoth => true,
        _ => false,
    }
}

/// Whether a directory is passed over in the search for untracked files.
pub open spec fn ignored_dir(name: Seq<char>) -> bool {
    name == ".milieu"@ || name == ".git"@ || name == "target"@ || name == "node_modules"@
}

/// Whether a directory is passed over in the search for untracked files.
pub fn is_ignored_dir(name: &str) -> (out: bool)
    ensures
        out == ignored_dir(name@),
{
    str_eq(name, ".milieu") || str_eq(name, ".git") || str_eq(name, "target") || str_eq(
        name,
        "node_modules",
    )
}

/// Whether a file of this name is an environment file.
pub fn is_env_file_name(name: &str) -> (out: bool)
    ensures
        out == crate::repo::is_env_name(name@),
{
    let chars = chars_of(name);
    let env = chars_of(".env");
    let env_dot = chars_of(".env.");
    let n: usize = chars.len();
    let plain = range_is(&chars, 0, n, &env);
    assert(chars@.subrange(0, n as int) =~= chars@);
    plain || (n >= 5 && range_is(&chars, 0, 5, &env_dot))
}


/// The paths that the remote's branch tracks and the local branch does not, in
/// the order of the remote.
pub open spec fn remote_only(local: BranchModel, remote: BranchModel) -> Seq<Seq<char>>
    decreases remote.files.len(),
{
    if remote.files.len() == 0 {
        Seq::empty()
    } else {
        let before = remote_only(
            local,
            BranchModel { name: remote.name, files: remote.files.drop_last() },
        );
        if key_pos(local.files, remote.files.last().path) < local.files.len() {
            before
        } else {
            before.push(remote.files.last().path)
        }
    }
}

/// The paths that the remote's branch tracks and the local branch does not: new
/// on the remote.
pub fn remote_only_paths(local: &Branch, remote: &Branch) -> (out: Vec<String>)
    ensures
        strings_view(out@) == remote_only(local@, remote@),
{
    let mut out: Vec<String> = Vec::new();
    let mut i: usize = 0;
    let ghost all = remote@.files;
    assert(all.take(0) =~= Seq::<FileEntryModel>::empty());
    assert(strings_view(out@) =~= Seq::<Seq<char>>::empty());
    while i < remote.files.len()
        invariant
            i <= remote.files.len(),
            all == remote@.files,
            strings_view(out@) == remote_only(
                local@,
                BranchModel { name: remote@.name, files: all.take(i as int) },
            ),
        decreases remote.files.len() - i,
    {
        let entry = &remote.files[i];
        assert(all.take(i as int + 1).drop_last() =~= all.take(i as int));
        assert(all.take(i as int + 1).last() == entry@);
        if file_position(&local.files, entry.path()) >= local.files.len() {
            let ghost before = strings_view(out@);
            out.push(String::from_str(entry.path()));
            assert(strings_view(out@) =~= before.push(entry@.path));
        }
        i += 1;
    }
    assert(all.take(i as int) =~= all);
    assert(BranchModel { name: remote@.name, files: all } == remote@);
    out
}

/// Whether `a` comes before `b`, or is `b`, when bytes are compared one by one
/// and a text comes before every longer text that starts with it.
pub open spec fn bytes_le(a: Seq<u8>, b: Seq<u8>) -> bool
    decreases a.len(),
{
    if a.len() == 0 {
        true
    } else if b.len() == 0 {
        false
    } else if a[0] != b[0] {
        a[0] < b[0]
    } else {
        bytes_le(a.drop_first(), b.drop_first())
    }
}

/// Whether the texts stand in the order of their UTF-8 bytes.
pub open spec fn sorted_texts(texts: Seq<Seq<char>>) -> bool {
    forall|i: int, j: int|
        0 <= i < j < texts.len() ==> bytes_le(
            encode_utf8(#[trigger] texts[i]),
            encode_utf8(#[trigger] texts[j]),
        )
}

/// `<[String]>::sort`.
///
/// Trusted: afterwards the vector holds the same strings as before, in the order
/// of their bytes.
#[verifier::external_body]
pub(crate) fn sort_strings(texts: &mut Vec<String>)
    ensures
        sorted_texts(strings_view(final(texts)@)),
        strings_view(final(texts)@).to_multiset() == strings_view(old(texts)@).to_multiset(),
{
    texts.sort();
}

/// The paths found that are not known, in the order found.
pub open spec fn untracked_of(found: Seq<Seq<char>>, known: Seq<Seq<char>>) -> Seq<Seq<char>>
    decreases found.len(),
{
    if found.len() == 0 {
        Seq::empty()
    } else {
        let before = untracked_of(found.drop_last(), known);
        if known.contains(found.last()) {
            before
        } else {
            before.push(found.last())
        }
    }
}

fn is_tracked(known: &Vec<String>, path: &str) -> (found: bool)
    ensures
        found == strings_view(known@).contains(path@),
{
    let mut i: usize = 0;
    while i < known.len()
        invariant
            i <= known.len(),
            forall|j: int| 0 <= j < i ==> strings_view(known@)[j] != path@,
        decreases known.len() - i,
    {
        if str_eq(known[i].as_str(), path) {
            assert(strings_view(known@)[i as int] == path@);
            return true;
        }
        i += 1;
    }
    false
}

/// The environment files found under the project root that no branch tracks,
/// sorted.
pub fn find_untracked(found: &Vec<String>, known: &Vec<String>) -> (out: Vec<String>)
    ensures
        sorted_texts(strings_view(out@)),
        strings_view(out@).to_multiset() == untracked_of(
            strings_view(found@),
            strings_view(known@),
        ).to_multiset(),
{
    let ghost all = strings_view(found@);
    let mut out: Vec<String> = Vec::new();
    let mut i: usize = 0;
    assert(all.take(0) =~= Seq::<Seq<char>>::empty());
    assert(strings_view(out@) =~= Seq::<Seq<char>>::empty());
    while i < found.len()
        invariant
            i <= found.len(),
            all == strings_view(found@),
            strings_view(out@) == untracked_of(all.take(i as int), strings_view(known@)),
        decreases found.len() - i,
    {
        assert(all.take(i as int + 1).drop_last() =~= all.take(i as int));
        assert(all.take(i as int + 1).last() == found@[i as int]@);
        if !is_tracked(known, found[i].as_str()) {
            let ghost before = strings_view(out@);
            out.push(found[i].clone());
            assert(strings_view(out@) =~= before.push(found@[i as int]@));
        }
        i += 1;
    }
    assert(all.take(i as int) =~= all);
    sort_strings(&mut out);
    out
}

} // verus!
