//! Checkout: one version of a tracked file, decrypted. The baseline of the file
//! stays as it is.

use vstd::prelude::*;
use vstd::string::*;
use crate::api::ObjectResponse;
use crate::commands::pull::object_aad;
use crate::crypto::{aad_for, bytes_view, decrypt_bytes, decrypt_spec, UMK_LEN};
use crate::error::{ErrorModel, MilieuError};
use crate::keyed::key_pos;
use crate::manifest::{branch_position, file_position, FileEntry, Manifest};

verus! {

/// The entry of `path` in the branch called `branch`: `BranchNotFound` without
/// such a branch, and a refusal where the branch does not track the path.
pub fn locate<'a>(manifest: &'a Manifest, path: &str, branch: &str) -> (out: Result<
    &'a FileEntry,
    MilieuError,
>)
    ensures
        match out {
            Ok(entry) => {
                let at = key_pos(manifest@.branches, branch@);
                let found = key_pos(manifest@.branches[at].files, path@);
                &&& at < manifest.branches.len()
                &&& found < manifest.branches@[at].files.len()
                &&& *entry == manifest.branches@[at].files@[found]
            },
            Err(e) => {
                let at = key_pos(manifest@.branches, branch@);
                if at >= manifest@.branches.len() {
                    e@ == ErrorModel::BranchNotFound(branch@)
                } else {
                    key_pos(manifest@.branches[at].files, path@)
                        >= manifest@.branches[at].files.len() && e@ == ErrorModel::CommandFailed(
                        "file not tracked"@,
                    )
                }
            },
        },
{
    let at = branch_position(&manifest.branches, branch);
    if at >= manifest.branches.len() {
        return Err(MilieuError::BranchNotFound(String::from_str(branch)));
    }
    assert(manifest@.branches[at as int] == manifest.branches@[at as int]@);
    let found = file_position(&manifest.branches[at].files, path);
    if found >= manifest.branches[at].files.len() {
        return Err(MilieuError::failed("file not tracked"));
    }
    Ok(&manifest.branches[at].files[found])
}

/// The plaintext of one version of a tracked file: the object decrypted under
/// the associated data of the entry's place.
pub fn run(
    entry: &FileEntry,
    repo_id: &str,
    branch: &str,
    repo_key: &[u8; UMK_LEN],
    remote: &ObjectResponse,
) -> (out: Result<Vec<u8>, MilieuError>)
    ensures
        bytes_view(out) == decrypt_spec(
            repo_key@,
            object_aad(remote.schema_version, repo_id@, branch@, entry@),
            remote.nonce@,
            remote.ciphertext@,
        ),
{
    let aad = aad_for(remote.schema_version, repo_id, branch, entry.path(), entry.tag());
    decrypt_bytes(repo_key, aad.as_slice(), remote.nonce.as_str(), remote.ciphertext.as_str())
}

} // verus!
