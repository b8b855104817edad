//! Init and clone: the name of a new repository, its first manifest, and its
//! key.

use vstd::prelude::*;
use vstd::string::*;
use crate::crypto::{
    generate_umk, key_pair_matches, unwrap_spec, wrap_repo_key_for_public_key, decode_fixed, UMK_LEN,
};
use crate::error::{ErrorModel, MilieuError};
use crate::manifest::{
    files_model, Branch, BranchModel, FileEntryModel, Manifest, ManifestModel, Remote,
};
use crate::repo::{is_valid_repo_name, valid_repo_name};

verus! {

/// The name of a new repository: the one asked for, else the name of the
/// project's folder. Refuses a name that holds anything but letters, digits,
/// `-` and `_`.
pub fn repo_name_for(name_override: Option<String>, folder: &str) -> (out: Result<String, MilieuError>)
    ensures
        ({
            let name = match name_override {
                Some(n) => n@,
                None => folder@,
            };
            if valid_repo_name(name) {
                out matches Ok(n) && n@ == name
            } else {
                out matches Err(e) && e@ == ErrorModel::CommandFailed(
                    "repo name must be letters, numbers, '-' or '_' (use --name)"@,
                )
            }
        }),
{
    let name = match name_override {
        Some(n) => n,
        None => String::from_str(folder),
    };
    if !is_valid_repo_name(name.as_str()) {
        return Err(
            MilieuError::failed("repo name must be letters, numbers, '-' or '_' (use --name)"),
        );
    }
    Ok(name)
}

/// The manifest of a repository just created: schema version 1, one branch
/// `dev` that is active and tracks nothing, and no address of its own.
pub fn new_manifest(repo_id: String, repo_name: String) -> (out: Manifest)
    ensures
        out@ == (ManifestModel {
            version: 1,
            repo_id: repo_id@,
            repo_name: repo_name@,
            active_branch: "dev"@,
            branches: seq![BranchModel { name: "dev"@, files: Seq::<FileEntryModel>::empty() }],
            remote: Some(None::<Seq<char>>),
        }),
{
    let dev = Branch { name: String::from_str("dev"), files: Vec::new() };
    assert(files_model(dev.files@) =~= Seq::<FileEntryModel>::empty());
    let mut branches: Vec<Branch> = Vec::new();
    branches.push(dev);
    let out = Manifest {
        version: 1,
        repo_id,
        repo_name,
        active_branch: String::from_str("dev"),
        branches,
        remote: Some(Remote { base_url: None }),
    };
    assert(out@.branches =~= seq![
        BranchModel { name: "dev"@, files: Seq::<FileEntryModel>::empty() },
    ]);
    out
}

/// The manifest of a repository just cloned: what the remote holds, without an
/// address of its own.
pub fn adopt(manifest: Manifest) -> (out: Manifest)
    ensures
        out@ == (ManifestModel { remote: Some(None::<Seq<char>>), ..manifest@ }),
{
    let mut out = manifest;
    out.remote = Some(Remote { base_url: None });
    out
}

/// A fresh key for a new repository, with its wrapping for the creator.
#[derive(Debug)]
pub struct NewRepoKey {
    pub key: [u8; UMK_LEN],
    pub wrapped_key: String,
}

/// Draws the key of a new repository and wraps it for its creator. Fails only on
/// a public key that is no key; the wrapping unwraps to the key under every
/// private key whose public half is the creator's.
pub fn create_repo_key(creator_public_key: &str) -> (out: Result<NewRepoKey, MilieuError>)
    ensures
        out is Ok <==> decode_fixed(
            creator_public_key@,
            32,
            "invalid public key base64: "@,
            "invalid public key length"@,
        ) is Ok,
        out matches Ok(fresh) ==> forall|private_b64: Seq<char>|
            key_pair_matches(private_b64, creator_public_key@) ==> #[trigger] unwrap_spec(
                private_b64,
                fresh.wrapped_key@,
            ) == Ok::<Seq<u8>, ErrorModel>(fresh.key@),
{
    let key = generate_umk();
    match wrap_repo_key_for_public_key(&key, creator_public_key) {
        Ok(wrapped_key) => Ok(NewRepoKey { key, wrapped_key }),
        Err(e) => Err(e),
    }
}

} // verus!
