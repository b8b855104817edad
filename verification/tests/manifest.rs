use milieu::error::MilieuError;
use milieu::manifest::{Branch, FileEntry, Manifest, Remote};
use milieu::merge::merge_manifests;

fn entry(path: &str, tag: Option<&str>, hash: Option<&str>, version: Option<u32>) -> FileEntry {
    FileEntry {
        path: path.to_string(),
        tag: tag.map(|t| t.to_string()),
        last_synced_hash: hash.map(|h| h.to_string()),
        last_synced_version: version,
    }
}

fn branch(name: &str, files: Vec<FileEntry>) -> Branch {
    Branch { name: name.to_string(), files }
}

fn manifest(id: &str, active: &str, branches: Vec<Branch>) -> Manifest {
    Manifest {
        version: 1,
        repo_id: id.to_string(),
        repo_name: format!("{}-name", id),
        active_branch: active.to_string(),
        branches,
        remote: None,
    }
}

fn shape(m: &Manifest) -> String {
    format!("{:?}", m)
}

#[test]
fn a_new_entry_has_no_baseline() {
    let mut e = FileEntry::new(".env".to_string(), Some("prod".to_string()));
    assert_eq!(e.path(), ".env");
    assert_eq!(e.tag(), Some("prod"));
    assert_eq!(e.last_synced_hash, None);
    assert_eq!(e.last_synced_version, None);
    e.set_synced("abc".to_string(), Some(3));
    assert_eq!(e.last_synced_hash.as_deref(), Some("abc"));
    assert_eq!(e.last_synced_version, Some(3));
    assert_eq!(e.path(), ".env");
    assert_eq!(e.tag(), Some("prod"));
    e.set_synced("def".to_string(), None);
    assert_eq!(e.last_synced_version, None);
    assert_eq!(FileEntry::new("x".to_string(), None).tag(), None);
}

#[test]
fn branches_are_found_by_name() {
    let mut m = manifest(
        "R1",
        "dev",
        vec![branch("dev", vec![entry(".env", None, None, None)]), branch("prod", vec![])],
    );
    assert_eq!(m.find_branch("prod").unwrap().name, "prod");
    assert_eq!(m.find_branch("dev").unwrap().files.len(), 1);
    match m.find_branch("qa") {
        Err(MilieuError::BranchNotFound(name)) => assert_eq!(name, "qa"),
        other => panic!("{:?}", other),
    }
    m.find_branch_mut("prod").unwrap().files.push(entry(".env.prod", None, None, None));
    assert_eq!(m.branches[1].files.len(), 1);
    assert_eq!(m.branches[0].files.len(), 1);
    match m.find_branch_mut("qa") {
        Err(MilieuError::BranchNotFound(name)) => assert_eq!(name, "qa"),
        other => panic!("{:?}", other.map(|b| b.name.clone())),
    }
    assert!(m.ensure_unique_branch("qa").is_ok());
    match m.ensure_unique_branch("dev") {
        Err(MilieuError::CommandFailed(text)) => assert_eq!(text, "branch already exists: dev"),
        other => panic!("{:?}", other),
    }
}

#[test]
fn without_state_clears_every_baseline_and_nothing_else() {
    let mut m = manifest(
        "R1",
        "dev",
        vec![
            branch("dev", vec![entry(".env", Some("t"), Some("aa"), Some(2)), entry(".env.b", None, None, None)]),
            branch("prod", vec![entry(".env", None, Some("bb"), Some(9))]),
        ],
    );
    m.remote = Some(Remote { base_url: Some("https://example.test".to_string()) });
    let bare = m.without_state();
    for b in &bare.branches {
        for f in &b.files {
            assert_eq!(f.last_synced_hash, None);
            assert_eq!(f.last_synced_version, None);
        }
    }
    assert_eq!(bare.branches[0].files[0].tag.as_deref(), Some("t"));
    assert_eq!(bare.branches[1].files[0].path, ".env");
    assert_eq!(bare.repo_id, "R1");
    assert_eq!(bare.active_branch, "dev");
    assert_eq!(bare.remote.unwrap().base_url.as_deref(), Some("https://example.test"));
    assert_eq!(m.branches[0].files[0].last_synced_hash.as_deref(), Some("aa"));
}

#[test]
fn a_clone_is_the_same_manifest() {
    let m = manifest("R1", "dev", vec![branch("dev", vec![entry(".env", Some("t"), Some("aa"), Some(2))])]);
    assert_eq!(shape(&m.clone()), shape(&m));
}

#[test]
fn merge_takes_identity_from_the_remote_and_baselines_from_the_local() {
    let mut local = manifest(
        "L",
        "feature",
        vec![
            branch("dev", vec![entry(".env", Some("mine"), Some("aa"), Some(2)), entry(".env.local", None, None, None)]),
            branch("feature", vec![entry(".env.f", None, None, None)]),
        ],
    );
    local.remote = Some(Remote { base_url: Some("https://override.test".to_string()) });
    let mut remote = manifest(
        "R",
        "dev",
        vec![
            branch("dev", vec![entry(".env.shared", None, None, None), entry(".env", Some("theirs"), None, None)]),
            branch("prod", vec![entry(".env", None, None, None)]),
        ],
    );
    remote.version = 7;
    let merged = merge_manifests(&local, &remote);
    assert_eq!(merged.version, 7);
    assert_eq!(merged.repo_id, "R");
    assert_eq!(merged.repo_name, "R-name");
    assert_eq!(merged.active_branch, "dev");
    assert_eq!(merged.remote.as_ref().unwrap().base_url.as_deref(), Some("https://override.test"));
    let names: Vec<&str> = merged.branches.iter().map(|b| b.name.as_str()).collect();
    assert_eq!(names, vec!["dev", "prod", "feature"]);
    let dev = &merged.branches[0];
    let paths: Vec<&str> = dev.files.iter().map(|f| f.path.as_str()).collect();
    assert_eq!(paths, vec![".env.shared", ".env", ".env.local"]);
    assert_eq!(dev.files[1].tag.as_deref(), Some("mine"));
    assert_eq!(dev.files[1].last_synced_hash.as_deref(), Some("aa"));
    assert_eq!(dev.files[1].last_synced_version, Some(2));
    assert_eq!(merged.branches[1].files.len(), 1);
    assert_eq!(merged.branches[2].files[0].path, ".env.f");
}

#[test]
fn merging_again_changes_nothing() {
    let local = manifest(
        "L",
        "dev",
        vec![
            branch("dev", vec![entry(".env", Some("mine"), Some("aa"), Some(2)), entry(".env.x", None, None, None)]),
            branch("only-local", vec![entry(".env", None, None, None)]),
        ],
    );
    let remote = manifest(
        "R",
        "dev",
        vec![
            branch("prod", vec![entry(".env", None, None, None)]),
            branch("dev", vec![entry(".env.y", None, None, None), entry(".env", None, None, None)]),
        ],
    );
    let once = merge_manifests(&local, &remote);
    let twice = merge_manifests(&once, &remote);
    assert_eq!(shape(&twice), shape(&once));
    let thrice = merge_manifests(&twice, &remote);
    assert_eq!(shape(&thrice), shape(&once));
}

#[test]
fn merge_with_an_empty_remote_keeps_the_local_branches() {
    let local = manifest("L", "dev", vec![branch("dev", vec![entry(".env", None, Some("aa"), Some(1))])]);
    let remote = manifest("R", "main", vec![]);
    let merged = merge_manifests(&local, &remote);
    assert_eq!(merged.branches.len(), 1);
    assert_eq!(merged.branches[0].files[0].last_synced_hash.as_deref(), Some("aa"));
    assert_eq!(merged.active_branch, "main");
    let both_empty = merge_manifests(&manifest("L", "dev", vec![]), &remote);
    assert!(both_empty.branches.is_empty());
    let only_remote = merge_manifests(&manifest("L", "dev", vec![]), &local);
    assert_eq!(only_remote.branches.len(), 1);
}

#[test]
fn merge_keeps_one_branch_per_name_and_one_entry_per_path() {
    let local = manifest(
        "L",
        "dev",
        vec![branch("dev", vec![entry(".env", Some("first"), None, None), entry(".env", Some("second"), None, None)])],
    );
    let remote = manifest(
        "R",
        "dev",
        vec![
            branch("dev", vec![entry(".env.a", None, None, None)]),
            branch("dev", vec![entry(".env", Some("theirs"), None, None)]),
        ],
    );
    let merged = merge_manifests(&local, &remote);
    assert_eq!(merged.branches.len(), 1);
    let paths: Vec<&str> = merged.branches[0].files.iter().map(|f| f.path.as_str()).collect();
    assert_eq!(paths, vec![".env"]);
    assert_eq!(merged.branches[0].files[0].tag.as_deref(), Some("second"));
}
