use base64::engine::general_purpose::STANDARD;
use base64::Engine;
use milieu::api::ObjectResponse;
use milieu::commands::status::{
    change_kind, change_kind_str, find_untracked, format_version, is_env_file_name, is_ignored_dir,
    local_status, needs_pull, remote_only_paths, status_color, ChangeKind, LocalStatus,
};
use milieu::crypto::{aad_for, encrypt_bytes};
use milieu::manifest::{Branch, FileEntry, Manifest};
use milieu::style::{bold, enabled, green, paint, peach, red, yellow, Rgb};

const KEY: [u8; 32] = [0x11u8; 32];

fn manifest() -> Manifest {
    Manifest {
        version: 1,
        repo_id: "R1".to_string(),
        repo_name: "app".to_string(),
        active_branch: "dev".to_string(),
        branches: vec![],
        remote: None,
    }
}

fn remote_object(plain: &[u8]) -> ObjectResponse {
    let aad = aad_for(1, "R1", "dev", ".env", None);
    let (nonce, ciphertext) = encrypt_bytes(&KEY, &aad, plain).unwrap();
    ObjectResponse {
        path: ".env".to_string(),
        nonce,
        ciphertext,
        aad: STANDARD.encode(&aad),
        ciphertext_hash: None,
        version: Some(1),
        created_at: String::new(),
        schema_version: 1,
    }
}

fn entry(base: Option<&[u8]>) -> FileEntry {
    FileEntry {
        path: ".env".to_string(),
        tag: None,
        last_synced_hash: base.map(|b| blake3::hash(b).to_hex().to_string()),
        last_synced_version: None,
    }
}

fn kind(local: Option<&[u8]>, remote: Option<&[u8]>, base: Option<&[u8]>) -> ChangeKind {
    let remote = remote.map(remote_object);
    change_kind(&local_status(local), remote.as_ref(), &KEY, &manifest(), "dev", &entry(base))
}

#[test]
fn every_state_of_a_file() {
    assert_eq!(kind(None, None, None), ChangeKind::Absent);
    assert_eq!(kind(None, Some(b"r"), None), ChangeKind::NewRemote);
    assert_eq!(kind(Some(b"l"), None, Some(b"l")), ChangeKind::NewLocal);
    assert_eq!(kind(Some(b"x"), Some(b"x"), Some(b"x")), ChangeKind::Clean);
    assert_eq!(kind(Some(b"l"), Some(b"x"), Some(b"x")), ChangeKind::ModifiedLocal);
    assert_eq!(kind(Some(b"x"), Some(b"r"), Some(b"x")), ChangeKind::ModifiedRemote);
    assert_eq!(kind(Some(b"l"), Some(b"r"), Some(b"x")), ChangeKind::ModifiedBoth);
    assert_eq!(kind(Some(b"same"), Some(b"same"), Some(b"x")), ChangeKind::Clean);
    assert_eq!(kind(Some(b"same"), Some(b"same"), None), ChangeKind::Clean);
    assert_eq!(kind(Some(b"l"), Some(b"r"), None), ChangeKind::ModifiedUnknown);
}

#[test]
fn a_remote_that_does_not_decrypt_is_unknown() {
    let remote = remote_object(b"x");
    let local = local_status(Some(b"x"));
    let k = change_kind(&local, Some(&remote), &[0u8; 32], &manifest(), "dev", &entry(Some(b"x")));
    assert_eq!(k, ChangeKind::ModifiedUnknown);
    let k = change_kind(&local, Some(&remote), &KEY, &manifest(), "prod", &entry(Some(b"x")));
    assert_eq!(k, ChangeKind::ModifiedUnknown);
}

#[test]
fn the_local_status_holds_the_hash() {
    match local_status(Some(b"data")) {
        LocalStatus::Present { hash } => assert_eq!(&hash, blake3::hash(b"data").as_bytes()),
        LocalStatus::Missing => panic!("missing"),
    }
    assert_eq!(local_status(Some(b"data")).label(), "present");
    assert_eq!(local_status(None).label(), "missing");
}

#[test]
fn words_versions_and_colours() {
    assert_eq!(change_kind_str(ChangeKind::Clean), "no_change");
    assert_eq!(change_kind_str(ChangeKind::Absent), "no_change");
    assert_eq!(change_kind_str(ChangeKind::NewLocal), "new_local");
    assert_eq!(change_kind_str(ChangeKind::NewRemote), "new_remote");
    assert_eq!(change_kind_str(ChangeKind::ModifiedLocal), "modified_local");
    assert_eq!(change_kind_str(ChangeKind::ModifiedRemote), "modified_remote");
    assert_eq!(change_kind_str(ChangeKind::ModifiedBoth), "modified_both");
    assert_eq!(change_kind_str(ChangeKind::ModifiedUnknown), "modified_unknown");
    assert_eq!(format_version(ChangeKind::Clean, Some(3), true), "v3");
    assert_eq!(format_version(ChangeKind::Clean, None, true), "-");
    assert_eq!(format_version(ChangeKind::NewLocal, None, true), "v1(m)");
    assert_eq!(format_version(ChangeKind::NewLocal, None, false), "-");
    assert_eq!(format_version(ChangeKind::ModifiedLocal, Some(12), true), "v12(m)");
    assert_eq!(format_version(ChangeKind::ModifiedLocal, Some(12), false), "v12");
    assert_eq!(format_version(ChangeKind::ModifiedBoth, Some(0), true), "v0(m)");
    assert_eq!(format_version(ChangeKind::ModifiedUnknown, None, true), "-(m)");
    assert_eq!(format_version(ChangeKind::ModifiedRemote, Some(4294967295), true), "v4294967295");
    assert_eq!(status_color(ChangeKind::Clean), green());
    assert_eq!(status_color(ChangeKind::Absent), green());
    assert_eq!(status_color(ChangeKind::NewLocal), green());
    assert_eq!(status_color(ChangeKind::NewRemote), peach());
    assert_eq!(status_color(ChangeKind::ModifiedRemote), peach());
    assert_eq!(status_color(ChangeKind::ModifiedLocal), yellow());
    assert_eq!(status_color(ChangeKind::ModifiedUnknown), yellow());
    assert_eq!(status_color(ChangeKind::ModifiedBoth), red());
    assert!(needs_pull(ChangeKind::NewRemote) && needs_pull(ChangeKind::ModifiedBoth));
    assert!(!needs_pull(ChangeKind::ModifiedLocal) && !needs_pull(ChangeKind::Clean));
}

#[test]
fn colours_are_escape_sequences() {
    assert_eq!(red(), Rgb(243, 139, 168));
    assert_eq!(paint(true, Rgb(1, 20, 255), "hi"), "\x1b[38;2;1;20;255mhi\x1b[0m");
    assert_eq!(bold(true, Rgb(0, 0, 0), "hi"), "\x1b[1;38;2;0;0;0mhi\x1b[0m");
    assert_eq!(paint(false, red(), "hi"), "hi");
    assert_eq!(bold(false, red(), ""), "");
    assert!(enabled(false, true));
    assert!(!enabled(true, true));
    assert!(!enabled(false, false));
}

#[test]
fn untracked_files_are_filtered_and_sorted() {
    let found = vec![".env.b".to_string(), "z/.env".to_string(), ".env".to_string(), "a/.env".to_string()];
    let known = vec![".env".to_string(), "other".to_string()];
    assert_eq!(find_untracked(&found, &known), vec![".env.b", "a/.env", "z/.env"]);
    assert!(find_untracked(&vec![], &known).is_empty());
    assert!(is_ignored_dir(".git") && is_ignored_dir(".milieu"));
    assert!(is_ignored_dir("target") && is_ignored_dir("node_modules"));
    assert!(!is_ignored_dir("src") && !is_ignored_dir(".github"));
    assert!(is_env_file_name(".env") && is_env_file_name(".env.local"));
    assert!(!is_env_file_name(".envrc") && !is_env_file_name("env") && !is_env_file_name(""));
}

#[test]
fn paths_that_only_the_remote_tracks() {
    let files = |paths: &[&str]| paths.iter().map(|p| FileEntry::new(p.to_string(), None)).collect::<Vec<_>>();
    let local = Branch { name: "dev".to_string(), files: files(&[".env"]) };
    let remote = Branch { name: "dev".to_string(), files: files(&[".env.x", ".env", ".env.y"]) };
    assert_eq!(remote_only_paths(&local, &remote), vec![".env.x", ".env.y"]);
    assert!(remote_only_paths(&remote, &local).is_empty());
}
