use base64::engine::general_purpose::STANDARD;
use base64::Engine;
use milieu::api::ObjectResponse;
use milieu::commands::pull::{
    conflict_content, decide_pull, open_checked, pull_entry, reconcile, PullKind, PullStep,
};
use milieu::crypto::{aad_for, encrypt_bytes};
use milieu::digest::{content_hash, to_hex};
use milieu::error::MilieuError;
use milieu::manifest::FileEntry;

const KEY: [u8; 32] = [0x11u8; 32];

fn h(data: &[u8]) -> String {
    blake3::hash(data).to_hex().to_string()
}

fn remote_object(branch: &str, path: &str, tag: Option<&str>, plain: &[u8], version: u32) -> ObjectResponse {
    let aad = aad_for(1, "R1", branch, path, tag);
    let (nonce, ciphertext) = encrypt_bytes(&KEY, &aad, plain).unwrap();
    ObjectResponse {
        path: path.to_string(),
        nonce,
        ciphertext,
        aad: STANDARD.encode(&aad),
        ciphertext_hash: None,
        version: Some(version),
        created_at: "2024-01-01T00:00:00Z".to_string(),
        schema_version: 1,
    }
}

fn entry_with_base(base: Option<&[u8]>, version: Option<u32>) -> FileEntry {
    FileEntry {
        path: ".env".to_string(),
        tag: None,
        last_synced_hash: base.map(h),
        last_synced_version: version,
    }
}

#[test]
fn clean_pull_of_a_new_file() {
    let mut entry = entry_with_base(None, None);
    let remote = remote_object("dev", ".env", None, b"B=2\n", 3);
    let step = pull_entry(&mut entry, "R1", "dev", &KEY, Some(&remote), None).unwrap();
    match step {
        PullStep::Write(bytes) => assert_eq!(bytes, b"B=2\n".to_vec()),
        other => panic!("{:?}", other),
    }
    assert_eq!(entry.last_synced_hash, Some(h(b"B=2\n")));
    assert_eq!(entry.last_synced_version, Some(3));
}

#[test]
fn three_way_pull_with_the_local_side_ahead() {
    let mut entry = entry_with_base(Some(b"X\n"), Some(2));
    let remote = remote_object("dev", ".env", None, b"X\n", 4);
    let step = pull_entry(&mut entry, "R1", "dev", &KEY, Some(&remote), Some(b"X\nY\n")).unwrap();
    assert!(matches!(step, PullStep::KeepLocal));
    assert_eq!(entry.last_synced_hash, Some(h(b"X\n")));
    assert_eq!(entry.last_synced_version, Some(4));
}

#[test]
fn conflict_on_pull() {
    let mut entry = entry_with_base(Some(b"X\n"), Some(2));
    let remote = remote_object("dev", ".env", None, b"X\nR\n", 5);
    let step = pull_entry(&mut entry, "R1", "dev", &KEY, Some(&remote), Some(b"X\nL\n")).unwrap();
    match step {
        PullStep::WriteConflict(bytes) => assert_eq!(
            String::from_utf8(bytes).unwrap(),
            "<<<<<<< local\nX\nL\n\n=======\nX\nR\n\n>>>>>>> remote\n"
        ),
        other => panic!("{:?}", other),
    }
    assert_eq!(entry.last_synced_hash, Some(h(b"X\nR\n")));
    assert_eq!(entry.last_synced_version, Some(5));
}

#[test]
fn aad_mismatch_tamper() {
    let mut entry = entry_with_base(Some(b"X\n"), Some(2));
    let mut remote = remote_object("dev", ".env", None, b"X\n", 4);
    remote.aad = STANDARD.encode(b"v1|R1|prod|.env|-");
    remote.ciphertext = "this would not even decode".to_string();
    let e = pull_entry(&mut entry, "R1", "dev", &KEY, Some(&remote), Some(b"X\n")).unwrap_err();
    match e {
        MilieuError::Crypto(text) => assert_eq!(text, "aad mismatch for .env"),
        other => panic!("{:?}", other),
    }
    assert_eq!(entry.last_synced_hash, Some(h(b"X\n")));
    assert_eq!(entry.last_synced_version, Some(2));
}

#[test]
fn an_object_of_another_place_does_not_open() {
    let entry = entry_with_base(None, None);
    let mut moved = remote_object("prod", ".env", None, b"X\n", 1);
    moved.aad = STANDARD.encode(aad_for(1, "R1", "dev", ".env", None));
    let e = open_checked(&entry, "R1", "dev", &KEY, &moved).unwrap_err();
    assert!(matches!(e, MilieuError::Crypto(text) if text == "decrypt: aead::Error"));
    let good = remote_object("dev", ".env", None, b"X\n", 1);
    assert_eq!(open_checked(&entry, "R1", "dev", &KEY, &good).unwrap(), b"X\n".to_vec());
    let e = open_checked(&entry, "R1", "dev", &[0u8; 32], &good).unwrap_err();
    assert!(matches!(e, MilieuError::Crypto(_)));
}

#[test]
fn pull_without_a_remote_object_changes_nothing() {
    let mut entry = entry_with_base(Some(b"X\n"), Some(2));
    let step = pull_entry(&mut entry, "R1", "dev", &KEY, None, Some(b"X\n")).unwrap();
    assert!(matches!(step, PullStep::MissingRemote));
    assert_eq!(entry.last_synced_version, Some(2));
}

#[test]
fn pull_validates_the_path_first() {
    let mut entry = FileEntry::new("../.env".to_string(), None);
    let remote = remote_object("dev", "../.env", None, b"X\n", 1);
    let e = pull_entry(&mut entry, "R1", "dev", &KEY, Some(&remote), None).unwrap_err();
    assert!(matches!(e, MilieuError::CommandFailed(text) if text == "path cannot contain '..'"));
}

#[test]
fn pull_with_a_tag_binds_the_tag() {
    let mut entry = FileEntry::new(".env".to_string(), Some("prod".to_string()));
    let remote = remote_object("dev", ".env", Some("prod"), b"T=1\n", 1);
    assert!(pull_entry(&mut entry, "R1", "dev", &KEY, Some(&remote), None).is_ok());
    let mut untagged = FileEntry::new(".env".to_string(), None);
    let e = pull_entry(&mut untagged, "R1", "dev", &KEY, Some(&remote), None).unwrap_err();
    assert!(matches!(e, MilieuError::Crypto(text) if text == "aad mismatch for .env"));
}

#[test]
fn every_row_of_the_table() {
    let a = content_hash(b"a");
    let b = content_hash(b"b");
    let c = content_hash(b"c");
    assert_eq!(decide_pull(None, None, &a), PullKind::Pulled);
    assert_eq!(decide_pull(None, Some(b), &a), PullKind::Pulled);
    assert_eq!(decide_pull(Some(a), None, &a), PullKind::UpToDate);
    assert_eq!(decide_pull(Some(b), None, &a), PullKind::Conflict);
    assert_eq!(decide_pull(Some(b), Some(b), &a), PullKind::Pulled);
    assert_eq!(decide_pull(Some(b), Some(b), &b), PullKind::Pulled);
    assert_eq!(decide_pull(Some(c), Some(b), &b), PullKind::KeptLocal);
    assert_eq!(decide_pull(Some(a), Some(b), &a), PullKind::UpToDate);
    assert_eq!(decide_pull(Some(c), Some(b), &a), PullKind::Conflict);
}

#[test]
fn reconcile_records_the_remote_hash_whenever_it_writes() {
    let mut fast_forward = entry_with_base(Some(b"old"), Some(1));
    let step = reconcile(&mut fast_forward, Some(b"old"), b"new".to_vec(), Some(2));
    assert!(matches!(step, PullStep::Write(bytes) if bytes == b"new".to_vec()));
    assert_eq!(fast_forward.last_synced_hash, Some(h(b"new")));
    let mut same = entry_with_base(None, None);
    let step = reconcile(&mut same, Some(b"same"), b"same".to_vec(), None);
    assert!(matches!(step, PullStep::UpToDate));
    assert_eq!(same.last_synced_hash, Some(to_hex(&content_hash(b"same"))));
    assert_eq!(same.last_synced_version, None);
    let mut no_base = entry_with_base(None, None);
    let step = reconcile(&mut no_base, Some(b"mine"), b"theirs".to_vec(), Some(8));
    assert!(matches!(step, PullStep::WriteConflict(_)));
    assert_eq!(no_base.last_synced_hash, Some(h(b"theirs")));
    let mut junk_base = entry_with_base(None, Some(1));
    junk_base.last_synced_hash = Some("not a hash".to_string());
    let step = reconcile(&mut junk_base, Some(b"mine"), b"mine".to_vec(), Some(8));
    assert!(matches!(step, PullStep::UpToDate));
}

#[test]
fn conflict_content_reads_bytes_leniently() {
    let out = conflict_content(b"a\xff", b"b");
    assert_eq!(
        String::from_utf8(out).unwrap(),
        "<<<<<<< local\na\u{fffd}\n=======\nb\n>>>>>>> remote\n"
    );
}
