use base64::engine::general_purpose::STANDARD;
use base64::Engine;
use milieu::api::ObjectResponse;
use milieu::commands::push::{
    bytes_eq, enforce_repo_size_limit, is_push_conflict, prepare_upload, prepare_upload_with,
    record_upload, scan_entry, tracked_paths, PushScan, UploadStep, MAX_REPO_BYTES,
};
use milieu::crypto::{aad_for, decrypt_bytes, encrypt_bytes};
use milieu::digest::content_hash;
use milieu::error::MilieuError;
use milieu::manifest::{Branch, FileEntry, Manifest};

const KEY: [u8; 32] = [0x11u8; 32];

fn h(data: &[u8]) -> String {
    blake3::hash(data).to_hex().to_string()
}

fn remote_object(plain: &[u8], version: u32) -> ObjectResponse {
    let aad = aad_for(1, "R1", "dev", ".env", None);
    let (nonce, ciphertext) = encrypt_bytes(&KEY, &aad, plain).unwrap();
    ObjectResponse {
        path: ".env".to_string(),
        nonce,
        ciphertext,
        aad: STANDARD.encode(&aad),
        ciphertext_hash: None,
        version: Some(version),
        created_at: "2024-01-01T00:00:00Z".to_string(),
        schema_version: 1,
    }
}

fn entry(base: Option<&[u8]>, version: Option<u32>) -> FileEntry {
    FileEntry {
        path: ".env".to_string(),
        tag: None,
        last_synced_hash: base.map(h),
        last_synced_version: version,
    }
}

fn failed(e: MilieuError) -> String {
    match e {
        MilieuError::CommandFailed(text) => text,
        other => panic!("{:?}", other),
    }
}

#[test]
fn first_push_of_a_new_file() {
    let mut e = entry(None, None);
    let mut scan = PushScan::new();
    scan.scan(&e, "R1", "dev", &KEY, Some(b"A=1\n"), None).unwrap();
    let clearance = scan.finish().unwrap();
    let step = prepare_upload(&clearance, &mut e, "R1", "dev", &KEY, Some(b"A=1\n"), None, "2024-05-01T00:00:00Z")
        .unwrap();
    let request = match step {
        UploadStep::Upload(request) => request,
        other => panic!("{:?}", other),
    };
    assert_eq!(STANDARD.decode(&request.aad).unwrap(), b"v1|R1|dev|.env|-".to_vec());
    assert_eq!(STANDARD.decode(&request.nonce).unwrap().len(), 24);
    assert_eq!(request.path, ".env");
    assert_eq!(request.schema_version, 1);
    assert_eq!(request.created_at, "2024-05-01T00:00:00Z");
    assert_eq!(request.ciphertext_hash, h(request.ciphertext.as_bytes()));
    let plain = decrypt_bytes(&KEY, b"v1|R1|dev|.env|-", &request.nonce, &request.ciphertext).unwrap();
    assert_eq!(plain, b"A=1\n".to_vec());
    assert_eq!(e.last_synced_hash, None);
    record_upload(&mut e, b"A=1\n", Some(1));
    assert_eq!(e.last_synced_hash, Some(h(b"A=1\n")));
    assert_eq!(e.last_synced_version, Some(1));
}

#[test]
fn push_reject_due_to_drift() {
    let e = entry(Some(b"A=1\n"), Some(1));
    let remote = remote_object(b"A=3\n", 2);
    let mut scan = PushScan::new();
    scan.scan(&e, "R1", "dev", &KEY, Some(b"A=2\n"), Some(&remote)).unwrap();
    assert_eq!(scan.conflicts(), &vec![".env".to_string()]);
    let message = failed(scan.finish().map(|_| ()).unwrap_err());
    assert_eq!(message, "remote has new changes; run `milieu pull` first:\n  - .env");
    assert_eq!(e.last_synced_hash, Some(h(b"A=1\n")));
    assert_eq!(e.last_synced_version, Some(1));
}

#[test]
fn every_conflict_is_listed() {
    let mut scan = PushScan::new();
    let first = entry(Some(b"base"), Some(1));
    let mut second = entry(None, None);
    second.path = "conf/.env.local".to_string();
    let remote = remote_object(b"drifted", 2);
    scan.scan(&first, "R1", "dev", &KEY, Some(b"mine"), Some(&remote)).unwrap();
    let aad = aad_for(1, "R1", "dev", "conf/.env.local", None);
    let (nonce, ciphertext) = encrypt_bytes(&KEY, &aad, b"theirs").unwrap();
    let other = ObjectResponse { nonce, ciphertext, path: second.path.clone(), ..remote_object(b"x", 1) };
    scan.scan(&second, "R1", "dev", &KEY, Some(b"mine"), Some(&other)).unwrap();
    let message = failed(scan.finish().map(|_| ()).unwrap_err());
    assert_eq!(
        message,
        "remote has new changes; run `milieu pull` first:\n  - .env\n  - conf/.env.local"
    );
}

#[test]
fn the_scan_tells_drift_from_local_changes() {
    let remote_at_base = remote_object(b"base", 1);
    let with_base = entry(Some(b"base"), Some(1));
    assert!(!scan_entry(&with_base, "R1", "dev", &KEY, Some(b"changed locally"), Some(&remote_at_base)).unwrap());
    assert!(!scan_entry(&with_base, "R1", "dev", &KEY, Some(b"base"), None).unwrap());
    let drifted = remote_object(b"moved on", 2);
    assert!(scan_entry(&with_base, "R1", "dev", &KEY, Some(b"base"), Some(&drifted)).unwrap());
    assert!(scan_entry(&with_base, "R1", "dev", &KEY, Some(b"moved on"), Some(&drifted)).unwrap());
    let no_base = entry(None, None);
    assert!(!scan_entry(&no_base, "R1", "dev", &KEY, Some(b"moved on"), Some(&drifted)).unwrap());
    assert!(scan_entry(&no_base, "R1", "dev", &KEY, Some(b"other"), Some(&drifted)).unwrap());
    let a = content_hash(b"a");
    let b = content_hash(b"b");
    assert!(is_push_conflict(&a, Some(a), &b));
    assert!(!is_push_conflict(&b, Some(a), &a));
    assert!(is_push_conflict(&a, None, &b));
    assert!(!is_push_conflict(&a, None, &a));
}

#[test]
fn the_scan_reports_each_failure() {
    let e = entry(None, None);
    assert_eq!(failed(scan_entry(&e, "R1", "dev", &KEY, None, None).unwrap_err()), "missing file: .env");
    let remote = remote_object(b"x", 1);
    assert_eq!(
        failed(scan_entry(&e, "R1", "dev", &[0u8; 32], Some(b"x"), Some(&remote)).unwrap_err()),
        "failed to decrypt remote for .env; run `milieu pull`"
    );
    let mut bad = entry(None, None);
    bad.path = "/abs/.env".to_string();
    assert_eq!(
        failed(scan_entry(&bad, "R1", "dev", &KEY, Some(b"x"), None).unwrap_err()),
        "only repo-relative .env* paths are allowed"
    );
    let mut scan = PushScan::new();
    assert!(scan.scan(&e, "R1", "dev", &KEY, None, None).is_err());
    assert!(scan.conflicts().is_empty());
    assert!(scan.finish().is_ok());
}

#[test]
fn a_file_that_the_remote_holds_already_is_not_sent() {
    let clearance = PushScan::new().finish().unwrap();
    let mut e = entry(None, None);
    let remote = remote_object(b"same\n", 6);
    let step = prepare_upload(&clearance, &mut e, "R1", "dev", &KEY, Some(b"same\n"), Some(&remote), "now").unwrap();
    assert!(matches!(step, UploadStep::Unchanged));
    assert_eq!(e.last_synced_hash, Some(h(b"same\n")));
    assert_eq!(e.last_synced_version, Some(6));
    let mut changed = entry(Some(b"same\n"), Some(6));
    let step =
        prepare_upload(&clearance, &mut changed, "R1", "dev", &KEY, Some(b"same\r\n"), Some(&remote), "now").unwrap();
    assert!(matches!(step, UploadStep::Upload(_)));
    assert_eq!(changed.last_synced_version, Some(6));
}

#[test]
fn the_upload_reports_each_failure() {
    let clearance = PushScan::new().finish().unwrap();
    let mut e = entry(None, None);
    let r = prepare_upload(&clearance, &mut e, "R1", "dev", &KEY, None, None, "now");
    assert_eq!(failed(r.unwrap_err()), "missing file: .env");
    let remote = remote_object(b"x", 1);
    let r = prepare_upload(&clearance, &mut e, "R1", "dev", &[0u8; 32], Some(b"x"), Some(&remote), "now");
    assert!(matches!(r.unwrap_err(), MilieuError::Crypto(text) if text == "decrypt: aead::Error"));
    let mut bad = FileEntry::new("notes.txt".to_string(), None);
    let r = prepare_upload(&clearance, &mut bad, "R1", "dev", &KEY, Some(b"x"), None, "now");
    assert_eq!(failed(r.unwrap_err()), "only .env* files are allowed");
}

#[test]
fn an_upload_with_a_given_nonce_is_determined() {
    let clearance = PushScan::new().finish().unwrap();
    let mut a = FileEntry::new(".env".to_string(), Some("t".to_string()));
    let mut b = FileEntry::new(".env".to_string(), Some("t".to_string()));
    let nonce = [5u8; 24];
    let first = prepare_upload_with(&clearance, &mut a, "R1", "dev", &KEY, Some(b"v"), None, "now", &nonce).unwrap();
    let second = prepare_upload_with(&clearance, &mut b, "R1", "dev", &KEY, Some(b"v"), None, "now", &nonce).unwrap();
    match (first, second) {
        (UploadStep::Upload(x), UploadStep::Upload(y)) => {
            assert_eq!(x.ciphertext, y.ciphertext);
            assert_eq!(x.nonce, STANDARD.encode(nonce));
            assert_eq!(STANDARD.decode(&x.aad).unwrap(), b"v1|R1|dev|.env|t".to_vec());
        }
        other => panic!("{:?}", other),
    }
}

#[test]
fn the_size_cap_is_one_mebibyte() {
    assert_eq!(MAX_REPO_BYTES, 1024 * 1024);
    assert!(enforce_repo_size_limit(&vec![]).is_ok());
    assert!(enforce_repo_size_limit(&vec![Some(1048576)]).is_ok());
    assert!(enforce_repo_size_limit(&vec![Some(1048575), None, Some(1)]).is_ok());
    assert_eq!(
        failed(enforce_repo_size_limit(&vec![Some(1048576), Some(1)]).unwrap_err()),
        "repo size 1048577 bytes exceeds 1MB cap"
    );
    assert_eq!(
        failed(enforce_repo_size_limit(&vec![Some(u64::MAX), Some(u64::MAX)]).unwrap_err()),
        "repo size 36893488147419103230 bytes exceeds 1MB cap"
    );
}

#[test]
fn the_size_check_takes_each_path_once() {
    let files = |paths: &[&str]| paths.iter().map(|p| FileEntry::new(p.to_string(), None)).collect::<Vec<_>>();
    let mut m = Manifest {
        version: 1,
        repo_id: "R1".to_string(),
        repo_name: "app".to_string(),
        active_branch: "dev".to_string(),
        branches: vec![
            Branch { name: "dev".to_string(), files: files(&[".env", ".env.local"]) },
            Branch { name: "prod".to_string(), files: files(&[".env", "conf/.env", ".env.local"]) },
        ],
        remote: None,
    };
    assert_eq!(tracked_paths(&m).unwrap(), vec![".env", ".env.local", "conf/.env"]);
    m.branches[1].files.push(FileEntry::new("../.env".to_string(), None));
    m.branches[1].files.push(FileEntry::new("/x".to_string(), None));
    assert_eq!(failed(tracked_paths(&m).unwrap_err()), "path cannot contain '..'");
    m.branches.clear();
    assert!(tracked_paths(&m).unwrap().is_empty());
}

#[test]
fn bytes_compare_one_by_one() {
    assert!(bytes_eq(b"", b""));
    assert!(bytes_eq(b"abc", b"abc"));
    assert!(!bytes_eq(b"abc", b"abd"));
    assert!(!bytes_eq(b"abc", b"ab"));
}
