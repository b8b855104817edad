use milieu::auth::{
    clear_auth, clear_umk, delete_session, load_auth_token, load_email, load_phrase, load_umk,
    load_user_id, profile_key, service_name, session_key, store_auth, store_email, store_phrase,
    store_umk, SecretStore, SessionSecret,
};
use milieu::commands::session::{
    check_history, keychain_check, keychain_probe, login_status, logout, phrase_show, phrase_status,
    scope_branch, scope_repo, scope_user, LogoutStep,
};
use milieu::error::MilieuError;
use milieu::keys::{
    ensure_user_keypair, get_or_fetch_repo_key, key_algorithm, load_repo_key, profile_email,
    receive_repo_key, repo_key_key, store_repo_key, user_keypair_key, wrap_repo_key_for_user,
    RepoKeyStep,
};

#[test]
fn profile_names_are_trimmed_and_lowered() {
    assert_eq!(profile_key("  Work \n"), "work");
    assert_eq!(profile_key("default"), "default");
    assert_eq!(session_key(" Alice@Example.COM "), "session:alice@example.com");
    assert_eq!(service_name(), "milieu");
}

#[test]
fn a_profile_without_a_record_has_no_secrets() {
    let store = SecretStore::new();
    assert!(store.cached("p").is_none());
    assert!(matches!(load_auth_token(&store, "p"), Err(MilieuError::AuthMissing)));
    assert!(matches!(load_user_id(&store, "p"), Err(MilieuError::UserIdMissing)));
    assert!(matches!(load_umk(&store, "p"), Err(MilieuError::UmkMissing)));
    assert_eq!(load_email(&store, "p"), None);
    assert_eq!(load_phrase(&store, "p"), None);
}

#[test]
fn each_secret_is_stored_on_its_own() {
    let mut store = SecretStore::new();
    let written = store_auth(&mut store, "P", "token", "user-1");
    assert_eq!(written.auth_token.as_deref(), Some("token"));
    assert_eq!(written.user_id.as_deref(), Some("user-1"));
    assert_eq!(written.umk, None);
    let written = store_email(&mut store, "p ", "a@b.c");
    assert_eq!(written.auth_token.as_deref(), Some("token"));
    assert_eq!(written.email.as_deref(), Some("a@b.c"));
    store_umk(&mut store, "p", "dW1r");
    let written = store_phrase(&mut store, "p", "twelve words");
    assert_eq!(written.umk.as_deref(), Some("dW1r"));
    assert_eq!(load_auth_token(&store, "p").unwrap(), "token");
    assert_eq!(load_user_id(&store, " P").unwrap(), "user-1");
    assert_eq!(load_umk(&store, "p").unwrap(), "dW1r");
    assert_eq!(load_phrase(&store, "p").as_deref(), Some("twelve words"));
    assert_eq!(load_email(&store, "p").as_deref(), Some("a@b.c"));
    assert!(matches!(load_auth_token(&store, "q"), Err(MilieuError::AuthMissing)));
    let written = clear_auth(&mut store, "p");
    assert_eq!(written.auth_token, None);
    assert_eq!(written.user_id, None);
    assert_eq!(written.umk.as_deref(), Some("dW1r"));
    assert!(matches!(load_auth_token(&store, "p"), Err(MilieuError::AuthMissing)));
    let written = clear_umk(&mut store, "p");
    assert_eq!(written.umk, None);
    assert_eq!(written.phrase, None);
    assert_eq!(written.email.as_deref(), Some("a@b.c"));
    assert_eq!(delete_session(&mut store, " P "), "session:p");
    assert!(store.cached("p").is_none());
    assert_eq!(load_email(&store, "p"), None);
}

#[test]
fn the_cache_is_filled_from_what_is_persisted() {
    let mut store = SecretStore::new();
    let persisted = SessionSecret { email: Some("a@b.c".to_string()), ..SessionSecret::default() };
    let got = store.populate("p", Some(persisted));
    assert_eq!(got.email.as_deref(), Some("a@b.c"));
    let other = SessionSecret { email: Some("late@b.c".to_string()), ..SessionSecret::default() };
    let got = store.populate("p", Some(other));
    assert_eq!(got.email.as_deref(), Some("a@b.c"));
    let got = store.populate("q", None);
    assert_eq!(got.email, None);
    assert!(store.cached("q").is_some());
    store.forget("q");
    assert!(store.cached("q").is_none());
    assert!(store.cached("p").is_some());
    store.remember("r", SessionSecret { umk: Some("x".to_string()), ..SessionSecret::default() });
    store.remember("r", SessionSecret { umk: Some("y".to_string()), ..SessionSecret::default() });
    assert_eq!(store.session("r").umk.as_deref(), Some("y"));
    assert_eq!(store.session("nobody").umk, None);
}

#[test]
fn logout_keeps_or_erases() {
    let mut store = SecretStore::new();
    store_auth(&mut store, "p", "t", "u");
    store_umk(&mut store, "p", "k");
    match logout(&mut store, "p", true) {
        LogoutStep::Keep(secret) => {
            assert_eq!(secret.auth_token, None);
            assert_eq!(secret.umk.as_deref(), Some("k"));
        }
        other => panic!("{:?}", other),
    }
    assert_eq!(load_umk(&store, "p").unwrap(), "k");
    match logout(&mut store, "p", false) {
        LogoutStep::Erase(key) => assert_eq!(key, "session:p"),
        other => panic!("{:?}", other),
    }
    assert!(store.cached("p").is_none());
}

#[test]
fn the_phrase_is_shown_to_a_logged_in_profile() {
    let mut store = SecretStore::new();
    assert!(matches!(phrase_show(&store, "p"), Err(MilieuError::UserIdMissing)));
    assert!(matches!(phrase_status(&store, "p"), Err(MilieuError::UserIdMissing)));
    store_auth(&mut store, "p", "t", "u");
    assert!(matches!(
        phrase_show(&store, "p"),
        Err(MilieuError::CommandFailed(text)) if text == "no recovery phrase found in keychain"
    ));
    assert_eq!(phrase_status(&store, "p").unwrap(), false);
    store_phrase(&mut store, "p", "words");
    assert_eq!(phrase_show(&store, "p").unwrap(), "words");
    assert_eq!(phrase_status(&store, "p").unwrap(), true);
}

#[test]
fn small_texts_and_checks() {
    let mut store = SecretStore::new();
    assert_eq!(login_status(&store), "status: not logged in");
    store_auth(&mut store, "default", "t", "user-9");
    assert_eq!(login_status(&store), "status: logged in (user-9)");
    assert_eq!(scope_user(Some("a@b.c")), "SCOPE: user a@b.c");
    assert_eq!(scope_user(None), "SCOPE: user");
    let m = milieu::commands::init::new_manifest("R1".to_string(), "app".to_string());
    assert_eq!(scope_repo(&m), "SCOPE: repo app");
    assert_eq!(scope_branch(&m, "dev"), "SCOPE: repo app -> branch dev");
    assert_eq!(keychain_probe(), ("doctor_temp", "ok"));
    assert!(keychain_check(Some("ok")).is_ok());
    for bad in [Some("no"), None] {
        assert!(matches!(
            keychain_check(bad),
            Err(MilieuError::CommandFailed(text)) if text == "keychain read mismatch"
        ));
    }
    assert!(matches!(
        check_history(&vec![]),
        Err(MilieuError::CommandFailed(text)) if text == "no history for file"
    ));
    let one = milieu::api::HistoryEntry { version: 1, created_at: String::new(), ciphertext_hash: None };
    assert!(check_history(&vec![one]).is_ok());
}

#[test]
fn keys_are_kept_under_the_email() {
    assert_eq!(user_keypair_key("a@b.c"), "user_keypair:a@b.c");
    assert_eq!(repo_key_key("a@b.c", "R1"), "repo_key:a@b.c:R1");
    assert_eq!(key_algorithm(), "x25519-hkdf-xchacha20poly1305");
    let mut store = SecretStore::new();
    let missing = |r: Result<String, MilieuError>| match r {
        Err(MilieuError::CommandFailed(text)) => text,
        other => panic!("{:?}", other),
    };
    assert_eq!(missing(profile_email(&store, "p")), "missing email; run `milieu login`");
    assert!(store_repo_key(&store, "p", "R1", &[1u8; 32]).is_err());
    store_email(&mut store, "p", "a@b.c");
    assert_eq!(profile_email(&store, "p").unwrap(), "a@b.c");
    let write = store_repo_key(&store, "p", "R1", &[1u8; 32]).unwrap();
    assert_eq!(write.key, "repo_key:a@b.c:R1");
    assert_eq!(load_repo_key(Some(&write.value)).unwrap(), Some([1u8; 32]));
    assert_eq!(load_repo_key(None).unwrap(), None);
    assert!(matches!(load_repo_key(Some("AAAA")), Err(MilieuError::Crypto(_))));
}

#[test]
fn the_user_key_pair_is_kept_or_drawn() {
    let plan = ensure_user_keypair(None, None).unwrap();
    assert!(plan.store && plan.publish);
    let private = plan.keypair.private_key_b64.clone();
    let public = plan.keypair.public_key_b64.clone();
    let again = ensure_user_keypair(Some(&private), Some(&public)).unwrap();
    assert!(!again.store && !again.publish);
    assert_eq!(again.keypair.public_key_b64, public);
    assert_eq!(again.keypair.private_key_b64, private);
    let mismatch = ensure_user_keypair(Some(&private), Some("someone else's")).unwrap();
    assert!(!mismatch.store && mismatch.publish);
    let absent = ensure_user_keypair(Some(&private), None).unwrap();
    assert!(absent.publish);
    let fresh = ensure_user_keypair(None, Some(&public)).unwrap();
    assert!(fresh.store && fresh.publish);
    assert!(matches!(ensure_user_keypair(Some("AAAA"), None), Err(MilieuError::Crypto(_))));
}

#[test]
fn a_repo_key_is_loaded_or_fetched() {
    let pair = ensure_user_keypair(None, None).unwrap().keypair;
    let stored = milieu::crypto::encode_key(&[4u8; 32]);
    match get_or_fetch_repo_key(Some(&stored), None).unwrap() {
        RepoKeyStep::Ready(key) => assert_eq!(key, [4u8; 32]),
        other => panic!("{:?}", other),
    }
    assert!(matches!(
        get_or_fetch_repo_key(None, Some(&pair.private_key_b64)).unwrap(),
        RepoKeyStep::Fetch(private) if private == pair.private_key_b64
    ));
    assert!(matches!(
        get_or_fetch_repo_key(None, None),
        Err(MilieuError::CommandFailed(text)) if text == "missing user keypair; run `milieu login` again"
    ));
    assert!(matches!(get_or_fetch_repo_key(Some("AAAA"), None), Err(MilieuError::Crypto(_))));
    let wrapped = wrap_repo_key_for_user(&pair.public_key_b64, &[4u8; 32]).unwrap();
    assert_eq!(receive_repo_key(&pair.private_key_b64, Some(&wrapped)).unwrap(), [4u8; 32]);
    assert!(matches!(
        receive_repo_key(&pair.private_key_b64, None),
        Err(MilieuError::CommandFailed(text))
            if text == "repo key not shared yet; ask the owner to run `milieu repos manage share --repo <name>`"
    ));
    assert!(wrap_repo_key_for_user("AAAA", &[4u8; 32]).is_err());
}
