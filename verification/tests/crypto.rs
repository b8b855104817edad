use base64::engine::general_purpose::STANDARD;
use base64::Engine;
use chacha20poly1305::aead::{Aead, KeyInit, Payload};
use chacha20poly1305::{Key, XChaCha20Poly1305, XNonce};
use milieu::crypto::{
    aad_for, decode_key, decrypt_bytes, decrypt_umk_blob, derive_key, derive_keypair_from_umk,
    encode_key, encrypt_bytes, encrypt_umk_blob, encrypt_umk_blob_with, encrypt_with_nonce,
    generate_keypair, generate_umk, keypair_from_secret, public_key_from_private,
    unwrap_repo_key_with_private_key, wrap_repo_key_for_public_key, wrap_repo_key_with, KdfParams,
};
use milieu::error::MilieuError;

fn crypto_text(e: MilieuError) -> String {
    match e {
        MilieuError::Crypto(text) => text,
        other => panic!("not a crypto error: {:?}", other),
    }
}

#[test]
fn aad_has_the_canonical_form() {
    let aad = aad_for(1, "R1", "dev", ".env", None);
    assert_eq!(aad, b"v1|R1|dev|.env|-".to_vec());
    let tagged = aad_for(12, "R1", "dev", ".env.local", Some("prod"));
    assert_eq!(tagged, b"v12|R1|dev|.env.local|prod".to_vec());
    let wide = aad_for(4294967295, "r", "b", "p", Some(""));
    assert_eq!(wide, b"v4294967295|r|b|p|".to_vec());
    let zero = aad_for(0, "é", "b", "p", None);
    assert_eq!(zero, "v0|é|b|p|-".as_bytes().to_vec());
}

#[test]
fn encrypt_then_decrypt_gives_the_plaintext() {
    let key = [0x11u8; 32];
    let aad = aad_for(1, "R1", "dev", ".env", None);
    let (nonce, ciphertext) = encrypt_bytes(&key, &aad, b"A=1\n").unwrap();
    assert_eq!(STANDARD.decode(&nonce).unwrap().len(), 24);
    assert_eq!(STANDARD.decode(&ciphertext).unwrap().len(), 4 + 16);
    let plain = decrypt_bytes(&key, &aad, &nonce, &ciphertext).unwrap();
    assert_eq!(plain, b"A=1\n".to_vec());
    let (_, empty) = encrypt_bytes(&key, &aad, b"").unwrap();
    assert_eq!(STANDARD.decode(&empty).unwrap().len(), 16);
}

#[test]
fn two_encryptions_draw_two_nonces() {
    let key = [7u8; 32];
    let (n1, c1) = encrypt_bytes(&key, b"aad", b"same").unwrap();
    let (n2, c2) = encrypt_bytes(&key, b"aad", b"same").unwrap();
    assert_ne!(n1, n2);
    assert_ne!(c1, c2);
}

#[test]
fn encrypt_with_nonce_is_xchacha20poly1305() {
    let key = [0x22u8; 32];
    let nonce = [0x33u8; 24];
    let (n, c) = encrypt_with_nonce(&key, &nonce, b"context", b"hello world").unwrap();
    let cipher = XChaCha20Poly1305::new(Key::from_slice(&key));
    let expected = cipher
        .encrypt(XNonce::from_slice(&nonce), Payload { msg: b"hello world", aad: b"context" })
        .unwrap();
    assert_eq!(n, STANDARD.encode(nonce));
    assert_eq!(c, STANDARD.encode(&expected));
    assert_ne!(STANDARD.decode(&c).unwrap(), b"hello world".to_vec());
}

#[test]
fn any_other_aad_field_fails_to_decrypt() {
    let key = [0x11u8; 32];
    let aad = aad_for(1, "R1", "dev", ".env", Some("t"));
    let (nonce, ciphertext) = encrypt_bytes(&key, &aad, b"secret").unwrap();
    let others = vec![
        aad_for(2, "R1", "dev", ".env", Some("t")),
        aad_for(1, "R2", "dev", ".env", Some("t")),
        aad_for(1, "R1", "prod", ".env", Some("t")),
        aad_for(1, "R1", "dev", ".env.local", Some("t")),
        aad_for(1, "R1", "dev", ".env", Some("u")),
        aad_for(1, "R1", "dev", ".env", None),
    ];
    for other in others {
        let e = decrypt_bytes(&key, &other, &nonce, &ciphertext).unwrap_err();
        assert_eq!(crypto_text(e), "decrypt: aead::Error");
    }
}

#[test]
fn decrypt_reports_each_failure() {
    let key = [1u8; 32];
    let (nonce, ciphertext) = encrypt_bytes(&key, b"a", b"data").unwrap();
    let e = decrypt_bytes(&key, b"a", "***", &ciphertext).unwrap_err();
    assert!(crypto_text(e).starts_with("invalid nonce base64: "));
    let short = STANDARD.encode([0u8; 12]);
    let e = decrypt_bytes(&key, b"a", &short, &ciphertext).unwrap_err();
    assert_eq!(crypto_text(e), "invalid nonce length");
    let e = decrypt_bytes(&key, b"a", &nonce, "not base64!").unwrap_err();
    assert!(crypto_text(e).starts_with("invalid ciphertext base64: "));
    let other_key = [2u8; 32];
    let e = decrypt_bytes(&other_key, b"a", &nonce, &ciphertext).unwrap_err();
    assert_eq!(crypto_text(e), "decrypt: aead::Error");
    let mut bytes = STANDARD.decode(&ciphertext).unwrap();
    bytes[0] ^= 1;
    let e = decrypt_bytes(&key, b"a", &nonce, &STANDARD.encode(&bytes)).unwrap_err();
    assert_eq!(crypto_text(e), "decrypt: aead::Error");
    let e = decrypt_bytes(&key, b"a", &nonce, "").unwrap_err();
    assert_eq!(crypto_text(e), "decrypt: aead::Error");
}

#[test]
fn error_text_of_a_bad_nonce_is_the_decoders() {
    let key = [1u8; 32];
    let e = decrypt_bytes(&key, b"a", "@@@@", "AAAA").unwrap_err();
    let expected = format!("invalid nonce base64: {}", STANDARD.decode("@@@@").unwrap_err());
    assert_eq!(crypto_text(e), expected);
}

fn fast_params(salt: &[u8]) -> KdfParams {
    KdfParams { salt: STANDARD.encode(salt), m_cost: 8, t_cost: 1, p_cost: 1 }
}

#[test]
fn derive_key_is_argon2id() {
    let params = fast_params(b"0123456789abcdef");
    let key = derive_key("correct horse", &params).unwrap();
    let again = derive_key("correct horse", &params).unwrap();
    assert_eq!(key, again);
    let argon = argon2::Argon2::new(
        argon2::Algorithm::Argon2id,
        argon2::Version::V0x13,
        argon2::Params::new(8, 1, 1, Some(32)).unwrap(),
    );
    let mut expected = [0u8; 32];
    argon.hash_password_into(b"correct horse", b"0123456789abcdef", &mut expected).unwrap();
    assert_eq!(key, expected);
}

#[test]
fn derive_key_changes_with_every_parameter() {
    let base = derive_key("phrase", &fast_params(b"0123456789abcdef")).unwrap();
    assert_ne!(base, derive_key("phrase2", &fast_params(b"0123456789abcdef")).unwrap());
    assert_ne!(base, derive_key("phrase", &fast_params(b"0123456789abcdeX")).unwrap());
    let mut more_memory = fast_params(b"0123456789abcdef");
    more_memory.m_cost = 16;
    assert_ne!(base, derive_key("phrase", &more_memory).unwrap());
    let mut more_time = fast_params(b"0123456789abcdef");
    more_time.t_cost = 2;
    assert_ne!(base, derive_key("phrase", &more_time).unwrap());
    let mut more_lanes = fast_params(b"0123456789abcdef");
    more_lanes.m_cost = 16;
    more_lanes.p_cost = 2;
    assert_ne!(derive_key("phrase", &more_memory).unwrap(), derive_key("phrase", &more_lanes).unwrap());
}

#[test]
fn derive_key_reports_each_failure() {
    let mut params = fast_params(b"0123456789abcdef");
    params.salt = "%%%".to_string();
    assert!(crypto_text(derive_key("p", &params).unwrap_err()).starts_with("invalid base64 salt: "));
    let mut params = fast_params(b"0123456789abcdef");
    params.m_cost = 4;
    assert_eq!(
        crypto_text(derive_key("p", &params).unwrap_err()),
        "argon2 params: memory cost is too small"
    );
    params.m_cost = 8;
    params.p_cost = 2;
    assert_eq!(
        crypto_text(derive_key("p", &params).unwrap_err()),
        "argon2 params: memory cost is too small"
    );
    params.p_cost = 1;
    params.t_cost = 0;
    assert_eq!(
        crypto_text(derive_key("p", &params).unwrap_err()),
        "argon2 params: time cost is too small"
    );
    params.t_cost = 1;
    params.p_cost = 0;
    assert_eq!(crypto_text(derive_key("p", &params).unwrap_err()), "argon2 params: not enough threads");
    params.p_cost = 0x1000000;
    params.m_cost = u32::MAX;
    assert_eq!(crypto_text(derive_key("p", &params).unwrap_err()), "argon2 params: too many threads");
    params.p_cost = u32::MAX;
    assert_eq!(
        crypto_text(derive_key("p", &params).unwrap_err()),
        "argon2 params: memory cost is too small"
    );
    let short_salt = fast_params(b"short");
    assert_eq!(
        crypto_text(derive_key("p", &short_salt).unwrap_err()),
        "argon2 derive: salt is too short"
    );
}

#[test]
fn default_parameters_have_a_fresh_salt() {
    let a = KdfParams::new_default();
    let b = KdfParams::new_default();
    assert_eq!((a.m_cost, a.t_cost, a.p_cost), (65536, 3, 1));
    assert_eq!(STANDARD.decode(&a.salt).unwrap().len(), 16);
    assert_ne!(a.salt, b.salt);
    let fixed = KdfParams::with_salt(&[9u8; 16]);
    assert_eq!(fixed.salt, STANDARD.encode([9u8; 16]));
}

#[test]
fn keys_round_trip_through_base64() {
    let key = generate_umk();
    assert_ne!(key, generate_umk());
    let text = encode_key(&key);
    assert_eq!(text, STANDARD.encode(key));
    assert_eq!(decode_key(&text).unwrap(), key);
    assert_eq!(crypto_text(decode_key("AAAA").unwrap_err()), "invalid key length");
    assert!(crypto_text(decode_key("????").unwrap_err()).starts_with("invalid key base64: "));
}

#[test]
fn key_pairs_are_x25519() {
    let pair = generate_keypair().unwrap();
    let secret: [u8; 32] = STANDARD.decode(&pair.private_key_b64).unwrap().try_into().unwrap();
    let public = x25519_dalek::PublicKey::from(&x25519_dalek::StaticSecret::from(secret));
    assert_eq!(pair.public_key_b64, STANDARD.encode(public.to_bytes()));
    assert_eq!(public_key_from_private(&pair.private_key_b64).unwrap(), pair.public_key_b64);
    assert_ne!(pair.private_key_b64, pair.public_key_b64);
    let other = generate_keypair().unwrap();
    assert_ne!(pair.private_key_b64, other.private_key_b64);
    let fixed = keypair_from_secret(&[5u8; 32]);
    assert_eq!(fixed.private_key_b64, STANDARD.encode([5u8; 32]));
    assert_eq!(
        crypto_text(public_key_from_private("AAAA").unwrap_err()),
        "invalid private key length"
    );
    assert!(crypto_text(public_key_from_private("!").unwrap_err())
        .starts_with("invalid private key base64: "));
}

#[test]
fn the_user_key_pair_follows_from_the_master_key() {
    let umk = [0x42u8; 32];
    let pair = derive_keypair_from_umk(&umk).unwrap();
    let again = derive_keypair_from_umk(&umk).unwrap();
    assert_eq!(pair.private_key_b64, again.private_key_b64);
    let hk = hkdf::Hkdf::<sha2::Sha256>::new(None, &umk);
    let mut seed = [0u8; 32];
    hk.expand(b"milieu:user-keypair:v1", &mut seed).unwrap();
    assert_eq!(pair.private_key_b64, STANDARD.encode(seed));
    assert_ne!(seed, umk);
    let other = derive_keypair_from_umk(&[0x43u8; 32]).unwrap();
    assert_ne!(pair.public_key_b64, other.public_key_b64);
}

#[test]
fn a_wrapped_repo_key_unwraps_for_its_recipient_only() {
    let repo_key = [0x11u8; 32];
    let pair = generate_keypair().unwrap();
    let blob = wrap_repo_key_for_public_key(&repo_key, &pair.public_key_b64).unwrap();
    assert!(blob.starts_with("v1:"));
    assert_eq!(blob.split(':').count(), 4);
    assert_eq!(unwrap_repo_key_with_private_key(&pair.private_key_b64, &blob).unwrap(), repo_key);
    let stranger = generate_keypair().unwrap();
    let e = unwrap_repo_key_with_private_key(&stranger.private_key_b64, &blob).unwrap_err();
    assert_eq!(crypto_text(e), "decrypt: aead::Error");
}

#[test]
fn wrapping_follows_the_protocol() {
    let repo_key = [0x11u8; 32];
    let recipient = keypair_from_secret(&[3u8; 32]);
    let ephemeral = [4u8; 32];
    let nonce = [6u8; 24];
    let blob = wrap_repo_key_with(&repo_key, &recipient.public_key_b64, &ephemeral, &nonce).unwrap();
    let e_secret = x25519_dalek::StaticSecret::from(ephemeral);
    let e_public = x25519_dalek::PublicKey::from(&e_secret);
    let recipient_public: [u8; 32] =
        STANDARD.decode(&recipient.public_key_b64).unwrap().try_into().unwrap();
    let shared = e_secret.diffie_hellman(&x25519_dalek::PublicKey::from(recipient_public));
    let hk = hkdf::Hkdf::<sha2::Sha256>::new(None, shared.as_bytes());
    let mut wrap_key = [0u8; 32];
    hk.expand(b"milieu:repo-key-wrap", &mut wrap_key).unwrap();
    let cipher = XChaCha20Poly1305::new(Key::from_slice(&wrap_key));
    let sealed = cipher
        .encrypt(XNonce::from_slice(&nonce), Payload { msg: &repo_key, aad: b"milieu:repo-key:v1" })
        .unwrap();
    let expected = format!(
        "v1:{}:{}:{}",
        STANDARD.encode(e_public.to_bytes()),
        STANDARD.encode(nonce),
        STANDARD.encode(sealed)
    );
    assert_eq!(blob, expected);
    assert_eq!(unwrap_repo_key_with_private_key(&recipient.private_key_b64, &blob).unwrap(), repo_key);
}

#[test]
fn unwrap_reports_each_failure() {
    let pair = keypair_from_secret(&[3u8; 32]);
    let blob = wrap_repo_key_for_public_key(&[1u8; 32], &pair.public_key_b64).unwrap();
    let private = pair.private_key_b64.as_str();
    let parts: Vec<&str> = blob.split(':').collect();
    let text = |r: Result<[u8; 32], MilieuError>| crypto_text(r.unwrap_err());
    assert_eq!(text(unwrap_repo_key_with_private_key(private, "")), "unsupported repo key version");
    assert_eq!(
        text(unwrap_repo_key_with_private_key(private, &blob.replacen("v1", "v2", 1))),
        "unsupported repo key version"
    );
    assert_eq!(text(unwrap_repo_key_with_private_key(private, "v1")), "invalid repo key blob");
    assert_eq!(text(unwrap_repo_key_with_private_key(private, "v1:a")), "invalid repo key blob");
    assert_eq!(text(unwrap_repo_key_with_private_key(private, "v1:a:b")), "invalid repo key blob");
    assert!(text(unwrap_repo_key_with_private_key("***", &blob))
        .starts_with("invalid private key base64: "));
    assert_eq!(text(unwrap_repo_key_with_private_key("AAAA", &blob)), "invalid private key length");
    let bad_eph = format!("v1:***:{}:{}", parts[2], parts[3]);
    assert!(text(unwrap_repo_key_with_private_key(private, &bad_eph))
        .starts_with("invalid ephemeral key base64: "));
    let short_eph = format!("v1:AAAA:{}:{}", parts[2], parts[3]);
    assert_eq!(
        text(unwrap_repo_key_with_private_key(private, &short_eph)),
        "invalid ephemeral key length"
    );
    let bad_nonce = format!("v1:{}:AAAA:{}", parts[1], parts[3]);
    assert_eq!(text(unwrap_repo_key_with_private_key(private, &bad_nonce)), "invalid nonce length");
    let extra = format!("{}:tail", blob);
    assert!(text(unwrap_repo_key_with_private_key(private, &extra))
        .starts_with("invalid ciphertext base64: "));
    assert!(crypto_text(wrap_repo_key_for_public_key(&[1u8; 32], "***").unwrap_err())
        .starts_with("invalid public key base64: "));
    assert_eq!(
        crypto_text(wrap_repo_key_for_public_key(&[1u8; 32], "AAAA").unwrap_err()),
        "invalid public key length"
    );
}

#[test]
fn a_repo_key_of_another_length_is_refused() {
    let pair = keypair_from_secret(&[3u8; 32]);
    let ephemeral = x25519_dalek::StaticSecret::from([4u8; 32]);
    let recipient_public: [u8; 32] = STANDARD.decode(&pair.public_key_b64).unwrap().try_into().unwrap();
    let shared = ephemeral.diffie_hellman(&x25519_dalek::PublicKey::from(recipient_public));
    let hk = hkdf::Hkdf::<sha2::Sha256>::new(None, shared.as_bytes());
    let mut wrap_key = [0u8; 32];
    hk.expand(b"milieu:repo-key-wrap", &mut wrap_key).unwrap();
    let (nonce, sealed) = encrypt_bytes(&wrap_key, b"milieu:repo-key:v1", b"too short").unwrap();
    let blob = format!(
        "v1:{}:{}:{}",
        STANDARD.encode(x25519_dalek::PublicKey::from(&ephemeral).to_bytes()),
        nonce,
        sealed
    );
    let e = unwrap_repo_key_with_private_key(&pair.private_key_b64, &blob).unwrap_err();
    assert_eq!(crypto_text(e), "invalid repo key length");
}

#[test]
fn the_master_key_blob_round_trips() {
    let pdk = [8u8; 32];
    let umk = [9u8; 32];
    let blob = encrypt_umk_blob(&pdk, &umk).unwrap();
    assert_eq!(blob.split(':').count(), 2);
    assert_eq!(decrypt_umk_blob(&pdk, &blob).unwrap(), umk);
    let e = decrypt_umk_blob(&[7u8; 32], &blob).unwrap_err();
    assert_eq!(crypto_text(e), "decrypt: aead::Error");
    assert_eq!(crypto_text(decrypt_umk_blob(&pdk, "nocolon").unwrap_err()), "invalid umk blob");
    assert_eq!(crypto_text(decrypt_umk_blob(&pdk, "").unwrap_err()), "invalid umk blob");
    let fixed = encrypt_umk_blob_with(&pdk, &umk, &[1u8; 24]).unwrap();
    let cipher = XChaCha20Poly1305::new(Key::from_slice(&pdk));
    let sealed = cipher
        .encrypt(XNonce::from_slice(&[1u8; 24]), Payload { msg: &umk, aad: b"milieu:umk:v1" })
        .unwrap();
    assert_eq!(fixed, format!("{}:{}", STANDARD.encode([1u8; 24]), STANDARD.encode(sealed)));
    let (nonce, sealed) = encrypt_bytes(&pdk, b"milieu:umk:v1", b"short").unwrap();
    let e = decrypt_umk_blob(&pdk, &format!("{}:{}", nonce, sealed)).unwrap_err();
    assert_eq!(crypto_text(e), "invalid umk length");
}
