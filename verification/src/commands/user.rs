//! The user: the age of the published key, and the rotation of all keys.

use vstd::prelude::*;
use vstd::string::*;
use crate::commands::login::{enroll, enrolled, enrollment_failure, Enrollment};
use crate::crypto::{
    derive_keypair_from_umk, key_pair_matches, unwrap_spec, user_keypair_info, wrappable,
    wrap_repo_key_for_public_key, KeyPair, UMK_LEN,
};
use crate::error::{ErrorModel, MilieuError};
use crate::primitives::{days_between, whole_days_between};
use crate::text::{decimal, decimal_text};

verus! {

/// The age, in days, at which a key is due for rotation.
pub const ROTATE_DAYS: i64 = 90;

/// The whole days from `updated_at` to `now`, both RFC 3339 times; `None` where
/// either is no such time.
pub fn age_days(updated_at: &str, now: &str) -> (out: Option<i64>)
    ensures
        out == days_between(updated_at@, now@),
{
    whole_days_between(updated_at, now)
}

/// The advice to rotate a key of the given age.
pub open spec fn rotation_advice(days: i64) -> Seq<char> {
    "Key age is "@ + decimal_text(days as nat) + " days. Rotate keys every 90 days (milieu user rotate-keys)."@
}

/// The advice that a key of this date calls for at the time `now`: none before
/// 90 days, and none where the date is unknown or unreadable.
pub open spec fn advice_for(updated_at: Option<Seq<char>>, now: Seq<char>) -> Option<Seq<char>> {
    match updated_at {
        None => None,
        Some(then) => match days_between(then, now) {
            Some(days) if days >= 90 => Some(rotation_advice(days)),
            _ => None,
        },
    }
}

/// The advice to rotate the key, where it is 90 days old or older at the time
/// `now`.
pub fn warn_if_old(updated_at: Option<&str>, now: &str) -> (out: Option<String>)
    ensures
        crate::text::opt_view(out) == advice_for(crate::keys::opt_text(updated_at), now@),
{
    let then = match updated_at {
        None => {
            return None;
        },
        Some(then) => then,
    };
    match age_days(then, now) {
        Some(days) => {
            if days >= ROTATE_DAYS {
                let mut text = String::from_str("Key age is ");
                text.append(decimal(days as u128).as_str());
                text.append(" days. Rotate keys every 90 days (milieu user rotate-keys).");
                Some(text)
            } else {
                None
            }
        },
        None => None,
    }
}

/// The advice to rotate the key that a login found, where it is 90 days old or
/// older at the time `now`.
pub fn warn_login_key_age(user_key_updated_at: Option<&str>, now: &str) -> (out: Option<String>)
    ensures
        crate::text::opt_view(out) == advice_for(
            crate::keys::opt_text(user_key_updated_at),
            now@,
        ),
{
    warn_if_old(user_key_updated_at, now)
}

/// A repository key wrapped for the new key pair.
#[derive(Debug)]
pub struct Rewrapped {
    pub repo_id: String,
    pub wrapped_key: String,
}

/// What a rotation publishes and keeps.
#[derive(Debug)]
pub struct Rotation {
    /// The new master key, its recovery phrase, and what to publish of them.
    pub enrollment: Enrollment,
    /// The key pair that belongs to the new master key.
    pub keypair: KeyPair,
    /// Every repository key, wrapped for the new key pair, in the order given.
    pub rewrapped: Vec<Rewrapped>,
}

/// Rotates the keys of a user: a fresh master key with its recovery phrase, the
/// key pair that belongs to it, and every repository key wrapped anew.
///
/// The rotation is as `rotated` says. The only failure is that of the key
/// derivation for the new phrase; nothing else in a rotation can fail.
pub fn rotate_keys(repo_keys: &Vec<(String, [u8; UMK_LEN])>) -> (out: Result<Rotation, MilieuError>)
    ensures
        match out {
            Ok(rotation) => rotated(rotation, repo_keys@),
            Err(e) => enrollment_failure(e@),
        },
{
    let enrollment = match enroll() {
        Err(e) => {
            return Err(e);
        },
        Ok(enrollment) => enrollment,
    };
    let keypair = match derive_keypair_from_umk(&enrollment.umk) {
        Err(e) => {
            return Err(e);
        },
        Ok(pair) => pair,
    };
    let mut rewrapped: Vec<Rewrapped> = Vec::new();
    let mut i: usize = 0;
    while i < repo_keys.len()
        invariant
            i <= repo_keys.len(),
            rewrapped.len() == i,
            wrappable(keypair.public_key_b64@),
            key_pair_matches(keypair.private_key_b64@, keypair.public_key_b64@),
            forall|j: int| 0 <= j < i ==> rewrapped_for(#[trigger] rewrapped@[j], keypair, repo_keys@[j]),
        decreases repo_keys.len() - i,
    {
        let wrapped_key = match wrap_repo_key_for_public_key(
            &repo_keys[i].1,
            keypair.public_key_b64.as_str(),
        ) {
            Err(e) => {
                return Err(e);
            },
            Ok(blob) => blob,
        };
        rewrapped.push(Rewrapped { repo_id: repo_keys[i].0.clone(), wrapped_key });
        i += 1;
    }
    Ok(Rotation { enrollment, keypair, rewrapped })
}

/// Whether `item` is the key of a repository wrapped for `keypair`: it names the
/// repository, and it unwraps under the private key to the key that was given.
pub open spec fn rewrapped_for(item: Rewrapped, keypair: KeyPair, given: (String, [u8; UMK_LEN])) -> bool {
    &&& item.repo_id@ == given.0@
    &&& unwrap_spec(keypair.private_key_b64@, item.wrapped_key@) == Ok::<Seq<u8>, ErrorModel>(
        given.1@,
    )
}

/// What holds of every rotation of the given repository keys: the enrollment is
/// a fresh one; the key pair is the one derived from the new master key by
/// HKDF-SHA256 under `milieu:user-keypair:v1`; and every repository key comes
/// back wrapped for that key pair, in the order given.
pub open spec fn rotated(rotation: Rotation, repo_keys: Seq<(String, [u8; UMK_LEN])>) -> bool {
    let seed = crate::primitives::hkdf_sha256(rotation.enrollment.umk@, user_keypair_info());
    &&& enrolled(rotation.enrollment)
    &&& rotation.keypair.private_key_b64@ == crate::b64::base64_text(seed)
    &&& rotation.keypair.public_key_b64@ == crate::b64::base64_text(
        crate::primitives::x25519_public(seed),
    )
    &&& key_pair_matches(rotation.keypair.private_key_b64@, rotation.keypair.public_key_b64@)
    &&& rotation.rewrapped.len() == repo_keys.len()
    &&& forall|i: int|
        0 <= i < repo_keys.len() ==> rewrapped_for(
            #[trigger] rotation.rewrapped@[i],
            rotation.keypair,
            repo_keys[i],
        )
}

} // verus!
