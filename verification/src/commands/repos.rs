//! Repositories: sharing the key of one with its collaborators, and reading the
//! answers to the questions asked before a deletion or about an invite.

use vstd::prelude::*;
use vstd::string::*;
use crate::api::RepoAccessEntry;
use crate::commands::push::{conflict_lines, strings_view};
use crate::text::{str_eq, to_lowercase, lowercased, trim, trimmed};

verus! {

/// A collaborator to wrap the repository key for.
#[derive(Debug)]
pub struct ShareTarget {
    pub email: String,
    pub public_key: String,
    /// The scheme under which the collaborator published the key.
    pub algorithm: String,
}

/// A `ShareTarget` as plain values.
pub struct ShareTargetModel {
    pub email: Seq<char>,
    pub public_key: Seq<char>,
    pub algorithm: Seq<char>,
}

impl View for ShareTarget {
    type V = ShareTargetModel;

    open spec fn view(&self) -> ShareTargetModel {
        ShareTargetModel {
            email: self.email@,
            public_key: self.public_key@,
            algorithm: self.algorithm@,
        }
    }
}

/// Who gets the repository key, and who cannot get it yet.
#[derive(Debug)]
pub struct SharePlan {
    /// The active collaborators with a published key, in the order of the list.
    pub recipients: Vec<ShareTarget>,
    /// The emails of the active collaborators without one, in the order of the
    /// list.
    pub missing: Vec<String>,
}

/// Whether the repository key is meant for this collaborator: an active one
/// other than the user.
pub open spec fn shares_with(entry: RepoAccessEntry, current_email: Seq<char>) -> bool {
    entry.status@ == "active"@ && entry.email@ != current_email
}

/// The scheme of a collaborator's key: the one published, else the default.
pub open spec fn algorithm_of(entry: RepoAccessEntry) -> Seq<char> {
    match entry.key_algorithm {
        Some(a) => a@,
        None => "x25519-hkdf-xchacha20poly1305"@,
    }
}

/// The collaborators that get the key.
pub open spec fn recipients_of(entries: Seq<RepoAccessEntry>, current_email: Seq<char>) -> Seq<
    ShareTargetModel,
>
    decreases entries.len(),
{
    if entries.len() == 0 {
        Seq::empty()
    } else {
        let before = recipients_of(entries.drop_last(), current_email);
        let entry = entries.last();
        match entry.public_key {
            Some(key) if shares_with(entry, current_email) => before.push(
                ShareTargetModel {
                    email: entry.email@,
                    public_key: key@,
                    algorithm: algorithm_of(entry),
                },
            ),
            _ => before,
        }
    }
}

/// The emails of the collaborators that cannot get the key yet.
pub open spec fn missing_of(entries: Seq<RepoAccessEntry>, current_email: Seq<char>) -> Seq<
    Seq<char>,
>
    decreases entries.len(),
{
    if entries.len() == 0 {
        Seq::empty()
    } else {
        let before = missing_of(entries.drop_last(), current_email);
        let entry = entries.last();
        if shares_with(entry, current_email) && entry.public_key is None {
            before.push(entry.email@)
        } else {
            before
        }
    }
}

/// The models of a run of share targets.
pub open spec fn targets_view(targets: Seq<ShareTarget>) -> Seq<ShareTargetModel> {
    Seq::new(targets.len(), |i: int| targets[i]@)
}

/// Decides who gets the repository key: every active collaborator but the user
/// with a published key gets it, under the scheme of that key; every one
/// without a key is listed as missing.
pub fn plan_share(entries: &Vec<RepoAccessEntry>, current_email: &str) -> (out: SharePlan)
    ensures
        targets_view(out.recipients@) == recipients_of(entries@, current_email@),
        strings_view(out.missing@) == missing_of(entries@, current_email@),
{
    let mut recipients: Vec<ShareTarget> = Vec::new();
    let mut missing: Vec<String> = Vec::new();
    let mut i: usize = 0;
    assert(entries@.take(0) =~= Seq::<RepoAccessEntry>::empty());
    assert(targets_view(recipients@) =~= Seq::<ShareTargetModel>::empty());
    assert(strings_view(missing@) =~= Seq::<Seq<char>>::empty());
    while i < entries.len()
        invariant
            i <= entries.len(),
            targets_view(recipients@) == recipients_of(entries@.take(i as int), current_email@),
            strings_view(missing@) == missing_of(entries@.take(i as int), current_email@),
        decreases entries.len() - i,
    {
        let entry = &entries[i];
        assert(entries@.take(i as int + 1).drop_last() =~= entries@.take(i as int));
        assert(entries@.take(i as int + 1).last() == *entry);
        let ghost old_recipients = targets_view(recipients@);
        let ghost old_missing = strings_view(missing@);
        if str_eq(entry.status.as_str(), "active") && !str_eq(entry.email.as_str(), current_email) {
            match &entry.public_key {
                Some(key) => {
                    let algorithm = match &entry.key_algorithm {
                        Some(a) => a.clone(),
                        None => String::from_str("x25519-hkdf-xchacha20poly1305"),
                    };
                    let target = ShareTarget {
                        email: entry.email.clone(),
                        public_key: key.clone(),
                        algorithm,
                    };
                    recipients.push(target);
                    assert(targets_view(recipients@) =~= old_recipients.push(
                        ShareTargetModel {
                            email: entry.email@,
                            public_key: key@,
                            algorithm: algorithm_of(*entry),
                        },
                    ));
                },
                None => {
                    missing.push(entry.email.clone());
                    assert(strings_view(missing@) =~= old_missing.push(entry.email@));
                },
            }
        }
        i += 1;
    }
    assert(entries@.take(i as int) =~= entries@);
    SharePlan { recipients, missing }
}

/// The note about the collaborators without a published key; none where every
/// one has a key.
pub fn missing_report(missing: &Vec<String>) -> (out: Option<String>)
    ensures
        match out {
            Some(text) => missing.len() > 0 && text@ == "missing public keys:"@ + conflict_lines(
                strings_view(missing@),
            ),
            None => missing.len() == 0,
        },
{
    if missing.len() == 0 {
        return None;
    }
    let ghost all = strings_view(missing@);
    let mut text = String::from_str("missing public keys:");
    let mut i: usize = 0;
    assert(all.take(0) =~= Seq::<Seq<char>>::empty());
    while i < missing.len()
        invariant
            i <= missing.len(),
            all == strings_view(missing@),
            text@ == "missing public keys:"@ + conflict_lines(all.take(i as int)),
        decreases missing.len() - i,
    {
        assert(all.take(i as int + 1).drop_last() =~= all.take(i as int));
        assert(all.take(i as int + 1).last() == missing@[i as int]@);
        text.append("\n  - ");
        text.append(missing[i].as_str());
        i += 1;
    }
    assert(all.take(i as int) =~= all);
    Some(text)
}

/// Whether an answer to a yes-or-no question says yes: `y` or `yes`, in any
/// case, with any white space around it.
pub fn says_yes(answer: &str) -> (out: bool)
    ensures
        out == (lowercased(trimmed(answer@)) == "y"@ || lowercased(trimmed(answer@)) == "yes"@),
{
    let text = to_lowercase(trim(answer));
    str_eq(text.as_str(), "y") || str_eq(text.as_str(), "yes")
}

/// Whether the two answers before a deletion confirm it: the first is `y` in
/// either case, the second is the name of the repository, with any white space
/// around it.
pub fn confirms_delete(first: &str, second: &str, repo_name: &str) -> (out: bool)
    ensures
        out == (lowercased(first@) == "y"@ && trimmed(second@) == repo_name@),
{
    let yes = to_lowercase(first);
    str_eq(yes.as_str(), "y") && str_eq(trim(second), repo_name)
}

/// What the user answered about an invite.
#[derive(Clone, Copy, Debug, PartialEq, Eq, Structural)]
pub enum InviteAnswer {
    Accept,
    Reject,
    Skip,
}

/// Reads the answer about an invite: `a` or `accept`, `r` or `reject`, in any
/// case; anything else skips the invite.
pub fn read_invite_answer(answer: &str) -> (out: InviteAnswer)
    ensures
        out == (if lowercased(answer@) == "a"@ || lowercased(answer@) == "accept"@ {
            InviteAnswer::Accept
        } else if lowercased(answer@) == "r"@ || lowercased(answer@) == "reject"@ {
            InviteAnswer::Reject
        } else {
            InviteAnswer::Skip
        }),
{
    let text = to_lowercase(answer);
    if str_eq(text.as_str(), "a") || str_eq(text.as_str(), "accept") {
        InviteAnswer::Accept
    } else if str_eq(text.as_str(), "r") || str_eq(text.as_str(), "reject") {
        InviteAnswer::Reject
    } else {
        InviteAnswer::Skip
    }
}

} // verus!
