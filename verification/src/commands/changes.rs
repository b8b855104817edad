//! Changes: which files of a branch to compare, and how many lines differ.

use vstd::prelude::*;
use vstd::string::*;
use crate::error::{ErrorModel, MilieuError};
use crate::manifest::{Branch, FileEntry};
use crate::primitives::{line_changes, line_diff};
use crate::text::str_eq;

verus! {

/// How many entries of a run are `tag`.
pub open spec fn count_of(tags: Seq<u8>, tag: u8) -> nat
    decreases tags.len(),
{
    if tags.len() == 0 {
        0
    } else {
        count_of(tags.drop_last(), tag) + (if tags.last() == tag {
            1nat
        } else {
            0nat
        })
    }
}

/// How many lines the new text adds to the old one, and how many it drops, in
/// the line diff of the two.
pub fn diff_stats(old_text: &str, new_text: &str) -> (out: (u64, u64))
    ensures
        out.0 == count_of(line_diff(old_text@, new_text@), 2),
        out.1 == count_of(line_diff(old_text@, new_text@), 1),
{
    let tags = line_changes(old_text, new_text);
    let mut adds: u64 = 0;
    let mut dels: u64 = 0;
    let mut i: usize = 0;
    assert(tags@.take(0) =~= Seq::<u8>::empty());
    while i < tags.len()
        invariant
            i <= tags.len(),
            adds == count_of(tags@.take(i as int), 2),
            dels == count_of(tags@.take(i as int), 1),
            adds <= i,
            dels <= i,
        decreases tags.len() - i,
    {
        assert(tags@.take(i as int + 1).drop_last() =~= tags@.take(i as int));
        if tags[i] == 2 {
            adds += 1;
        } else if tags[i] == 1 {
            dels += 1;
        }
        i += 1;
    }
    assert(tags@.take(i as int) =~= tags@);
    (adds, dels)
}

/// The entries to compare among `files`, in order: every entry, or those at
/// `path` where one is given.
pub open spec fn matching(files: Seq<FileEntry>, path: Option<Seq<char>>) -> Seq<FileEntry>
    decreases files.len(),
{
    if files.len() == 0 {
        Seq::empty()
    } else {
        let before = matching(files.drop_last(), path);
        let wanted = match path {
            Some(p) => files.last().path@ == p,
            None => true,
        };
        if wanted {
            before.push(files.last())
        } else {
            before
        }
    }
}

/// The entries that a run of references points to.
pub open spec fn pointed(entries: Seq<&FileEntry>) -> Seq<FileEntry> {
    Seq::new(entries.len(), |i: int| *entries[i])
}

/// The entries of a branch to compare, in the order of the branch: every entry,
/// or those at `path` where one is given. Refuses a selection that holds no
/// entry.
pub fn select_entries<'a>(branch: &'a Branch, path: Option<&str>) -> (out: Result<
    Vec<&'a FileEntry>,
    MilieuError,
>)
    ensures
        match out {
            Ok(entries) => entries.len() > 0 && pointed(entries@) == matching(
                branch.files@,
                crate::keys::opt_text(path),
            ),
            Err(e) => matching(branch.files@, crate::keys::opt_text(path)).len() == 0 && e@
                == ErrorModel::CommandFailed("no matching files in branch"@),
        },
{
    let mut entries: Vec<&FileEntry> = Vec::new();
    let mut i: usize = 0;
    let ghost all = branch.files@;
    assert(all.take(0) =~= Seq::<FileEntry>::empty());
    assert(pointed(entries@) =~= Seq::<FileEntry>::empty());
    while i < branch.files.len()
        invariant
            i <= branch.files.len(),
            all == branch.files@,
            pointed(entries@) == matching(all.take(i as int), crate::keys::opt_text(path)),
        decreases branch.files.len() - i,
    {
        let entry = &branch.files[i];
        assert(all.take(i as int + 1).drop_last() =~= all.take(i as int));
        assert(all.take(i as int + 1).last() == *entry);
        let wanted = match path {
            Some(p) => str_eq(entry.path.as_str(), p),
            None => true,
        };
        if wanted {
            let ghost before = pointed(entries@);
            entries.push(entry);
            assert(pointed(entries@) =~= before.push(*entry));
        }
        i += 1;
    }
    assert(all.take(i as int) =~= all);
    if entries.len() == 0 {
        return Err(MilieuError::failed("no matching files in branch"));
    }
    Ok(entries)
}

} // verus!
