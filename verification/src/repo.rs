//! Names and paths: what a repository may be called, which files may be tracked,
//! and where the manifest lives under a project root.
//!
//! Paths are read as on Unix: `/` separates components, empty components and `.`
//! name nothing, `..` names the parent.

use vstd::prelude::*;
use vstd::string::*;
use crate::error::{ErrorModel, MilieuError};
use crate::text::{chars_of, find_char, find_from, lemma_find_from, range_is};

verus! {

/// A letter of either case or a digit, in ASCII.
pub open spec fn is_ascii_alphanumeric(c: char) -> bool {
    let v = c as u32;
    (0x30 <= v <= 0x39) || (0x41 <= v <= 0x5a) || (0x61 <= v <= 0x7a)
}

/// A letter of either case, in ASCII.
pub open spec fn is_ascii_letter(c: char) -> bool {
    let v = c as u32;
    (0x41 <= v <= 0x5a) || (0x61 <= v <= 0x7a)
}

/// Whether a repository may be called `name`: letters, digits, `-` and `_` of
/// ASCII, and at least one of them.
pub open spec fn valid_repo_name(name: Seq<char>) -> bool {
    &&& name.len() > 0
    &&& forall|i: int|
        0 <= i < name.len() ==> is_ascii_alphanumeric(#[trigger] name[i]) || name[i] == '-'
            || name[i] == '_'
}

/// Whether a repository may be called `name`.
pub fn is_valid_repo_name(name: &str) -> (ok: bool)
    ensures
        ok == valid_repo_name(name@),
{
    let chars = chars_of(name);
    if chars.len() == 0 {
        return false;
    }
    let mut i: usize = 0;
    while i < chars.len()
        invariant
            i <= chars.len(),
            chars@ == name@,
            forall|j: int|
                0 <= j < i ==> is_ascii_alphanumeric(#[trigger] name@[j]) || name@[j] == '-'
                    || name@[j] == '_',
        decreases chars.len() - i,
    {
        let c = chars[i];
        let v: u32 = c as u32;
        let alnum = (0x30 <= v && v <= 0x39) || (0x41 <= v && v <= 0x5a) || (0x61 <= v && v
            <= 0x7a);
        if !(alnum || c == '-' || c == '_') {
            return false;
        }
        i += 1;
    }
    true
}

/// Whether the path starts with a drive: a letter and a colon.
pub open spec fn has_drive_prefix(path: Seq<char>) -> bool {
    path.len() >= 2 && is_ascii_letter(path[0]) && path[1] == ':'
}

/// Whether a component names something: it is not empty and not `.`.
pub open spec fn names_something(component: Seq<char>) -> bool {
    component.len() > 0 && component != "."@
}

/// Whether one of the components that start at or after `from` is `..`, where
/// `from` is the start of a component.
pub open spec fn has_parent_from(path: Seq<char>, from: int) -> bool
    decreases path.len() - from,
{
    if from < 0 || from > path.len() {
        false
    } else {
        let end = find_from(path, '/', from);
        proof {
            lemma_find_from(path, '/', from);
        }
        path.subrange(from, end) == ".."@ || (end < path.len() && has_parent_from(path, end + 1))
    }
}

/// Whether one of the components of the path is `..`.
pub open spec fn has_parent_component(path: Seq<char>) -> bool {
    has_parent_from(path, 0)
}

/// The last component that names something among `best` and the components that
/// start at or after `from`, where `from` is the start of a component.
pub open spec fn last_named_from(path: Seq<char>, from: int, best: Option<Seq<char>>) -> Option<
    Seq<char>,
>
    decreases path.len() - from,
{
    if from < 0 || from > path.len() {
        best
    } else {
        let end = find_from(path, '/', from);
        proof {
            lemma_find_from(path, '/', from);
        }
        let component = path.subrange(from, end);
        let next = if names_something(component) {
            Some(component)
        } else {
            best
        };
        if end < path.len() {
            last_named_from(path, end + 1, next)
        } else {
            next
        }
    }
}

/// The last component of the path that names something.
pub open spec fn last_component(path: Seq<char>) -> Option<Seq<char>> {
    last_named_from(path, 0, None)
}

/// Whether a file of this name may be tracked: `.env`, or a name that starts with
/// `.env.`.
pub open spec fn is_env_name(name: Seq<char>) -> bool {
    name == ".env"@ || (name.len() >= 5 && name.subrange(0, 5) == ".env."@)
}

/// The complaint about a path that may not be tracked; `None` for a path that
/// may.
pub open spec fn env_path_error(path: Seq<char>) -> Option<Seq<char>> {
    if path.len() == 0 {
        Some("invalid file path"@)
    } else if path[0] == '/' || has_drive_prefix(path) {
        Some("only repo-relative .env* paths are allowed"@)
    } else if has_parent_component(path) {
        Some("path cannot contain '..'"@)
    } else {
        match last_component(path) {
            None => Some("invalid file path"@),
            Some(name) => if is_env_name(name) {
                None
            } else {
                Some("only .env* files are allowed"@)
            },
        }
    }
}

/// Whether a path may be tracked: it is not empty, has no root and no drive, no
/// component `..`, and its file name is `.env` or starts with `.env.`.
pub open spec fn valid_env_path(path: Seq<char>) -> bool {
    env_path_error(path) is None
}

/// The view of the outcome of a validation.
pub open spec fn refusal(out: Result<(), MilieuError>) -> Option<ErrorModel> {
    match out {
        Ok(_) => None,
        Err(e) => Some(e@),
    }
}

/// What a validation returns for a complaint.
pub open spec fn refusal_of(complaint: Option<Seq<char>>) -> Option<ErrorModel> {
    match complaint {
        None => None,
        Some(text) => Some(ErrorModel::CommandFailed(text)),
    }
}

/// A component that starts at `at` and is `..` makes the path one with a parent
/// component, whatever comes before it.
pub proof fn lemma_parent_component_found(path: Seq<char>, from: int, at: int)
    requires
        0 <= from <= at <= path.len(),
        from == 0 || path[from - 1] == '/',
        at == 0 || path[at - 1] == '/',
        path.subrange(at, find_from(path, '/', at)) == ".."@,
    ensures
        has_parent_from(path, from),
    decreases at - from,
{
    if from < at {
        lemma_find_from(path, '/', from);
        let end = find_from(path, '/', from);
        assert(end <= at - 1) by {
            if end > at - 1 {
                assert(path[at - 1] != '/');
            }
        }
        lemma_parent_component_found(path, end + 1, at);
    }
}

/// A path with a component `..`, a path that starts at the root, and a path
/// whose file name is neither `.env` nor starts with `.env.` may not be tracked.
pub proof fn lemma_rejected_paths(path: Seq<char>)
    ensures
        has_parent_component(path) ==> !valid_env_path(path),
        path.len() > 0 && path[0] == '/' ==> !valid_env_path(path),
        last_component(path) matches Some(name) && !is_env_name(name) ==> !valid_env_path(path),
        last_component(path) is None ==> !valid_env_path(path),
{
}

/// The components of a path, walked once: whether one is `..`, and where the
/// last one that names something lies.
fn walk_components(chars: &Vec<char>) -> (out: (bool, Option<(usize, usize)>))
    ensures
        out.0 == has_parent_component(chars@),
        !out.0 ==> match out.1 {
            Some((a, b)) => a <= b <= chars.len() && last_component(chars@) == Some(
                chars@.subrange(a as int, b as int),
            ),
            None => last_component(chars@) is None,
        },
{
    let dot = chars_of(".");
    let dotdot = chars_of("..");
    let n: usize = chars.len();
    let mut from: usize = 0;
    let mut best: Option<(usize, usize)> = None;
    let mut done = false;
    while !done
        invariant
            n == chars.len(),
            dot@ == "."@,
            dotdot@ == ".."@,
            from <= n,
            done ==> !has_parent_component(chars@),
            !done ==> has_parent_component(chars@) == has_parent_from(chars@, from as int),
            best matches Some((a, b)) ==> a <= b <= n,
            done ==> last_component(chars@) == (match best {
                Some((a, b)) => Some(chars@.subrange(a as int, b as int)),
                None => None,
            }),
            !done ==> last_component(chars@) == last_named_from(
                chars@,
                from as int,
                match best {
                    Some((a, b)) => Some(chars@.subrange(a as int, b as int)),
                    None => None,
                },
            ),
        decreases (if done { 0 } else { 1 + n - from }),
    {
        let end: usize = find_char(chars, '/', from);
        if range_is(chars, from, end, &dotdot) {
            return (true, None);
        }
        if end > from && !range_is(chars, from, end, &dot) {
            best = Some((from, end));
        }
        if end < n {
            from = end + 1;
        } else {
            done = true;
        }
    }
    (false, best)
}

/// Accepts a path that may be tracked, and says of any other why it may not.
pub fn validate_env_path(path: &str) -> (out: Result<(), MilieuError>)
    ensures
        refusal(out) == refusal_of(env_path_error(path@)),
        out is Ok <==> valid_env_path(path@),
{
    let chars = chars_of(path);
    let n: usize = chars.len();
    if n == 0 {
        return Err(MilieuError::failed("invalid file path"));
    }
    if chars[0] == '/' {
        return Err(MilieuError::failed("only repo-relative .env* paths are allowed"));
    }
    if n >= 2 && chars[1] == ':' {
        let v: u32 = chars[0] as u32;
        if (0x41 <= v && v <= 0x5a) || (0x61 <= v && v <= 0x7a) {
            return Err(MilieuError::failed("only repo-relative .env* paths are allowed"));
        }
    }
    let (parent, named) = walk_components(&chars);
    if parent {
        return Err(MilieuError::failed("path cannot contain '..'"));
    }
    match named {
        None => Err(MilieuError::failed("invalid file path")),
        Some((a, b)) => {
            let env = chars_of(".env");
            let env_dot = chars_of(".env.");
            let plain = range_is(&chars, a, b, &env);
            let dotted = b - a >= 5 && range_is(&chars, a, a + 5, &env_dot);
            proof {
                let name = chars@.subrange(a as int, b as int);
                if b - a >= 5 {
                    assert(name.subrange(0, 5) =~= chars@.subrange(a as int, a + 5));
                }
            }
            if plain || dotted {
                Ok(())
            } else {
                Err(MilieuError::failed("only .env* files are allowed"))
            }
        },
    }
}

/// `name` under the directory `base`.
pub open spec fn joined(base: Seq<char>, name: Seq<char>) -> Seq<char> {
    if base.len() == 0 || base.last() == '/' {
        base + name
    } else {
        base + "/"@ + name
    }
}

/// `name` under the directory `base`.
pub fn join_path(base: &str, name: &str) -> (out: String)
    ensures
        out@ == joined(base@, name@),
{
    let chars = chars_of(base);
    let mut out = String::from_str(base);
    if chars.len() > 0 && chars[chars.len() - 1] != '/' {
        out.append("/");
    }
    out.append(name);
    out
}

/// The directory that holds the state of a repository under its project root.
pub fn milieu_dir(root: &str) -> (out: String)
    ensures
        out@ == joined(root@, ".milieu"@),
{
    join_path(root, ".milieu")
}

/// The file that holds the manifest under a project root.
pub fn manifest_path(root: &str) -> (out: String)
    ensures
        out@ == joined(joined(root@, ".milieu"@), "manifest.toml"@),
{
    let dir = milieu_dir(root);
    join_path(dir.as_str(), "manifest.toml")
}

/// The name of the project root's folder: its last component, unless that is
/// `..` or the path names nothing.
pub fn folder_name(root: &str) -> (out: Result<String, MilieuError>)
    ensures
        match out {
            Ok(name) => !has_parent_component(root@) && last_component(root@) == Some(name@),
            Err(e) => e@ == ErrorModel::CommandFailed("invalid folder name"@) && (
            has_parent_component(root@) || last_component(root@) is None),
        },
{
    let chars = chars_of(root);
    let (parent, named) = walk_components(&chars);
    if parent {
        return Err(MilieuError::failed("invalid folder name"));
    }
    match named {
        None => Err(MilieuError::failed("invalid folder name")),
        Some((a, b)) => Ok(String::from_str(root.substring_char(a, b))),
    }
}

} // verus!
