//! Shortening the working directory for display.

use crate::text::str_eq;
use vstd::prelude::*;
use vstd::string::*;

verus! {

/// The short form that the crate `tico` gives a path when the home directory
/// is known: the home directory becomes `~`, and each level of the path but
/// the last is cut down to its first letter.
pub uninterp spec fn shortened(path: Seq<char>, home: Seq<char>) -> Seq<char>;

/// Shortens a path for a user whose home directory is `home`.
///
/// Trusted: the body is one call of `tico::tico` with the home directory
/// given. The contract claims only that the output is a function of the two
/// texts, to which it gives the name `shortened`.
#[verifier::external_body]
pub(crate) fn shorten(path: &str, home: &str) -> (out: String)
    ensures
        out@ == shortened(path@, home@),
{
    tico::tico(path, Some(home))
}

/// The form in which the working directory is shown.
pub open spec fn truncated(path: Seq<char>, home: Option<Seq<char>>) -> Seq<char> {
    match home {
        Some(h) => shortened(path, h),
        None => path,
    }
}

/// Shortens the working directory for display. Where the home directory is
/// not known, the path is shown as it is.
pub fn truncate_path(cwd: &str, home: Option<&str>) -> (out: String)
    ensures
        out@ == truncated(
            cwd@,
            match home {
                Some(h) => Some(h@),
                None => None,
            },
        ),
{
    match home {
        Some(h) => shorten(cwd, h),
        None => cwd.to_owned(),
    }
}

/// The place of the last `/` in a path; -1 where it has none.
pub open spec fn last_slash(path: Seq<char>) -> int
    decreases path.len(),
{
    if path.len() == 0 {
        -1
    } else if path.last() == '/' {
        path.len() - 1
    } else {
        last_slash(path.drop_last())
    }
}

/// The short name of a directory: `root` for the root, `home` for the home
/// directory, and for any other what follows the last `/` of its path.
pub open spec fn pwd_of(path: Seq<char>, home: Option<Seq<char>>) -> Seq<char> {
    if path == "/"@ {
        "root"@
    } else if home == Some(path) {
        "home"@
    } else {
        path.skip(last_slash(path) + 1)
    }
}

/// The place of the last `/` is a place in the path, and holds a `/` unless
/// the path has none.
pub proof fn lemma_last_slash(path: Seq<char>)
    ensures
        -1 <= last_slash(path) < path.len(),
        last_slash(path) >= 0 ==> path[last_slash(path)] == '/',
        forall|i: int| last_slash(path) < i < path.len() ==> path[i] != '/',
        path.contains('/') <==> last_slash(path) >= 0,
    decreases path.len(),
{
    if path.len() > 0 {
        let front = path.drop_last();
        lemma_last_slash(front);
        if path.last() != '/' {
            assert forall|i: int| last_slash(path) < i < path.len() implies path[i] != '/' by {
                if i < front.len() {
                    assert(front[i] == path[i]);
                }
            }
            if path.contains('/') {
                let i = choose|i: int| 0 <= i < path.len() && path[i] == '/';
                assert(front[i] == path[i]);
            }
            if last_slash(path) >= 0 {
                assert(path[last_slash(path)] == front[last_slash(front)]);
            }
        }
    }
}

/// The short name of a directory, for a path that has a `/` in it.
pub fn pwd<'a>(path: &'a str, home: Option<&str>) -> (name: &'a str)
    requires
        path@.contains('/'),
    ensures
        name@ == pwd_of(
            path@,
            match home {
                Some(h) => Some(h@),
                None => None,
            },
        ),
{
    if str_eq(path, "/") {
        return "root";
    }
    if let Some(h) = home {
        if str_eq(path, h) {
            return "home";
        }
    }
    let n = path.unicode_len();
    let mut after: usize = 0;
    let mut i: usize = 0;
    while i < n
        invariant
            i <= n,
            n == path@.len(),
            after <= i,
            after == last_slash(path@.subrange(0, i as int)) + 1,
        decreases n - i,
    {
        assert(path@.subrange(0, i + 1).drop_last() =~= path@.subrange(0, i as int));
        if path.get_char(i) == '/' {
            after = i + 1;
        }
        i = i + 1;
    }
    assert(path@.subrange(0, n as int) =~= path@);
    let name = path.substring_char(after, n);
    assert(name@ =~= path@.skip(after as int));
    name
}

} // verus!
