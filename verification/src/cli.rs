//! Paths on the command line.

use vstd::prelude::*;

verus! {

/// A path that begins at a home directory.
pub open spec fn begins_at_home(path: Seq<char>) -> bool {
    path.len() > 0 && path[0] == '~' && (path.len() == 1 || path[1] == '/' || path[1] == '\\')
}

/// `shellexpand::tilde`: a path that does not begin at a home directory is left as it is; in one
/// that does, the tilde is replaced by something, which is a tilde again where no home directory is
/// known. Which directory that is depends on the machine, and is left unsaid.
#[verifier::external_body]
fn tilde(path: &str) -> (r: String)
    ensures
        !begins_at_home(path@) ==> r@ == path@,
        begins_at_home(path@) ==> exists|home: Seq<char>| r@ == #[trigger] (home + path@.skip(1)),
{
    shellexpand::tilde(path).into_owned()
}

/// A path with the tilde at its beginning replaced by `home`.
pub open spec fn at_home(home: Seq<char>, path: Seq<char>) -> Seq<char> {
    home + path.skip(1)
}

/// What becomes of a path where the home directory is `home`: a tilde that stands alone or before a
/// slash is replaced by it. Before a backslash it is replaced on some systems only.
pub open spec fn is_expanded(path: Seq<char>, home: Option<&str>, result: Seq<char>) -> bool {
    match home {
        Some(h) if begins_at_home(path) => if path.len() > 1 && path[1] == '\\' {
            result == at_home(h@, path) || result == path
        } else {
            result == at_home(h@, path)
        },
        _ => result == path,
    }
}

/// `shellexpand::tilde_with_context`, with a home directory that is given: it takes the place of a
/// tilde that stands alone or before a slash, and on Windows also before a backslash. Any other path,
/// and every path where there is no home directory, is left as it is.
#[verifier::external_body]
fn tilde_with(path: &str, home: Option<&str>) -> (r: String)
    ensures
        is_expanded(path@, home, r@),
{
    shellexpand::tilde_with_context(path, || home).into_owned()
}

/// Replaces the tilde at the beginning of a path by the home directory `home`.
pub fn expand_path_with(path: &str, home: Option<&str>) -> (r: String)
    ensures
        is_expanded(path@, home, r@),
{
    tilde_with(path, home)
}

/// Replaces the tilde at the beginning of a path by the home directory.
pub fn expand_path(path: &str) -> (r: String)
    ensures
        !begins_at_home(path@) ==> r@ == path@,
        begins_at_home(path@) ==> exists|home: Seq<char>| r@ == #[trigger] (home + path@.skip(1)),
{
    tilde(path)
}

/// Only a tilde that stands alone or before a separator stands for the home directory; what follows
/// it is kept, and every other path is left alone.
pub proof fn law_home_paths(path: Seq<char>, home: Option<&str>, result: Seq<char>)
    requires
        is_expanded(path, home, result),
    ensures
        home is None ==> result == path,
        path.len() == 0 || path[0] != '~' ==> result == path,
        path.len() > 1 && path[1] != '/' && path[1] != '\\' ==> result == path,
        home matches Some(h) ==> (path.len() > 1 && path[0] == '~' && path[1] == '/' ==> result
            == h@ + path.skip(1)),
        home matches Some(h) ==> (path.len() == 1 && path[0] == '~' ==> result == h@),
{
    if path.len() == 1 && path[0] == '~' && home is Some {
        assert(home->0@ + path.skip(1) =~= home->0@);
    }
}

} // verus!
