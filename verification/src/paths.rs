//! File paths as texts: the last component of a path, its stem and its extension, with `/` as the
//! separator.

use crate::text::{
    find_back, from_chars, law_found_back_where_it_occurs, lower, lowered, occurs_at, piece,
    push_text, same, split_last, starts_with, texts, to_chars,
};
use vstd::prelude::*;

verus! {

/// What stands in front of the last slash, with the slash.
pub open spec fn up_to_slash(path: Seq<char>) -> Seq<char>
    decreases path.len(),
{
    if path.len() == 0 || path.last() == '/' {
        path
    } else {
        up_to_slash(path.drop_last())
    }
}

/// What stands behind the last slash.
pub open spec fn behind_slash(path: Seq<char>) -> Seq<char> {
    path.skip(up_to_slash(path).len() as int)
}

/// `path` without trailing slashes and trailing `.` components.
pub open spec fn without_tail(path: Seq<char>) -> Seq<char>
    decreases path.len(),
{
    if path.len() == 0 {
        path
    } else if path.last() == '/' {
        without_tail(path.drop_last())
    } else if path.last() == '.' && (path.len() == 1 || path[path.len() - 2] == '/') {
        without_tail(path.drop_last())
    } else {
        path
    }
}

/// The last component of a path, unless the path has none or ends in `..`.
pub open spec fn file_name_of(path: Seq<char>) -> Option<Seq<char>> {
    let name = behind_slash(without_tail(path));
    if name.len() == 0 || name == ".."@ {
        None
    } else {
        Some(name)
    }
}

/// Stem and extension of a file name: split at the last dot, unless that is the first character.
pub open spec fn split_name(name: Seq<char>) -> (Seq<char>, Option<Seq<char>>) {
    match split_last(name, "."@) {
        Some((stem, extension)) if stem.len() > 0 => (stem, Some(extension)),
        _ => (name, None),
    }
}

/// The stem of the last component of a path.
pub open spec fn stem_of(path: Seq<char>) -> Option<Seq<char>> {
    match file_name_of(path) {
        Some(name) => Some(split_name(name).0),
        None => None,
    }
}

/// The extension of the last component of a path.
pub open spec fn extension_of(path: Seq<char>) -> Option<Seq<char>> {
    match file_name_of(path) {
        Some(name) => split_name(name).1,
        None => None,
    }
}

proof fn lemma_up_to_slash(path: Seq<char>, k: int)
    requires
        0 <= k <= path.len(),
        forall|i: int| k <= i < path.len() ==> path[i] != '/',
        k > 0 ==> path[k - 1] == '/',
    ensures
        up_to_slash(path) == path.take(k),
    decreases path.len() - k,
{
    if k == path.len() {
        assert(path.take(k) =~= path);
    } else {
        lemma_up_to_slash(path.drop_last(), k);
        assert(path.drop_last().take(k) =~= path.take(k));
    }
}

proof fn lemma_up_to_slash_len(path: Seq<char>)
    ensures
        up_to_slash(path).len() <= path.len(),
    decreases path.len(),
{
    if path.len() > 0 && path.last() != '/' {
        lemma_up_to_slash_len(path.drop_last());
    }
}

/// The components of a path: what stands between its slashes, without empty pieces, and without `.`
/// anywhere but at the beginning.
pub open spec fn components(path: Seq<char>) -> Seq<Seq<char>>
    decreases path.len(),
    via components_decreases
{
    let directory = up_to_slash(path);
    let name = behind_slash(path);
    if directory.len() == 0 {
        if name.len() == 0 {
            Seq::empty()
        } else {
            seq![name]
        }
    } else if name.len() == 0 || name == "."@ {
        components(directory.drop_last())
    } else {
        components(directory.drop_last()).push(name)
    }
}

#[via_fn]
proof fn components_decreases(path: Seq<char>) {
    lemma_up_to_slash_len(path);
}

/// A path that begins at the root.
pub open spec fn is_absolute(path: Seq<char>) -> bool {
    path.len() > 0 && path[0] == '/'
}

/// Two paths are the same one: both begin at the root or neither does, and they have the same
/// components.
pub open spec fn same_path(a: Seq<char>, b: Seq<char>) -> bool {
    is_absolute(a) == is_absolute(b) && components(a) == components(b)
}

/// The components of a path.
pub fn path_components(path: &str) -> (r: Vec<String>)
    ensures
        texts(r@) == components(path@),
{
    let v = to_chars(path);
    let n: usize = v.len();
    let mut out: Vec<String> = Vec::new();
    let mut start: usize = 0;
    let mut end: usize = 0;
    assert(texts(out@) =~= Seq::empty());
    loop
        invariant_except_break
            texts(out@) == if start == 0 {
                Seq::empty()
            } else {
                components(v@.take(start - 1))
            },
        invariant
            start <= end <= n,
            n == v.len(),
            forall|i: int| start <= i < end ==> v@[i] != '/',
            start > 0 ==> v@[start - 1] == '/',
        ensures
            texts(out@) == components(v@),
        decreases n - end,
    {
        if end < n && v[end] != '/' {
            end = end + 1;
            continue;
        }
        let name = from_chars(piece(&v, start, end).as_slice());
        let ghost t = v@.take(end as int);
        let ghost before = texts(out@);
        proof {
            lemma_up_to_slash(t, start as int);
            assert(t.take(start as int) =~= v@.take(start as int));
            assert(t.skip(start as int) =~= name@);
            if start > 0 {
                assert(v@.take(start as int).drop_last() =~= v@.take(start - 1));
            }
        }
        if !name.as_str().is_empty() && (start == 0 || !same(name.as_str(), ".")) {
            out.push(name);
            assert(texts(out@) =~= before.push(name@));
        }
        assert(texts(out@) =~= components(t));
        if end == n {
            assert(t =~= v@);
            break;
        }
        end = end + 1;
        start = end;
        assert(v@.take(start - 1) =~= t);
    }
    out
}

proof fn lemma_absolute(path: Seq<char>)
    ensures
        is_absolute(path) == "/"@.is_prefix_of(path),
{
    reveal_strlit("/");
    if path.len() > 0 && path[0] == '/' {
        assert("/"@ =~= path.subrange(0, 1));
    }
    if "/"@.is_prefix_of(path) {
        assert(path.subrange(0, 1)[0] == path[0]);
    }
}

/// Whether two paths are the same one.
pub fn is_same_path(a: &str, b: &str) -> (r: bool)
    ensures
        r == same_path(a@, b@),
{
    proof {
        lemma_absolute(a@);
        lemma_absolute(b@);
    }
    if starts_with(a, "/") != starts_with(b, "/") {
        return false;
    }
    let left = path_components(a);
    let right = path_components(b);
    same_texts(&left, &right)
}

fn same_texts(a: &Vec<String>, b: &Vec<String>) -> (r: bool)
    ensures
        r == (texts(a@) == texts(b@)),
{
    if a.len() != b.len() {
        assert(texts(a@).len() != texts(b@).len());
        return false;
    }
    let mut i: usize = 0;
    while i < a.len()
        invariant
            i <= a.len(),
            a.len() == b.len(),
            forall|k: int| 0 <= k < i ==> #[trigger] texts(a@)[k] == texts(b@)[k],
        decreases a.len() - i,
    {
        if !same(a[i].as_str(), b[i].as_str()) {
            assert(texts(a@)[i as int] != texts(b@)[i as int]);
            return false;
        }
        i = i + 1;
    }
    assert(texts(a@) =~= texts(b@));
    true
}

/// Where the trailing slashes and `.` components of a path begin.
fn tail_start(v: &Vec<char>) -> (r: usize)
    ensures
        r <= v.len(),
        without_tail(v@) == v@.take(r as int),
{
    let mut end: usize = v.len();
    assert(v@.take(end as int) =~= v@);
    loop
        invariant
            end <= v.len(),
            without_tail(v@) == without_tail(v@.take(end as int)),
        ensures
            end <= v.len(),
            without_tail(v@) == v@.take(end as int),
        decreases end,
    {
        let ghost t = v@.take(end as int);
        if end == 0 {
            break;
        }
        assert(t.drop_last() =~= v@.take(end - 1));
        if v[end - 1] == '/' {
            end = end - 1;
        } else if v[end - 1] == '.' && (end == 1 || v[end - 2] == '/') {
            end = end - 1;
        } else {
            break;
        }
    }
    end
}

/// The last component of a path, unless the path has none or ends in `..`.
pub fn file_name(path: &str) -> (r: Option<String>)
    ensures
        match r {
            Some(name) => file_name_of(path@) == Some(name@),
            None => file_name_of(path@) is None,
        },
{
    let v = to_chars(path);
    let end: usize = tail_start(&v);
    let ghost t = v@.take(end as int);
    let mut start: usize = end;
    while start > 0 && v[start - 1] != '/'
        invariant
            start <= end <= v.len(),
            t == v@.take(end as int),
            forall|i: int| start <= i < end ==> t[i] != '/',
        decreases start,
    {
        start = start - 1;
    }
    proof {
        lemma_up_to_slash(t, start as int);
        assert(t.skip(start as int) =~= v@.subrange(start as int, end as int));
    }
    let name = from_chars(piece(&v, start, end).as_slice());
    if name.as_str().is_empty() || same(name.as_str(), "..") {
        None
    } else {
        Some(name)
    }
}

/// Stem and extension of a file name.
pub fn split_file_name(name: &str) -> (r: (String, Option<String>))
    ensures
        r.0@ == split_name(name@).0,
        match r.1 {
            Some(e) => split_name(name@).1 == Some(e@),
            None => split_name(name@).1 is None,
        },
{
    match crate::text::rsplit_once(name, ".") {
        Some((stem, extension)) => {
            if stem.as_str().is_empty() {
                (name.to_owned(), None)
            } else {
                (stem, Some(extension))
            }
        },
        None => (name.to_owned(), None),
    }
}

/// The stem of the last component of a path.
pub fn file_stem(path: &str) -> (r: Option<String>)
    ensures
        match r {
            Some(s) => stem_of(path@) == Some(s@),
            None => stem_of(path@) is None,
        },
{
    match file_name(path) {
        Some(name) => Some(split_file_name(name.as_str()).0),
        None => None,
    }
}

/// The extension of the last component of a path.
pub fn extension(path: &str) -> (r: Option<String>)
    ensures
        match r {
            Some(e) => extension_of(path@) == Some(e@),
            None => extension_of(path@) is None,
        },
{
    match file_name(path) {
        Some(name) => split_file_name(name.as_str()).1,
        None => None,
    }
}

/// True when a path has the given extension, in any letter case.
pub open spec fn has_extension(path: Seq<char>, extension: Seq<char>) -> bool {
    extension_of(path) matches Some(e) && lowered(e) == lowered(extension)
}

/// Whether a path has the given extension, in any letter case.
pub fn extension_is(path: &str, wanted: &str) -> (r: bool)
    ensures
        r == has_extension(path@, wanted@),
{
    match extension(path) {
        Some(e) => same(lower(e.as_str()).as_str(), lower(wanted).as_str()),
        None => false,
    }
}

/// A path whose last component has the extension `extension` in place of its own.
pub open spec fn with_extension_of(path: Seq<char>, extension: Seq<char>) -> Seq<char> {
    match file_name_of(path) {
        Some(name) => {
            let base = without_tail(path);
            base.take(base.len() - name.len()) + split_name(name).0 + "."@ + extension
        },
        None => path,
    }
}

/// A path whose last component has the extension `extension` in place of its own.
pub fn with_extension(path: &str, extension: &str) -> (r: String)
    ensures
        r@ == with_extension_of(path@, extension@),
{
    let name = match file_name(path) {
        Some(name) => name,
        None => {
            return path.to_owned();
        },
    };
    let v = to_chars(path);
    let end: usize = tail_start(&v);
    proof {
        lemma_up_to_slash_len(v@.take(end as int));
    }
    let n: usize = to_chars(name.as_str()).len();
    let start: usize = end - n;
    let mut out = from_chars(piece(&v, 0, start).as_slice());
    assert(out@ =~= v@.take(end as int).take(start as int));
    push_text(&mut out, split_file_name(name.as_str()).0.as_str());
    push_text(&mut out, ".");
    push_text(&mut out, extension);
    out
}

proof fn lemma_plain_name(dir: Seq<char>, name: Seq<char>)
    requires
        name.len() > 0,
        forall|i: int| 0 <= i < name.len() ==> (#[trigger] name[i]) != '/',
        name != "."@,
        dir.len() == 0 || dir.last() == '/',
    ensures
        without_tail(dir + name) == dir + name,
        up_to_slash(dir + name) == dir,
        behind_slash(dir + name) == name,
{
    let path = dir + name;
    reveal_strlit(".");
    assert(path.last() == name.last());
    if path.last() == '.' && (path.len() == 1 || path[path.len() - 2] == '/') {
        if name.len() == 1 {
            assert(name =~= "."@);
        } else {
            assert(path[path.len() - 2] == name[name.len() - 2]);
        }
    }
    lemma_up_to_plain(dir, name);
    assert(path.skip(dir.len() as int) =~= name);
}

proof fn lemma_up_to_plain(dir: Seq<char>, name: Seq<char>)
    requires
        forall|i: int| 0 <= i < name.len() ==> (#[trigger] name[i]) != '/',
        dir.len() == 0 || dir.last() == '/',
    ensures
        up_to_slash(dir + name) == dir,
    decreases name.len(),
{
    let path = dir + name;
    if name.len() == 0 {
        assert(path =~= dir);
    } else {
        assert(path.last() == name.last());
        assert(path.drop_last() =~= dir + name.drop_last());
        lemma_up_to_plain(dir, name.drop_last());
    }
}

/// The file name of a path is what stands behind its last slash.
pub proof fn law_file_names(dir: Seq<char>, name: Seq<char>)
    requires
        name.len() > 0,
        forall|i: int| 0 <= i < name.len() ==> (#[trigger] name[i]) != '/',
        name != "."@,
        name != ".."@,
    ensures
        file_name_of(dir + seq!['/'] + name) == Some(name),
        file_name_of(name) == Some(name),
        components(dir + seq!['/'] + name) == components(dir).push(name),
        components(name) == seq![name],
{
    let d = dir + seq!['/'];
    lemma_plain_name(d, name);
    let none = Seq::<char>::empty();
    lemma_plain_name(none, name);
    assert(none + name =~= name);
    assert(d.drop_last() =~= dir);
}

/// A slash more, or a step to the same place, leads to the same file.
pub proof fn law_same_paths(dir: Seq<char>, name: Seq<char>, a: Seq<char>, b: Seq<char>)
    requires
        dir.len() > 0,
    ensures
        same_path(a, a),
        same_path(a, b) == same_path(b, a),
        same_path(dir, dir + seq!['/']),
        same_path(a, b) ==> components(a) == components(b),
{
    let d = dir + seq!['/'];
    assert(d.drop_last() =~= dir);
    assert(d[0] == dir[0]);
    assert(up_to_slash(d) == d);
    assert(behind_slash(d) =~= Seq::<char>::empty());
}

/// A name is split at its last dot: the extension stands behind it, and the stem before. Another
/// extension takes the place of the old one, in the same directory.
pub proof fn law_extensions(dir: Seq<char>, stem: Seq<char>, old: Seq<char>, extension: Seq<char>)
    requires
        stem.len() > 0,
        forall|i: int| 0 <= i < stem.len() ==> (#[trigger] stem[i]) != '/',
        forall|i: int| 0 <= i < old.len() ==> (#[trigger] old[i]) != '/' && old[i] != '.',
        old.len() > 0,
    ensures
        ({
            let path = dir + seq!['/'] + (stem + seq!['.'] + old);
            &&& extension_of(path) == Some(old)
            &&& stem_of(path) == Some(stem)
            &&& with_extension_of(path, extension) == dir + seq!['/'] + (stem + seq!['.']
                + extension)
        }),
{
    let name = stem + seq!['.'] + old;
    let d = dir + seq!['/'];
    let path = d + name;
    reveal_strlit(".");
    reveal_strlit("..");
    let dot = seq!['.'];
    assert("."@ =~= dot);
    assert forall|i: int| 0 <= i < name.len() implies (#[trigger] name[i]) != '/' by {
        if i < stem.len() {
            assert(name[i] == stem[i]);
        } else if i > stem.len() {
            assert(name[i] == old[i - stem.len() - 1]);
        }
    }
    assert(name.last() == old.last());
    assert(name != "."@);
    assert(name != ".."@ && name != "."@) by {
        assert(name.last() != '.');
        assert("."@.last() == '.');
        assert(".."@.last() == '.');
    }
    lemma_plain_name(d, name);
    let k = stem.len() as int;
    assert(name.subrange(k, k + 1) =~= dot);
    assert forall|i: int| k < i <= name.len() - 1 implies !occurs_at(name, i, dot) by {
        assert(name.subrange(i, i + 1)[0] == old[i - k - 1]);
    }
    law_found_back_where_it_occurs(name, dot, name.len() - 1);
    assert(occurs_at(name, k, dot));
    assert(find_back(name, dot, name.len() - 1) == k);
    assert(name.take(k) =~= stem);
    assert(name.skip(k + 1) =~= old);
    assert(path.take(path.len() - name.len()) =~= d);
    assert(with_extension_of(path, extension) =~= d + (stem + dot + extension));
}

/// Extensions are compared without regard to case.
pub proof fn law_extension_case(path: Seq<char>, a: Seq<char>, b: Seq<char>)
    ensures
        lowered(a) == lowered(b) ==> has_extension(path, a) == has_extension(path, b),
        extension_of(path) matches Some(e) ==> has_extension(path, e),
        extension_of(path) is None ==> !has_extension(path, a),
{
}

} // verus!
