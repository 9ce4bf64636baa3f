//! Names of recording files: what is safe in a file name, and the names that carry the identity
//! of a session and a part through a crash.

use crate::text::{
    char_is_control, decimal, ends_with, from_chars, is_control, is_digit, law_beginnings,
    law_trimming, law_trimming_of, lemma_decimal_denotes, lemma_find_back, lemma_find_from,
    lemma_parse_decimal, lower, lowered, occurs_at, parse_unsigned, parsed_unsigned, prefix_of,
    push_decimal, push_text, rsplit_once, same, split_first, split_last, split_once, strip_prefix,
    take_chars, to_chars, trim, trim_of, trimmed, trimmed_of,
};
use vstd::prelude::*;

verus! {

/// The longest file name component, in characters.
pub const MAX_COMPONENT: usize = 80;

/// True for a character that must not appear in a file name.
pub open spec fn is_forbidden(c: char) -> bool {
    ||| c == '/'
    ||| c == '\\'
    ||| c == ':'
    ||| c == '*'
    ||| c == '?'
    ||| c == '"'
    ||| c == '<'
    ||| c == '>'
    ||| c == '|'
    ||| is_control(c)
}

/// `c`, or an underscore where `c` must not appear in a file name.
pub open spec fn safe_char(c: char) -> char {
    if is_forbidden(c) {
        '_'
    } else {
        c
    }
}

/// The file name component made of a free text.
pub open spec fn safe_component(s: Seq<char>) -> Seq<char> {
    let cleaned = trimmed_of(trimmed(s.map_values(|c: char| safe_char(c))), '.');
    if cleaned.len() == 0 {
        "live-replay"@
    } else {
        prefix_of(cleaned, MAX_COMPONENT as nat)
    }
}

fn char_is_forbidden(c: char) -> (r: bool)
    ensures
        r == is_forbidden(c),
{
    c == '/' || c == '\\' || c == ':' || c == '*' || c == '?' || c == '"' || c == '<' || c == '>'
        || c == '|' || char_is_control(c)
}

/// Turns a free text into a file name component: forbidden characters become underscores, white
/// space and dots at the ends go away, at most 80 characters stay, and an empty result becomes
/// `live-replay`.
pub fn safe_file_component(input: &str) -> (r: String)
    ensures
        r@ == safe_component(input@),
{
    let v = to_chars(input);
    let n: usize = v.len();
    let mut w: Vec<char> = Vec::new();
    let mut i: usize = 0;
    while i < n
        invariant
            i <= n,
            n == v.len(),
            w@ == v@.take(i as int).map_values(|c: char| safe_char(c)),
        decreases n - i,
    {
        let c = v[i];
        w.push(
            if char_is_forbidden(c) {
                '_'
            } else {
                c
            },
        );
        i = i + 1;
        assert(w@ =~= v@.take(i as int).map_values(|c: char| safe_char(c)));
    }
    assert(v@.take(n as int) =~= v@);
    let cleaned = trim_of(trim(from_chars(w.as_slice()).as_str()).as_str(), '.');
    if cleaned.as_str().is_empty() {
        "live-replay".to_owned()
    } else {
        take_chars(cleaned.as_str(), MAX_COMPONENT)
    }
}

/// The name of the source container of one part: it carries the session and the part number.
pub open spec fn source_name_text(session: Seq<char>, index: nat, extension: Seq<char>) -> Seq<
    char,
> {
    ".lr-"@ + session + "-P"@ + decimal(index) + "-source."@ + extension
}

/// The session, part number and extension that the name of a source container carries.
pub open spec fn parsed_source_name(name: Seq<char>) -> Option<(Seq<char>, nat, Seq<char>)> {
    if !".lr-"@.is_prefix_of(name) {
        None
    } else {
        match split_last(name.skip(".lr-"@.len() as int), "-P"@) {
            None => None,
            Some((session, rest)) => match split_first(rest, "-source."@) {
                None => None,
                Some((digits, extension)) => match parsed_unsigned(digits, u32::MAX as nat) {
                    None => None,
                    Some(index) => if extension == "flv"@ || extension == "ts"@ {
                        Some((session, index, extension))
                    } else {
                        None
                    },
                },
            },
        }
    }
}

/// Writes the name of the source container of one part.
pub fn source_name(session: &str, index: u32, extension: &str) -> (r: String)
    ensures
        r@ == source_name_text(session@, index as nat, extension@),
{
    let mut out = ".lr-".to_owned();
    push_text(&mut out, session);
    push_text(&mut out, "-P");
    push_decimal(&mut out, index as u64);
    push_text(&mut out, "-source.");
    push_text(&mut out, extension);
    out
}

/// Reads session, part number and extension out of the name of a source container; any other
/// name gives nothing.
pub fn parse_source_name(name: &str) -> (r: Option<(String, u32, String)>)
    ensures
        match r {
            Some((session, index, extension)) => parsed_source_name(name@) == Some(
                (session@, index as nat, extension@),
            ),
            None => parsed_source_name(name@) is None,
        },
{
    let rest = match strip_prefix(name, ".lr-") {
        Some(rest) => rest,
        None => {
            return None;
        },
    };
    let (session, p_rest) = match rsplit_once(rest.as_str(), "-P") {
        Some(pair) => pair,
        None => {
            return None;
        },
    };
    let (digits, extension) = match split_once(p_rest.as_str(), "-source.") {
        Some(pair) => pair,
        None => {
            return None;
        },
    };
    let index: u64 = match parse_unsigned(digits.as_str(), u32::MAX as u64) {
        Some(index) => index,
        None => {
            return None;
        },
    };
    if !same(extension.as_str(), "flv") && !same(extension.as_str(), "ts") {
        return None;
    }
    Some((session, index as u32, extension))
}

/// Reading the name of a source container gives back the session, the part number and the
/// extension that it was written from, whatever characters the session identifier holds.
pub proof fn law_source_name_round_trip(session: Seq<char>, index: nat, extension: Seq<char>)
    requires
        index <= u32::MAX,
        extension == "flv"@ || extension == "ts"@,
    ensures
        parsed_source_name(source_name_text(session, index, extension)) == Some(
            (session, index, extension),
        ),
{
    reveal_strlit(".lr-");
    reveal_strlit("-P");
    reveal_strlit("-source.");
    reveal_strlit("flv");
    reveal_strlit("ts");
    let digits = decimal(index);
    lemma_decimal_denotes(index);
    let name = source_name_text(session, index, extension);
    let tail = digits + "-source."@ + extension;
    let rest = session + "-P"@ + tail;
    assert(name.subrange(0, 4) =~= ".lr-"@);
    assert(name.skip(4) =~= rest);
    let k = session.len() as int;
    assert(occurs_at(rest, k, "-P"@)) by {
        assert(rest.subrange(k, k + 2) =~= "-P"@);
    }
    assert forall|i: int| k < i <= rest.len() - 2 implies !occurs_at(rest, i, "-P"@) by {
        if occurs_at(rest, i, "-P"@) {
            let here = rest.subrange(i, i + 2);
            assert(here[0] == rest[i] && here[1] == rest[i + 1]);
            assert(rest[i] == '-' && rest[i + 1] == 'P');
            let j = i - k - 2;
            if j < 0 {
                assert(rest[i] == 'P');
            } else if j < digits.len() {
                assert(rest[i] == digits[j]);
                assert(is_digit(digits[j]));
            } else if j == digits.len() {
                assert(rest[i + 1] == 's');
            } else if j < digits.len() + 8 {
                assert(rest[i] == "-source."@[j - digits.len()]);
            } else {
                assert(rest[i] == extension[j - digits.len() - 8]);
            }
        }
    }
    lemma_find_back(rest, "-P"@, rest.len() - 2, k);
    assert(rest.take(k) =~= session);
    assert(rest.skip(k + 2) =~= tail);
    let m = digits.len() as int;
    assert(occurs_at(tail, m, "-source."@)) by {
        assert(tail.subrange(m, m + 8) =~= "-source."@);
    }
    assert forall|i: int| 0 <= i < m implies !occurs_at(tail, i, "-source."@) by {
        if occurs_at(tail, i, "-source."@) {
            assert(tail.subrange(i, i + 8)[0] == tail[i]);
            assert(tail[i] == digits[i]);
            assert(is_digit(digits[i]));
        }
    }
    lemma_find_from(tail, "-source."@, 0, m);
    assert(tail.take(m) =~= digits);
    assert(tail.skip(m + 8) =~= extension);
    lemma_parse_decimal(index, u32::MAX as nat);
}

/// The container kind of an unfinished raw recording, from the name of its file.
pub open spec fn raw_extension(name: Seq<char>) -> Option<Seq<char>> {
    let lower = lowered(name);
    if ".flv.part"@.is_suffix_of(lower) || ".flv"@.is_suffix_of(lower) {
        Some("flv"@)
    } else if ".ts.part"@.is_suffix_of(lower) || ".ts"@.is_suffix_of(lower) {
        Some("ts"@)
    } else {
        None
    }
}

/// The container kind of an unfinished raw recording: `flv` or `ts`, with or without `.part` at
/// the end of the name, in any letter case.
pub fn raw_source_extension(name: &str) -> (r: Option<&'static str>)
    ensures
        match r {
            Some(e) => raw_extension(name@) == Some(e@),
            None => raw_extension(name@) is None,
        },
{
    let lower = lower(name);
    if ends_with(lower.as_str(), ".flv.part") || ends_with(lower.as_str(), ".flv") {
        Some("flv")
    } else if ends_with(lower.as_str(), ".ts.part") || ends_with(lower.as_str(), ".ts") {
        Some("ts")
    } else {
        None
    }
}

/// What the names of the raw recordings of a session begin with.
pub open spec fn raw_prefix_text(session: Seq<char>) -> Seq<char> {
    ".lr-"@ + session + "-raw-"@
}

/// What the names of the raw recordings of a session begin with.
pub fn raw_prefix(session: &str) -> (r: String)
    ensures
        r@ == raw_prefix_text(session@),
{
    let mut out = ".lr-".to_owned();
    push_text(&mut out, session);
    push_text(&mut out, "-raw-");
    out
}

/// A relative `name` inside the directory `dir`.
pub open spec fn path_in(dir: Seq<char>, name: Seq<char>) -> Seq<char> {
    if dir.len() == 0 {
        name
    } else if dir.last() == '/' {
        dir + name
    } else {
        dir + "/"@ + name
    }
}

/// Puts a relative `name` behind the directory `dir`, with one slash between them.
pub fn join_path(dir: &str, name: &str) -> (r: String)
    ensures
        r@ == path_in(dir@, name@),
{
    let v = to_chars(dir);
    let n: usize = v.len();
    let mut out = dir.to_owned();
    if n > 0 && v[n - 1] != '/' {
        push_text(&mut out, "/");
    }
    push_text(&mut out, name);
    assert(n == 0 ==> out@ =~= name@);
    out
}

/// A component of a file name is never empty, at most 80 characters long, and holds no character
/// that a file name may not hold.
pub proof fn law_components_are_safe(s: Seq<char>, i: int)
    ensures
        0 < safe_component(s).len() <= 80,
        0 <= i < safe_component(s).len() ==> !is_forbidden(safe_component(s)[i]),
{
    let mapped = s.map_values(|c: char| safe_char(c));
    let inner = trimmed(mapped);
    let (a, b) = law_trimming(mapped);
    let (c, d) = law_trimming_of(inner, '.');
    let cleaned = trimmed_of(inner, '.');
    reveal_strlit("live-replay");
    if cleaned.len() == 0 {
        let name = "live-replay"@;
        assert(name.len() == 11);
        if 0 <= i < 11 {
            assert(!is_forbidden(name[i]));
        }
    } else {
        law_beginnings(cleaned, MAX_COMPONENT as nat);
        if 0 <= i < safe_component(s).len() {
            assert(safe_component(s)[i] == cleaned[i]);
            assert(cleaned[i] == inner[c + i]);
            assert(inner[c + i] == mapped[a + c + i]);
            assert(mapped[a + c + i] == safe_char(s[a + c + i]));
        }
    }
}

/// A character that may not stand in a file name becomes an underscore; every other stays.
pub proof fn law_forbidden_characters(c: char)
    ensures
        safe_char(c) == c || safe_char(c) == '_',
        !is_forbidden(safe_char(c)),
        is_forbidden('/') && is_forbidden('\\') && is_forbidden(':') && is_forbidden('\n')
            && is_forbidden('*') && is_forbidden('?') && is_forbidden('"') && is_forbidden('<')
            && is_forbidden('>') && is_forbidden('|'),
        'a' <= c <= 'z' || 'A' <= c <= 'Z' || '0' <= c <= '9' || c == '-' || c == '.' || c == ' '
            ==> safe_char(c) == c,
{
}

/// A name inside a directory stands behind the directory, with one slash between them.
pub proof fn law_names_in_directories(dir: Seq<char>, name: Seq<char>)
    ensures
        name.is_suffix_of(path_in(dir, name)),
        dir.is_prefix_of(path_in(dir, name)),
        dir.len() == 0 ==> path_in(dir, name) == name,
        dir.len() > 0 && dir.last() == '/' ==> path_in(dir, name).len() == dir.len() + name.len(),
        dir.len() > 0 && dir.last() != '/' ==> path_in(dir, name).len() == dir.len() + name.len()
            + 1 && path_in(dir, name)[dir.len() as int] == '/',
{
    reveal_strlit("/");
    let p = path_in(dir, name);
    assert(p.skip(p.len() - name.len()) =~= name);
    assert(p.take(dir.len() as int) =~= dir);
}

/// The kind of a raw file is told by how its name ends, in any case, also while it is being written.
pub proof fn law_raw_extensions(name: Seq<char>)
    ensures
        ".flv"@.is_suffix_of(lowered(name)) || ".flv.part"@.is_suffix_of(lowered(name))
            ==> raw_extension(name) == Some("flv"@),
        raw_extension(name) == Some("flv"@) ==> ".flv"@.is_suffix_of(lowered(name))
            || ".flv.part"@.is_suffix_of(lowered(name)),
        raw_extension(name) == Some("ts"@) ==> ".ts"@.is_suffix_of(lowered(name))
            || ".ts.part"@.is_suffix_of(lowered(name)),
        raw_extension(name) is None ==> !".ts"@.is_suffix_of(lowered(name))
            && !".ts.part"@.is_suffix_of(lowered(name)),
        raw_extension(name) is None || raw_extension(name) == Some("flv"@) || raw_extension(name)
            == Some("ts"@),
{
    reveal_strlit("flv");
    reveal_strlit("ts");
    assert("flv"@.len() != "ts"@.len());
}

/// The names of a session carry its identifier.
pub proof fn law_names_carry_the_session(session: Seq<char>, index: nat, extension: Seq<char>)
    ensures
        (".lr-"@ + session).is_prefix_of(source_name_text(session, index, extension)),
        (".lr-"@ + session).is_prefix_of(raw_prefix_text(session)),
        "-raw-"@.is_suffix_of(raw_prefix_text(session)),
        extension.is_suffix_of(source_name_text(session, index, extension)),
{
    let head = ".lr-"@ + session;
    let t = source_name_text(session, index, extension);
    let r = raw_prefix_text(session);
    assert(t.take(head.len() as int) =~= head);
    assert(r.take(head.len() as int) =~= head);
    assert(r.skip(r.len() - "-raw-"@.len()) =~= "-raw-"@);
    assert(t.skip(t.len() - extension.len()) =~= extension);
}

} // verus!
