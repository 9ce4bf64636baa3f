//! Text helpers: exact character-level models of the string operations the rules are built from.

use vstd::prelude::*;
use vstd::string::*;

verus! {

/// `String::push` appends one character at the end.
pub assume_specification[ String::push ](s: &mut String, c: char)
    ensures
        final(s)@ == old(s)@.push(c),
;

/// Model of the Unicode `White_Space` property.
pub open spec fn is_space(c: char) -> bool {
    ||| '\u{9}' <= c <= '\u{d}'
    ||| c == '\u{20}'
    ||| c == '\u{85}'
    ||| c == '\u{a0}'
    ||| c == '\u{1680}'
    ||| '\u{2000}' <= c <= '\u{200a}'
    ||| c == '\u{2028}'
    ||| c == '\u{2029}'
    ||| c == '\u{202f}'
    ||| c == '\u{205f}'
    ||| c == '\u{3000}'
}

/// True for the control characters of Unicode (category `Cc`).
pub open spec fn is_control(c: char) -> bool {
    c <= '\u{1f}' || '\u{7f}' <= c <= '\u{9f}'
}

/// Whether `c` is a Unicode white space character.
pub fn char_is_space(c: char) -> (r: bool)
    ensures
        r == is_space(c),
{
    ('\u{9}' <= c && c <= '\u{d}') || c == '\u{20}' || c == '\u{85}' || c == '\u{a0}' || c
        == '\u{1680}' || ('\u{2000}' <= c && c <= '\u{200a}') || c == '\u{2028}' || c == '\u{2029}'
        || c == '\u{202f}' || c == '\u{205f}' || c == '\u{3000}'
}

/// Whether `c` is a control character.
pub fn char_is_control(c: char) -> (r: bool)
    ensures
        r == is_control(c),
{
    c <= '\u{1f}' || ('\u{7f}' <= c && c <= '\u{9f}')
}

/// The characters of `s`, in order.
pub fn to_chars(s: &str) -> (r: Vec<char>)
    ensures
        r@ == s@,
{
    let mut out: Vec<char> = Vec::new();
    for c in it: s.chars()
        invariant
            it.seq() == s@,
            out@ == s@.take(it.index()),
    {
        out.push(c);
    }
    out
}

/// The string whose characters are `chars`.
pub fn from_chars(chars: &[char]) -> (r: String)
    ensures
        r@ == chars@,
{
    let mut out = String::new();
    let n: usize = chars.len();
    let mut i: usize = 0;
    while i < n
        invariant
            i <= n,
            n == chars.len(),
            out@ == chars@.take(i as int),
        decreases n - i,
    {
        out.push(chars[i]);
        i = i + 1;
    }
    assert(chars@.take(n as int) =~= chars@);
    out
}

/// Whether two strings hold the same characters.
pub fn same(a: &str, b: &str) -> (r: bool)
    ensures
        r == (a@ == b@),
{
    a.to_owned() == b.to_owned()
}

/// `s` without its longest prefix of characters that satisfy `p`.
pub open spec fn drop_leading(s: Seq<char>, p: spec_fn(char) -> bool) -> Seq<char>
    decreases s.len(),
{
    if s.len() > 0 && p(s[0]) {
        drop_leading(s.drop_first(), p)
    } else {
        s
    }
}

/// `s` without its longest suffix of characters that satisfy `p`.
pub open spec fn drop_trailing(s: Seq<char>, p: spec_fn(char) -> bool) -> Seq<char>
    decreases s.len(),
{
    if s.len() > 0 && p(s.last()) {
        drop_trailing(s.drop_last(), p)
    } else {
        s
    }
}

/// `s` without leading and trailing white space.
pub open spec fn trimmed(s: Seq<char>) -> Seq<char> {
    drop_trailing(drop_leading(s, |c: char| is_space(c)), |c: char| is_space(c))
}

/// The predicate that holds of `d` alone.
pub open spec fn is_char(d: char) -> spec_fn(char) -> bool {
    |c: char| c == d
}

/// `s` without leading and trailing occurrences of `d`.
pub open spec fn trimmed_of(s: Seq<char>, d: char) -> Seq<char> {
    drop_trailing(drop_leading(s, is_char(d)), is_char(d))
}

/// True when nothing but white space is in `s`.
pub open spec fn is_blank(s: Seq<char>) -> bool {
    trimmed(s).len() == 0
}

/// What is left of a string after `drop_leading` is the part from some index on.
pub proof fn lemma_drop_leading(s: Seq<char>, p: spec_fn(char) -> bool, k: int)
    requires
        0 <= k <= s.len(),
        forall|i: int| 0 <= i < k ==> p(s[i]),
        k < s.len() ==> !p(s[k]),
    ensures
        drop_leading(s, p) == s.skip(k),
    decreases k,
{
    if k == 0 {
        assert(s.skip(0) =~= s);
    } else {
        assert(p(s[0]));
        let t = s.drop_first();
        assert forall|i: int| 0 <= i < k - 1 implies p(t[i]) by {
            assert(t[i] == s[i + 1]);
        }
        lemma_drop_leading(t, p, k - 1);
        assert(t.skip(k - 1) =~= s.skip(k));
    }
}

/// What is left of a string after `drop_trailing` is the part up to some index.
pub proof fn lemma_drop_trailing(s: Seq<char>, p: spec_fn(char) -> bool, k: int)
    requires
        0 <= k <= s.len(),
        forall|i: int| k <= i < s.len() ==> p(s[i]),
        k > 0 ==> !p(s[k - 1]),
    ensures
        drop_trailing(s, p) == s.take(k),
    decreases s.len() - k,
{
    if k == s.len() {
        assert(s.take(k) =~= s);
    } else {
        assert(p(s.last()));
        let t = s.drop_last();
        lemma_drop_trailing(t, p, k);
        assert(t.take(k) =~= s.take(k));
    }
}

/// The part of `v` between two indices.
pub(crate) fn piece(v: &Vec<char>, from: usize, to: usize) -> (r: Vec<char>)
    requires
        from <= to <= v.len(),
    ensures
        r@ == v@.subrange(from as int, to as int),
{
    let mut out: Vec<char> = Vec::new();
    let mut i: usize = from;
    while i < to
        invariant
            from <= i <= to <= v.len(),
            out@ == v@.subrange(from as int, i as int),
        decreases to - i,
    {
        out.push(v[i]);
        i = i + 1;
        assert(v@.subrange(from as int, i as int) =~= v@.subrange(from as int, i - 1).push(
            v@[i - 1],
        ));
    }
    out
}

fn trim_chars(v: &Vec<char>) -> (r: Vec<char>)
    ensures
        r@ == trimmed(v@),
{
    let ghost p = |c: char| is_space(c);
    let n: usize = v.len();
    let mut a: usize = 0;
    while a < n && char_is_space(v[a])
        invariant
            a <= n,
            n == v.len(),
            forall|i: int| 0 <= i < a ==> is_space(v@[i]),
        decreases n - a,
    {
        a = a + 1;
    }
    proof {
        lemma_drop_leading(v@, p, a as int);
    }
    let mut b: usize = n;
    while b > a && char_is_space(v[b - 1])
        invariant
            a <= b <= n,
            n == v.len(),
            forall|i: int| b <= i < n ==> is_space(v@[i]),
        decreases b,
    {
        b = b - 1;
    }
    let ghost t = v@.skip(a as int);
    proof {
        assert forall|i: int| b - a <= i < t.len() implies p(t[i]) by {
            assert(t[i] == v@[i + a]);
        }
        assert(b > a ==> t[b - a - 1] == v@[b - 1]);
        lemma_drop_trailing(t, p, b - a);
        assert(t.take(b - a) =~= v@.subrange(a as int, b as int));
    }
    piece(v, a, b)
}

fn trim_chars_of(v: &Vec<char>, d: char) -> (r: Vec<char>)
    ensures
        r@ == trimmed_of(v@, d),
{
    let ghost p = is_char(d);
    let n: usize = v.len();
    let mut a: usize = 0;
    while a < n && v[a] == d
        invariant
            a <= n,
            n == v.len(),
            forall|i: int| 0 <= i < a ==> v@[i] == d,
        decreases n - a,
    {
        a = a + 1;
    }
    proof {
        lemma_drop_leading(v@, p, a as int);
    }
    let mut b: usize = n;
    while b > a && v[b - 1] == d
        invariant
            a <= b <= n,
            n == v.len(),
            forall|i: int| b <= i < n ==> v@[i] == d,
        decreases b,
    {
        b = b - 1;
    }
    let ghost t = v@.skip(a as int);
    proof {
        assert forall|i: int| b - a <= i < t.len() implies p(t[i]) by {
            assert(t[i] == v@[i + a]);
        }
        assert(b > a ==> t[b - a - 1] == v@[b - 1]);
        lemma_drop_trailing(t, p, b - a);
        assert(t.take(b - a) =~= v@.subrange(a as int, b as int));
    }
    piece(v, a, b)
}

/// `s` without leading and trailing white space.
pub fn trim(s: &str) -> (r: String)
    ensures
        r@ == trimmed(s@),
{
    from_chars(trim_chars(&to_chars(s)).as_slice())
}

/// `s` without leading and trailing occurrences of `d`.
pub fn trim_of(s: &str, d: char) -> (r: String)
    ensures
        r@ == trimmed_of(s@, d),
{
    from_chars(trim_chars_of(&to_chars(s), d).as_slice())
}

/// `s` without leading occurrences of `d`.
pub fn trim_start_of(s: &str, d: char) -> (r: String)
    ensures
        r@ == drop_leading(s@, is_char(d)),
{
    let v = to_chars(s);
    let n: usize = v.len();
    let mut a: usize = 0;
    while a < n && v[a] == d
        invariant
            a <= n,
            n == v.len(),
            forall|i: int| 0 <= i < a ==> v@[i] == d,
        decreases n - a,
    {
        a = a + 1;
    }
    proof {
        lemma_drop_leading(v@, is_char(d), a as int);
        assert(v@.skip(a as int) =~= v@.subrange(a as int, n as int));
    }
    from_chars(piece(&v, a, n).as_slice())
}

/// Whether nothing but white space is in `s`.
pub fn blank(s: &str) -> (r: bool)
    ensures
        r == is_blank(s@),
{
    trim_chars(&to_chars(s)).len() == 0
}

/// `c` with `A` to `Z` mapped to `a` to `z`.
pub open spec fn lower_char(c: char) -> char {
    if 'A' <= c <= 'Z' {
        (c as u32 + 32) as char
    } else {
        c
    }
}

/// `s` with each ASCII letter in lower case.
pub open spec fn lowered(s: Seq<char>) -> Seq<char> {
    s.map_values(|c: char| lower_char(c))
}

/// `s` with each ASCII letter in lower case.
pub fn lower(s: &str) -> (r: String)
    ensures
        r@ == lowered(s@),
{
    let v = to_chars(s);
    let n: usize = v.len();
    let mut out = String::new();
    let mut i: usize = 0;
    while i < n
        invariant
            i <= n,
            n == v.len(),
            out@ == lowered(v@.take(i as int)),
        decreases n - i,
    {
        let c = v[i];
        let d: char = if 'A' <= c && c <= 'Z' {
            (c as u8 + 32) as char
        } else {
            c
        };
        out.push(d);
        i = i + 1;
        assert(lowered(v@.take(i as int)) =~= lowered(v@.take(i - 1)).push(lower_char(v@[i - 1])));
    }
    assert(v@.take(n as int) =~= v@);
    out
}

/// Whether `s` begins with `p`.
pub fn starts_with(s: &str, p: &str) -> (r: bool)
    ensures
        r == p@.is_prefix_of(s@),
{
    let v = to_chars(s);
    let w = to_chars(p);
    if w.len() > v.len() {
        return false;
    }
    matches_at(&v, 0, &w)
}

/// Whether `s` ends with `p`.
pub fn ends_with(s: &str, p: &str) -> (r: bool)
    ensures
        r == p@.is_suffix_of(s@),
{
    let v = to_chars(s);
    let w = to_chars(p);
    if w.len() > v.len() {
        return false;
    }
    matches_at(&v, v.len() - w.len(), &w)
}

/// True when the characters of `p` stand in `s` from index `i` on.
pub open spec fn occurs_at(s: Seq<char>, i: int, p: Seq<char>) -> bool {
    0 <= i && i + p.len() <= s.len() && s.subrange(i, i + p.len()) == p
}

fn matches_at(v: &Vec<char>, at: usize, w: &Vec<char>) -> (r: bool)
    requires
        at + w.len() <= v.len(),
    ensures
        r == occurs_at(v@, at as int, w@),
{
    let n: usize = w.len();
    let mut i: usize = 0;
    while i < n
        invariant
            i <= n,
            n == w.len(),
            at + n <= v.len(),
            forall|j: int| 0 <= j < i ==> v@[at + j] == w@[j],
        decreases n - i,
    {
        if v[at + i] != w[i] {
            assert(v@.subrange(at as int, at + n)[i as int] != w@[i as int]);
            return false;
        }
        i = i + 1;
    }
    assert(v@.subrange(at as int, at + n) =~= w@);
    true
}

/// The decimal digit for a value below ten.
pub open spec fn digit_char(d: nat) -> char {
    (('0' as nat) + d) as char
}

/// The decimal notation of a number.
pub open spec fn decimal(n: nat) -> Seq<char>
    decreases n,
{
    if n < 10 {
        seq![digit_char(n)]
    } else {
        decimal(n / 10).push(digit_char(n % 10))
    }
}

/// The decimal notation of an integer, with a minus sign in front of a negative one.
pub open spec fn decimal_int(n: int) -> Seq<char> {
    if n < 0 {
        seq!['-'] + decimal((-n) as nat)
    } else {
        decimal(n as nat)
    }
}

fn digit_of(d: u64) -> (r: char)
    requires
        d < 10,
    ensures
        r == digit_char(d as nat),
{
    (48u8 + d as u8) as char
}

/// Appends the decimal notation of `n` to `out`.
pub fn push_decimal(out: &mut String, n: u64)
    ensures
        final(out)@ == old(out)@ + decimal(n as nat),
    decreases n,
{
    if n < 10 {
        out.push(digit_of(n));
        assert(out@ =~= old(out)@ + decimal(n as nat));
    } else {
        push_decimal(out, n / 10);
        out.push(digit_of(n % 10));
        assert(out@ =~= old(out)@ + decimal(n as nat));
    }
}

/// The decimal notation of `n`.
pub fn decimal_u64(n: u64) -> (r: String)
    ensures
        r@ == decimal(n as nat),
{
    let mut out = String::new();
    push_decimal(&mut out, n);
    assert(out@ =~= decimal(n as nat));
    out
}

/// The decimal notation of `n`, with a minus sign in front of a negative number.
pub fn decimal_i64(n: i64) -> (r: String)
    ensures
        r@ == decimal_int(n as int),
{
    let mut out = String::new();
    if n < 0 {
        out.push('-');
        let m: u64 = if n == i64::MIN {
            9223372036854775808u64
        } else {
            (-n) as u64
        };
        push_decimal(&mut out, m);
        assert(out@ =~= decimal_int(n as int));
    } else {
        push_decimal(&mut out, n as u64);
        assert(out@ =~= decimal_int(n as int));
    }
    out
}

/// True for `0` to `9`.
pub open spec fn is_digit(c: char) -> bool {
    '0' <= c <= '9'
}

/// The value of a decimal digit.
pub open spec fn digit_value(c: char) -> nat {
    (c as nat - '0' as nat) as nat
}

/// True when `s` is one or more decimal digits.
pub open spec fn all_digits(s: Seq<char>) -> bool {
    s.len() > 0 && forall|i: int| 0 <= i < s.len() ==> is_digit(#[trigger] s[i])
}

/// The number that a run of decimal digits denotes.
pub open spec fn digits_value(s: Seq<char>) -> nat
    decreases s.len(),
{
    if s.len() == 0 {
        0
    } else {
        digits_value(s.drop_last()) * 10 + digit_value(s.last())
    }
}

/// The digits of an unsigned number in text form: what follows one optional plus sign.
pub open spec fn unsigned_digits(s: Seq<char>) -> Seq<char> {
    if s.len() > 0 && s[0] == '+' {
        s.drop_first()
    } else {
        s
    }
}

/// The number that `s` denotes as an unsigned decimal of at most `max`, if it does.
pub open spec fn parsed_unsigned(s: Seq<char>, max: nat) -> Option<nat> {
    let d = unsigned_digits(s);
    if all_digits(d) && digits_value(d) <= max {
        Some(digits_value(d))
    } else {
        None
    }
}

/// A longer run of digits denotes no smaller number.
pub proof fn lemma_digits_value_grows(s: Seq<char>, k: int)
    requires
        0 <= k <= s.len(),
    ensures
        digits_value(s.take(k)) <= digits_value(s),
    decreases s.len() - k,
{
    if k == s.len() {
        assert(s.take(k) =~= s);
    } else {
        lemma_digits_value_grows(s, k + 1);
        assert(s.take(k + 1).drop_last() =~= s.take(k));
    }
}

fn parse_digits(v: &Vec<char>, from: usize, max: u64) -> (r: Option<u64>)
    requires
        from <= v.len(),
    ensures
        ({
            let d = v@.skip(from as int);
            r == if all_digits(d) && digits_value(d) <= max {
                Some(digits_value(d) as u64)
            } else {
                None
            }
        }),
{
    let ghost d = v@.skip(from as int);
    let n: usize = v.len();
    if from == n {
        return None;
    }
    let mut acc: u64 = 0;
    let mut i: usize = from;
    while i < n
        invariant
            from <= i <= n,
            n == v.len(),
            d == v@.skip(from as int),
            acc == digits_value(d.take(i - from)),
            acc <= max,
            forall|j: int| 0 <= j < i - from ==> is_digit(#[trigger] d[j]),
        decreases n - i,
    {
        let c = v[i];
        assert(d[i - from] == c);
        if !('0' <= c && c <= '9') {
            assert(!all_digits(d));
            return None;
        }
        let x: u64 = (c as u32 - 48) as u64;
        proof {
            assert(d.take(i + 1 - from).drop_last() =~= d.take(i - from));
            lemma_digits_value_grows(d, i + 1 - from);
        }
        if acc > max / 10 {
            assert(acc * 10 + x > max);
            return None;
        }
        if x > max || acc * 10 > max - x {
            return None;
        }
        acc = acc * 10 + x;
        i = i + 1;
    }
    assert(d.take(n - from) =~= d);
    Some(acc)
}

/// Reads an unsigned decimal number of at most `max`, with an optional plus sign in front.
pub fn parse_unsigned(s: &str, max: u64) -> (r: Option<u64>)
    ensures
        r matches Some(n) ==> parsed_unsigned(s@, max as nat) == Some(n as nat),
        r is None ==> parsed_unsigned(s@, max as nat) is None,
{
    let v = to_chars(s);
    if v.len() > 0 && v[0] == '+' {
        assert(v@.skip(1) =~= v@.drop_first());
        parse_digits(&v, 1, max)
    } else {
        assert(v@.skip(0) =~= v@);
        parse_digits(&v, 0, max)
    }
}

/// Appends `s` to `out`.
pub fn push_text(out: &mut String, s: &str)
    ensures
        final(out)@ == old(out)@ + s@,
{
    out.append(s);
}

/// The strings of a list, by their characters.
pub open spec fn texts(v: Seq<String>) -> Seq<Seq<char>> {
    v.map_values(|s: String| s@)
}

/// The characters of an optional string.
pub open spec fn opt_text(o: Option<String>) -> Option<Seq<char>> {
    match o {
        Some(s) => Some(s@),
        None => None,
    }
}

/// `parts` written one after the other, with `sep` between neighbours.
pub open spec fn joined(parts: Seq<Seq<char>>, sep: Seq<char>) -> Seq<char>
    decreases parts.len(),
{
    if parts.len() == 0 {
        Seq::empty()
    } else if parts.len() == 1 {
        parts[0]
    } else {
        joined(parts.drop_last(), sep) + sep + parts.last()
    }
}

/// Writes `parts` one after the other, with `sep` between neighbours.
pub fn join(parts: &Vec<String>, sep: &str) -> (r: String)
    ensures
        r@ == joined(texts(parts@), sep@),
{
    let mut out = String::new();
    let n: usize = parts.len();
    let ghost all = texts(parts@);
    let mut i: usize = 0;
    while i < n
        invariant
            i <= n,
            n == parts.len(),
            all == texts(parts@),
            out@ == joined(all.take(i as int), sep@),
        decreases n - i,
    {
        let ghost before = out@;
        if i > 0 {
            push_text(&mut out, sep);
        }
        push_text(&mut out, parts[i].as_str());
        i = i + 1;
        proof {
            let t = all.take(i as int);
            assert(t.drop_last() =~= all.take(i - 1));
            assert(t.last() == parts@[i - 1]@);
            if i == 1 {
                assert(out@ =~= t[0]);
            } else {
                assert(out@ =~= before + sep@ + t.last());
            }
        }
    }
    assert(all.take(n as int) =~= all);
    out
}

/// The first index at or after `from` at which `p` stands in `s`, or -1.
pub open spec fn find_from(s: Seq<char>, p: Seq<char>, from: int) -> int
    decreases s.len() - from + 1,
{
    if from < 0 || from + p.len() > s.len() {
        -1
    } else if occurs_at(s, from, p) {
        from
    } else {
        find_from(s, p, from + 1)
    }
}

/// The last index at or before `upto` at which `p` stands in `s`, or -1.
pub open spec fn find_back(s: Seq<char>, p: Seq<char>, upto: int) -> int
    decreases upto + 1,
{
    if upto < 0 {
        -1
    } else if occurs_at(s, upto, p) {
        upto
    } else {
        find_back(s, p, upto - 1)
    }
}

/// The parts of `s` before and after the first occurrence of `p`.
pub open spec fn split_first(s: Seq<char>, p: Seq<char>) -> Option<(Seq<char>, Seq<char>)> {
    let i = find_from(s, p, 0);
    if i < 0 {
        None
    } else {
        Some((s.take(i), s.skip(i + p.len())))
    }
}

/// The parts of `s` before and after the last occurrence of `p`.
pub open spec fn split_last(s: Seq<char>, p: Seq<char>) -> Option<(Seq<char>, Seq<char>)> {
    let i = find_back(s, p, s.len() - p.len());
    if i < 0 {
        None
    } else {
        Some((s.take(i), s.skip(i + p.len())))
    }
}

/// The parts of `s` before and after the first occurrence of `p`, if it occurs.
pub fn split_once(s: &str, p: &str) -> (r: Option<(String, String)>)
    ensures
        match r {
            Some((a, b)) => split_first(s@, p@) == Some((a@, b@)),
            None => split_first(s@, p@) is None,
        },
{
    let v = to_chars(s);
    let w = to_chars(p);
    if w.len() > v.len() {
        return None;
    }
    let last: usize = v.len() - w.len();
    let mut i: usize = 0;
    loop
        invariant
            v@ == s@,
            w@ == p@,
            i <= last,
            last + w.len() == v.len(),
            find_from(s@, p@, 0) == find_from(s@, p@, i as int),
        decreases last - i,
    {
        if matches_at(&v, i, &w) {
            let a = from_chars(piece(&v, 0, i).as_slice());
            let b = from_chars(piece(&v, i + w.len(), v.len()).as_slice());
            assert(a@ =~= s@.take(i as int));
            assert(b@ =~= s@.skip(i + w@.len()));
            return Some((a, b));
        }
        assert(find_from(s@, p@, i as int) == find_from(s@, p@, i + 1));
        if i == last {
            return None;
        }
        i = i + 1;
    }
}

/// The parts of `s` before and after the last occurrence of `p`, if it occurs.
pub fn rsplit_once(s: &str, p: &str) -> (r: Option<(String, String)>)
    ensures
        match r {
            Some((a, b)) => split_last(s@, p@) == Some((a@, b@)),
            None => split_last(s@, p@) is None,
        },
{
    let v = to_chars(s);
    let w = to_chars(p);
    if w.len() > v.len() {
        return None;
    }
    let last: usize = v.len() - w.len();
    let mut i: usize = last;
    loop
        invariant
            v@ == s@,
            w@ == p@,
            i <= last,
            last + w.len() == v.len(),
            find_back(s@, p@, last as int) == find_back(s@, p@, i as int),
        decreases i,
    {
        if matches_at(&v, i, &w) {
            let a = from_chars(piece(&v, 0, i).as_slice());
            let b = from_chars(piece(&v, i + w.len(), v.len()).as_slice());
            assert(a@ =~= s@.take(i as int));
            assert(b@ =~= s@.skip(i + w@.len()));
            return Some((a, b));
        }
        assert(find_back(s@, p@, i as int) == find_back(s@, p@, i - 1));
        if i == 0 {
            return None;
        }
        i = i - 1;
    }
}

/// What follows `p` at the start of `s`, if `s` begins with it.
pub fn strip_prefix(s: &str, p: &str) -> (r: Option<String>)
    ensures
        match r {
            Some(t) => p@.is_prefix_of(s@) && t@ == s@.skip(p@.len() as int),
            None => !p@.is_prefix_of(s@),
        },
{
    let v = to_chars(s);
    let w = to_chars(p);
    if w.len() > v.len() || !matches_at(&v, 0, &w) {
        return None;
    }
    let t = from_chars(piece(&v, w.len(), v.len()).as_slice());
    assert(t@ =~= s@.skip(p@.len() as int));
    Some(t)
}

/// The first `n` characters of `s`, or all of it if it is no longer.
pub open spec fn prefix_of(s: Seq<char>, n: nat) -> Seq<char> {
    if s.len() <= n {
        s
    } else {
        s.take(n as int)
    }
}

/// The first `n` characters of `s`, or all of it if it is no longer.
pub fn take_chars(s: &str, n: usize) -> (r: String)
    ensures
        r@ == prefix_of(s@, n as nat),
{
    let v = to_chars(s);
    let k: usize = if v.len() < n {
        v.len()
    } else {
        n
    };
    let r = from_chars(piece(&v, 0, k).as_slice());
    assert(r@ =~= prefix_of(s@, n as nat));
    r
}

/// `a` followed by `b`.
pub fn concat(a: &str, b: &str) -> (r: String)
    ensures
        r@ == a@ + b@,
{
    let mut out = a.to_owned();
    out.append(b);
    out
}

/// The decimal notation of a number is a run of digits that denotes the number.
pub proof fn lemma_decimal_denotes(n: nat)
    ensures
        all_digits(decimal(n)),
        digits_value(decimal(n)) == n,
    decreases n,
{
    if n < 10 {
        let s = decimal(n);
        assert(s.drop_last() =~= Seq::<char>::empty());
        assert(digits_value(s.drop_last()) == 0);
        assert(s.last() == digit_char(n));
    } else {
        lemma_decimal_denotes(n / 10);
        let s = decimal(n);
        assert(s.drop_last() =~= decimal(n / 10));
        assert(s.last() == digit_char(n % 10));
        assert(is_digit(s.last()));
        assert forall|i: int| 0 <= i < s.len() implies is_digit(#[trigger] s[i]) by {
            if i < s.len() - 1 {
                assert(s[i] == decimal(n / 10)[i]);
            }
        }
    }
}

/// Reading back the decimal notation of a number gives the number.
pub proof fn lemma_parse_decimal(n: nat, max: nat)
    requires
        n <= max,
    ensures
        parsed_unsigned(decimal(n), max) == Some(n),
{
    lemma_decimal_denotes(n);
    assert(is_digit(decimal(n)[0]));
}

/// An occurrence at `k` with none before it is what `find_from` finds.
pub proof fn lemma_find_from(s: Seq<char>, p: Seq<char>, from: int, k: int)
    requires
        0 <= from <= k,
        occurs_at(s, k, p),
        forall|i: int| from <= i < k ==> !occurs_at(s, i, p),
    ensures
        find_from(s, p, from) == k,
    decreases k - from,
{
    if from < k {
        lemma_find_from(s, p, from + 1, k);
    }
}

/// An occurrence at `k` with none after it is what `find_back` finds.
pub proof fn lemma_find_back(s: Seq<char>, p: Seq<char>, upto: int, k: int)
    requires
        k <= upto,
        occurs_at(s, k, p),
        forall|i: int| k < i <= upto ==> !occurs_at(s, i, p),
    ensures
        find_back(s, p, upto) == k,
    decreases upto - k,
{
    if k < upto {
        lemma_find_back(s, p, upto - 1, k);
    }
}

/// Lexicographic order by code points: `a` comes before `b` or is equal to it.
pub open spec fn text_le(a: Seq<char>, b: Seq<char>) -> bool
    decreases a.len(),
{
    if a.len() == 0 {
        true
    } else if b.len() == 0 {
        false
    } else if a[0] == b[0] {
        text_le(a.drop_first(), b.drop_first())
    } else {
        a[0] < b[0]
    }
}

/// Whether `a` comes before `b` in lexicographic order, or is equal to it.
pub fn not_after(a: &str, b: &str) -> (r: bool)
    ensures
        r == text_le(a@, b@),
{
    let v = to_chars(a);
    let w = to_chars(b);
    let mut i: usize = 0;
    assert(v@.skip(0) =~= v@);
    assert(w@.skip(0) =~= w@);
    loop
        invariant
            v@ == a@,
            w@ == b@,
            i <= v.len(),
            i <= w.len(),
            text_le(a@, b@) == text_le(v@.skip(i as int), w@.skip(i as int)),
        decreases v.len() - i,
    {
        if i == v.len() {
            return true;
        }
        if i == w.len() {
            return false;
        }
        if v[i] != w[i] {
            return v[i] < w[i];
        }
        assert(v@.skip(i as int).drop_first() =~= v@.skip(i + 1));
        assert(w@.skip(i as int).drop_first() =~= w@.skip(i + 1));
        i = i + 1;
    }
}

/// Of two texts, one comes before the other or they are equal.
pub proof fn lemma_text_le_total(a: Seq<char>, b: Seq<char>)
    ensures
        text_le(a, b) || text_le(b, a),
    decreases a.len(),
{
    if a.len() > 0 && b.len() > 0 && a[0] == b[0] {
        lemma_text_le_total(a.drop_first(), b.drop_first());
    }
}

/// The order of texts is transitive.
pub proof fn lemma_text_le_transitive(a: Seq<char>, b: Seq<char>, c: Seq<char>)
    requires
        text_le(a, b),
        text_le(b, c),
    ensures
        text_le(a, c),
    decreases a.len(),
{
    if a.len() > 0 && b.len() > 0 && c.len() > 0 && a[0] == b[0] && b[0] == c[0] {
        lemma_text_le_transitive(a.drop_first(), b.drop_first(), c.drop_first());
    }
}

/// Two texts that come before each other are equal.
pub proof fn lemma_text_le_antisymmetric(a: Seq<char>, b: Seq<char>)
    requires
        text_le(a, b),
        text_le(b, a),
    ensures
        a == b,
    decreases a.len(),
{
    if a.len() > 0 && b.len() > 0 {
        lemma_text_le_antisymmetric(a.drop_first(), b.drop_first());
        assert(a =~= seq![a[0]] + a.drop_first());
        assert(b =~= seq![b[0]] + b.drop_first());
    } else {
        assert(a =~= b);
    }
}

/// Order by text first, then by number.
pub open spec fn pair_le(a: Seq<char>, m: int, b: Seq<char>, n: int) -> bool {
    if a == b {
        m <= n
    } else {
        text_le(a, b)
    }
}

/// Of two pairs, one comes before the other or they are equal.
pub proof fn lemma_pair_le_total(a: Seq<char>, m: int, b: Seq<char>, n: int)
    ensures
        pair_le(a, m, b, n) || pair_le(b, n, a, m),
{
    lemma_text_le_total(a, b);
}

/// The order of pairs is transitive.
pub proof fn lemma_pair_le_transitive(
    a: Seq<char>,
    m: int,
    b: Seq<char>,
    n: int,
    c: Seq<char>,
    k: int,
)
    requires
        pair_le(a, m, b, n),
        pair_le(b, n, c, k),
    ensures
        pair_le(a, m, c, k),
{
    if a != b && b != c {
        lemma_text_le_transitive(a, b, c);
        if a == c {
            lemma_text_le_antisymmetric(a, b);
        }
    }
}

/// `n` zeros.
pub open spec fn zeros(n: nat) -> Seq<char> {
    Seq::new(n, |i: int| '0')
}

/// `s` with zeros in front of it up to `width` characters.
pub open spec fn zero_filled(s: Seq<char>, width: nat) -> Seq<char> {
    if s.len() >= width {
        s
    } else {
        zeros((width - s.len()) as nat) + s
    }
}

/// The decimal notation of an integer, filled with zeros behind the sign up to `width` characters.
pub open spec fn padded_decimal(n: int, width: nat) -> Seq<char> {
    if n < 0 && width > 0 {
        seq!['-'] + zero_filled(decimal((-n) as nat), (width - 1) as nat)
    } else {
        zero_filled(decimal_int(n), width)
    }
}

/// `s` with zeros in front of it up to `width` characters.
pub fn zero_fill(s: &str, width: usize) -> (r: String)
    ensures
        r@ == zero_filled(s@, width as nat),
{
    let v = to_chars(s);
    let mut out = String::new();
    let mut i: usize = v.len();
    while i < width
        invariant
            v@ == s@,
            v.len() <= i,
            v.len() <= width ==> i <= width,
            v.len() > width ==> i == v.len(),
            out@ == zeros((i - v.len()) as nat),
        decreases width - i,
    {
        out.push('0');
        i = i + 1;
        assert(out@ =~= zeros((i - v.len()) as nat));
    }
    push_text(&mut out, s);
    assert(out@ =~= zero_filled(s@, width as nat));
    out
}

/// The decimal notation of `n`, filled with zeros behind the sign up to `width` characters.
pub fn padded_i64(n: i64, width: usize) -> (r: String)
    ensures
        r@ == padded_decimal(n as int, width as nat),
{
    if n < 0 && width > 0 {
        let m: u64 = if n == i64::MIN {
            9223372036854775808u64
        } else {
            (-n) as u64
        };
        let digits = zero_fill(decimal_u64(m).as_str(), width - 1);
        let mut out = String::new();
        out.push('-');
        push_text(&mut out, digits.as_str());
        assert(out@ =~= padded_decimal(n as int, width as nat));
        out
    } else {
        zero_fill(decimal_i64(n).as_str(), width)
    }
}

/// Appends the decimal notation of `n` to `out`.
pub fn push_decimal_u128(out: &mut String, n: u128)
    ensures
        final(out)@ == old(out)@ + decimal(n as nat),
    decreases n,
{
    if n < 10 {
        out.push(digit_of(n as u64));
        assert(out@ =~= old(out)@ + decimal(n as nat));
    } else {
        push_decimal_u128(out, n / 10);
        out.push(digit_of((n % 10) as u64));
        assert(out@ =~= old(out)@ + decimal(n as nat));
    }
}

/// The hexadecimal digit with the value `d`, in lower case.
pub open spec fn hex_char(d: nat) -> char {
    if d < 10 {
        digit_char(d)
    } else {
        (('a' as nat) + d - 10) as char
    }
}

/// The last `width` digits of the hexadecimal notation of `n`, filled with zeros.
pub open spec fn hex_digits(n: nat, width: nat) -> Seq<char>
    decreases width,
{
    if width == 0 {
        Seq::empty()
    } else {
        hex_digits(n / 16, (width - 1) as nat).push(hex_char(n % 16))
    }
}

/// Appends the last `width` digits of the hexadecimal notation of `n` to `out`, filled with zeros.
pub fn push_hex(out: &mut String, n: u64, width: usize)
    ensures
        final(out)@ == old(out)@ + hex_digits(n as nat, width as nat),
    decreases width,
{
    if width > 0 {
        push_hex(out, n / 16, width - 1);
        let d: u64 = n % 16;
        if d < 10 {
            out.push(digit_of(d));
        } else {
            out.push((97u8 + (d - 10) as u8) as char);
        }
    }
    assert(out@ =~= old(out)@ + hex_digits(n as nat, width as nat));
}

/// A text with `d` behind `a`, where `a` holds no `d`, is split behind `a`.
pub proof fn lemma_split_first_at(a: Seq<char>, b: Seq<char>, d: char)
    requires
        forall|i: int| 0 <= i < a.len() ==> (#[trigger] a[i]) != d,
    ensures
        split_first(a + seq![d] + b, seq![d]) == Some((a, b)),
{
    let s = a + seq![d] + b;
    let k = a.len() as int;
    assert(s.subrange(k, k + 1) =~= seq![d]);
    assert forall|i: int| 0 <= i < k implies !occurs_at(s, i, seq![d]) by {
        assert(s.subrange(i, i + 1)[0] == a[i]);
    }
    lemma_find_from(s, seq![d], 0, k);
    assert(s.take(k) =~= a);
    assert(s.skip(k + 1) =~= b);
}

/// A text without `d` is not split.
pub proof fn lemma_split_first_none(s: Seq<char>, d: char, from: int)
    requires
        0 <= from <= s.len(),
        forall|i: int| 0 <= i < s.len() ==> (#[trigger] s[i]) != d,
    ensures
        find_from(s, seq![d], from) == -1,
    decreases s.len() - from,
{
    if from < s.len() {
        assert(s.subrange(from, from + 1)[0] == s[from]);
        lemma_split_first_none(s, d, from + 1);
    }
}

/// A number filled with zeros up to two digits is a run of digits that denotes the number.
pub proof fn lemma_two_digits(n: nat)
    ensures
        all_digits(padded_decimal(n as int, 2)),
        digits_value(padded_decimal(n as int, 2)) == n,
{
    lemma_decimal_denotes(n);
    let d = decimal(n);
    if d.len() < 2 {
        let s = padded_decimal(n as int, 2);
        assert(d.len() == 1);
        assert(s =~= seq!['0', d[0]]);
        assert(s.drop_last() =~= seq!['0']);
        assert(seq!['0'].drop_last() =~= Seq::<char>::empty());
        assert(d.drop_last() =~= Seq::<char>::empty());
        reveal_with_fuel(digits_value, 3);
        assert(is_digit(d[0]));
        assert(is_digit(s[0]) && is_digit(s[1]));
    }
}

/// A text is found at the first place from `from` on at which it occurs, and where it occurs nowhere
/// there it is not found.
pub proof fn law_found_where_it_occurs(s: Seq<char>, p: Seq<char>, from: int)
    requires
        from >= 0,
    ensures
        ({
            let k = find_from(s, p, from);
            &&& k < 0 ==> forall|i: int| from <= i ==> !#[trigger] occurs_at(s, i, p)
            &&& k >= 0 ==> from <= k && occurs_at(s, k, p) && forall|i: int|
                from <= i < k ==> !#[trigger] occurs_at(s, i, p)
            &&& from == 0 ==> (k >= 0 <==> exists|i: int| #[trigger] occurs_at(s, i, p))
        }),
    decreases s.len() - from + 1,
{
    if from + p.len() <= s.len() && !occurs_at(s, from, p) {
        law_found_where_it_occurs(s, p, from + 1);
    }
}

/// A text is found at the last place up to `upto` at which it occurs.
pub proof fn law_found_back_where_it_occurs(s: Seq<char>, p: Seq<char>, upto: int)
    ensures
        ({
            let k = find_back(s, p, upto);
            &&& k < 0 ==> forall|i: int| i <= upto ==> !#[trigger] occurs_at(s, i, p)
            &&& k >= 0 ==> k <= upto && occurs_at(s, k, p) && forall|i: int|
                k < i <= upto ==> !#[trigger] occurs_at(s, i, p)
        }),
    decreases upto + 1,
{
    if upto >= 0 && !occurs_at(s, upto, p) {
        law_found_back_where_it_occurs(s, p, upto - 1);
    }
}

/// A text is split at the first (or the last) place where the separator stands: both halves and the
/// separator between them make it up again.
pub proof fn law_halves_make_the_whole(s: Seq<char>, p: Seq<char>)
    ensures
        split_first(s, p) matches Some((a, b)) ==> a + p + b == s && forall|i: int|
            0 <= i < a.len() ==> !#[trigger] occurs_at(s, i, p),
        split_first(s, p) is None ==> forall|i: int| !#[trigger] occurs_at(s, i, p),
        split_last(s, p) matches Some((a, b)) ==> a + p + b == s && forall|i: int|
            a.len() < i ==> !#[trigger] occurs_at(s, i, p),
        split_last(s, p) is None ==> forall|i: int| !#[trigger] occurs_at(s, i, p),
{
    law_found_where_it_occurs(s, p, 0);
    law_found_back_where_it_occurs(s, p, s.len() - p.len());
    let i = find_from(s, p, 0);
    if i >= 0 {
        assert(s.take(i) + s.subrange(i, i + p.len()) + s.skip(i + p.len()) =~= s);
    }
    let j = find_back(s, p, s.len() - p.len());
    if j >= 0 {
        assert(s.take(j) + s.subrange(j, j + p.len()) + s.skip(j + p.len()) =~= s);
    }
}

proof fn lemma_drop_leading_found(s: Seq<char>, p: spec_fn(char) -> bool) -> (k: int)
    ensures
        0 <= k <= s.len(),
        drop_leading(s, p) == s.skip(k),
        forall|i: int| 0 <= i < k ==> p(#[trigger] s[i]),
        k < s.len() ==> !p(s[k]),
    decreases s.len(),
{
    if s.len() > 0 && p(s[0]) {
        let rest = s.drop_first();
        let k = lemma_drop_leading_found(rest, p);
        assert(rest.skip(k) =~= s.skip(k + 1));
        assert forall|i: int| 0 <= i < k + 1 implies p(#[trigger] s[i]) by {
            if i > 0 {
                assert(rest[i - 1] == s[i]);
            }
        }
        if k < rest.len() {
            assert(rest[k] == s[k + 1]);
        }
        k + 1
    } else {
        assert(s.skip(0) =~= s);
        0
    }
}

proof fn lemma_drop_trailing_found(s: Seq<char>, p: spec_fn(char) -> bool) -> (k: int)
    ensures
        0 <= k <= s.len(),
        drop_trailing(s, p) == s.take(k),
        forall|i: int| k <= i < s.len() ==> p(#[trigger] s[i]),
        k > 0 ==> !p(s[k - 1]),
    decreases s.len(),
{
    if s.len() > 0 && p(s.last()) {
        let rest = s.drop_last();
        let k = lemma_drop_trailing_found(rest, p);
        assert(rest.take(k) =~= s.take(k));
        assert forall|i: int| k <= i < s.len() implies p(#[trigger] s[i]) by {
            if i < rest.len() {
                assert(rest[i] == s[i]);
            }
        }
        if k > 0 {
            assert(rest[k - 1] == s[k - 1]);
        }
        k
    } else {
        assert(s.take(s.len() as int) =~= s);
        s.len() as int
    }
}

/// Trimming takes away the white space at both ends and nothing else: what is left stands in the
/// text with only white space around it, and neither begins nor ends with any.
pub proof fn law_trimming(s: Seq<char>) -> (r: (int, int))
    ensures
        0 <= r.0 <= r.1 <= s.len(),
        trimmed(s) == s.subrange(r.0, r.1),
        forall|i: int| 0 <= i < r.0 ==> is_space(#[trigger] s[i]),
        forall|i: int| r.1 <= i < s.len() ==> is_space(#[trigger] s[i]),
        trimmed(s).len() > 0 ==> !is_space(trimmed(s)[0]) && !is_space(trimmed(s).last()),
        trimmed(trimmed(s)) == trimmed(s),
        is_blank(s) <==> forall|i: int| 0 <= i < s.len() ==> is_space(#[trigger] s[i]),
{
    let p = |c: char| is_space(c);
    let a = lemma_drop_leading_found(s, p);
    let t = s.skip(a);
    let k = lemma_drop_trailing_found(t, p);
    let b = a + k;
    let r = t.take(k);
    assert(r =~= s.subrange(a, b));
    assert forall|i: int| b <= i < s.len() implies is_space(#[trigger] s[i]) by {
        assert(t[i - a] == s[i]);
    }
    assert(forall|i: int| 0 <= i < a ==> p(s[i]) ==> is_space(#[trigger] s[i]));
    if r.len() > 0 {
        assert(r[0] == s[a] && !p(s[a]));
        assert(r.last() == t[k - 1] && !p(t[k - 1]));
        assert(drop_leading(r, p) == r);
        assert(drop_trailing(r, p) == r);
        assert(is_space(s[a]) == false);
    } else {
        assert(drop_leading(r, p) == r);
        assert(drop_trailing(r, p) == r);
        assert forall|i: int| 0 <= i < s.len() implies is_space(#[trigger] s[i]) by {
            if i < a {
                assert(p(s[i]));
            }
        }
    }
    (a, b)
}

/// Trimming a character takes away all of it at both ends, and nothing else.
pub proof fn law_trimming_of(s: Seq<char>, d: char) -> (r: (int, int))
    ensures
        0 <= r.0 <= r.1 <= s.len(),
        trimmed_of(s, d) == s.subrange(r.0, r.1),
        forall|i: int| 0 <= i < r.0 ==> #[trigger] s[i] == d,
        forall|i: int| r.1 <= i < s.len() ==> #[trigger] s[i] == d,
        trimmed_of(s, d).len() > 0 ==> trimmed_of(s, d)[0] != d && trimmed_of(s, d).last() != d,
{
    let p = is_char(d);
    let a = lemma_drop_leading_found(s, p);
    let t = s.skip(a);
    let k = lemma_drop_trailing_found(t, p);
    let b = a + k;
    assert(t.take(k) =~= s.subrange(a, b));
    assert forall|i: int| 0 <= i < a implies #[trigger] s[i] == d by {
        assert(p(s[i]));
    }
    assert forall|i: int| b <= i < s.len() implies #[trigger] s[i] == d by {
        assert(t[i - a] == s[i]);
        assert(p(t[i - a]));
    }
    if k > 0 {
        assert(!p(s[a]) && !p(t[k - 1]));
    }
    (a, b)
}

/// Lowering a text changes its capital letters from `A` to `Z` alone, each to its small letter.
pub proof fn law_lowering(s: Seq<char>, i: int)
    requires
        0 <= i < s.len(),
    ensures
        lowered(s).len() == s.len(),
        !('A' <= s[i] <= 'Z') ==> lowered(s)[i] == s[i],
        'A' <= s[i] <= 'Z' ==> 'a' <= lowered(s)[i] <= 'z' && lowered(s)[i] as u32 - 'a' as u32
            == s[i] as u32 - 'A' as u32,
        lowered(lowered(s)) == lowered(s),
{
    assert forall|k: int| 0 <= k < s.len() implies #[trigger] lowered(lowered(s))[k] == lowered(
        s,
    )[k] by {
        assert(lowered(s)[k] == lower_char(s[k]));
    }
    assert(lowered(lowered(s)) =~= lowered(s));
}

/// A joined list begins with its first text and grows by the separator and one text at a time.
pub proof fn law_joining(parts: Seq<Seq<char>>, sep: Seq<char>, part: Seq<char>)
    ensures
        joined(Seq::empty(), sep) == Seq::<char>::empty(),
        joined(seq![part], sep) == part,
        parts.len() > 0 ==> joined(parts.push(part), sep) == joined(parts, sep) + sep + part,
{
    assert(parts.push(part).drop_last() =~= parts);
}

/// A number is written in as many digits as asked for at least, and reads back as itself.
pub proof fn law_padded_numbers(n: nat, width: nat)
    ensures
        padded_decimal(n as int, width).len() >= width,
        all_digits(padded_decimal(n as int, width)),
        digits_value(padded_decimal(n as int, width)) == n,
        decimal(n).len() >= width ==> padded_decimal(n as int, width) == decimal(n),
{
    lemma_decimal_denotes(n);
    let d = decimal(n);
    if d.len() < width {
        lemma_zeros_before(d, (width - d.len()) as nat);
    }
}

proof fn lemma_zeros_before(d: Seq<char>, k: nat)
    requires
        all_digits(d),
    ensures
        all_digits(zeros(k) + d),
        digits_value(zeros(k) + d) == digits_value(d),
    decreases d.len(),
{
    let s = zeros(k) + d;
    assert forall|i: int| 0 <= i < s.len() implies is_digit(#[trigger] s[i]) by {
        if i < k {
            assert(s[i] == '0');
        } else {
            assert(s[i] == d[i - k]);
        }
    }
    lemma_zeros_value(d, k);
}

proof fn lemma_zeros_value(d: Seq<char>, k: nat)
    ensures
        digits_value(zeros(k) + d) == digits_value(d),
    decreases d.len(), k,
{
    let s = zeros(k) + d;
    if d.len() == 0 {
        if k > 0 {
            assert(s.drop_last() =~= zeros((k - 1) as nat) + d);
            lemma_zeros_value(d, (k - 1) as nat);
            assert(s.last() == '0');
        } else {
            assert(s =~= d);
        }
    } else {
        assert(s.drop_last() =~= zeros(k) + d.drop_last());
        lemma_zeros_value(d.drop_last(), k);
        assert(s.last() == d.last());
    }
}

/// The beginning of a text is no longer than asked for, and is the text itself where that is short.
pub proof fn law_beginnings(s: Seq<char>, n: nat)
    ensures
        prefix_of(s, n).is_prefix_of(s),
        prefix_of(s, n).len() <= n,
        s.len() <= n ==> prefix_of(s, n) == s,
        s.len() >= n ==> prefix_of(s, n).len() == n,
{
}

/// White space is what separates words; letters, digits and signs are none.
pub proof fn law_spaces(c: char)
    ensures
        is_space(' ') && is_space('\t') && is_space('\n') && is_space('\r') && is_space('\u{3000}')
            && is_space('\u{a0}'),
        '!' <= c <= '~' ==> !is_space(c),
        is_control('\n') && is_control('\t') && is_control('\u{0}') && is_control('\u{7f}'),
        ' ' <= c <= '~' ==> !is_control(c),
{
}

} // verus!
