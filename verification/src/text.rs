//! Small string helpers.

use vstd::prelude::*;

verus! {

/// True iff the two strings hold the same characters.
pub fn str_eq(a: &str, b: &str) -> (r: bool)
    ensures
        r == (a@ == b@),
{
    let n = a.unicode_len();
    let m = b.unicode_len();
    if n != m {
        return false;
    }
    let mut i: usize = 0;
    while i < n
        invariant
            n == a@.len(),
            m == b@.len(),
            n == m,
            i <= n,
            forall|j: int| 0 <= j < i ==> a@[j] == b@[j],
        decreases n - i,
    {
        if a.get_char(i) != b.get_char(i) {
            return false;
        }
        i = i + 1;
    }
    assert(a@ =~= b@);
    true
}

/// The concatenation of two strings.
pub fn concat2(a: &str, b: &str) -> (r: String)
    ensures
        r@ == a@ + b@,
{
    let mut r = String::from_str(a);
    r.append(b);
    r
}

/// The concatenation of four strings.
pub fn concat4(a: &str, b: &str, c: &str, d: &str) -> (r: String)
    ensures
        r@ == a@ + b@ + c@ + d@,
{
    let mut r = String::from_str(a);
    r.append(b);
    r.append(c);
    r.append(d);
    r
}

/// The Unicode `White_Space` property, the set `char::is_whitespace` tests.
pub open spec fn is_white_space(c: char) -> bool {
    let u = c as u32;
    ||| 0x09 <= u <= 0x0D
    ||| u == 0x20
    ||| u == 0x85
    ||| u == 0xA0
    ||| u == 0x1680
    ||| 0x2000 <= u <= 0x200A
    ||| u == 0x2028
    ||| u == 0x2029
    ||| u == 0x202F
    ||| u == 0x205F
    ||| u == 0x3000
}

/// `char::is_whitespace`: true iff `c` has the Unicode `White_Space` property.
pub fn char_is_whitespace(c: char) -> (b: bool)
    ensures
        b == is_white_space(c),
{
    let u = c as u32;
    (0x09 <= u && u <= 0x0D) || u == 0x20 || u == 0x85 || u == 0xA0 || u == 0x1680 || (0x2000 <= u && u
        <= 0x200A) || u == 0x2028 || u == 0x2029 || u == 0x202F || u == 0x205F || u == 0x3000
}

/// The characters a trim removes.
#[derive(Clone, Copy, Debug, PartialEq, Eq, Structural)]
pub enum TrimSet {
    /// Unicode white space (`str::trim`).
    WhiteSpace,
    /// One character (`str::trim_matches(c)`).
    Char(char),
}

/// True iff `c` is removed by trimming with `t`.
pub open spec fn in_set(t: TrimSet, c: char) -> bool {
    match t {
        TrimSet::WhiteSpace => is_white_space(c),
        TrimSet::Char(x) => c == x,
    }
}

fn in_set_exec(t: TrimSet, c: char) -> (b: bool)
    ensures
        b == in_set(t, c),
{
    match t {
        TrimSet::WhiteSpace => char_is_whitespace(c),
        TrimSet::Char(x) => c == x,
    }
}

/// Number of leading characters of `s` in the set.
pub open spec fn lead(s: Seq<char>, t: TrimSet) -> nat
    decreases s.len(),
{
    if s.len() > 0 && in_set(t, s[0]) {
        1 + lead(s.drop_first(), t)
    } else {
        0
    }
}

/// Number of trailing characters of `s` in the set.
pub open spec fn trail(s: Seq<char>, t: TrimSet) -> nat
    decreases s.len(),
{
    if s.len() > 0 && in_set(t, s.last()) {
        1 + trail(s.drop_last(), t)
    } else {
        0
    }
}

/// `s` without its leading and trailing characters in the set.
pub open spec fn trim_set(s: Seq<char>, t: TrimSet) -> Seq<char> {
    let a = lead(s, t);
    if a >= s.len() {
        Seq::empty()
    } else {
        s.subrange(a as int, s.len() - trail(s, t))
    }
}

proof fn lemma_lead(s: Seq<char>, t: TrimSet, a: int)
    requires
        0 <= a <= s.len(),
        forall|j: int| 0 <= j < a ==> in_set(t, #[trigger] s[j]),
        a == s.len() || !in_set(t, s[a]),
    ensures
        lead(s, t) == a,
    decreases a,
{
    if a > 0 {
        let d = s.drop_first();
        assert forall|j: int| 0 <= j < a - 1 implies in_set(t, #[trigger] d[j]) by {
            assert(d[j] == s[j + 1]);
        }
        if a < s.len() {
            assert(d[a - 1] == s[a]);
        }
        lemma_lead(d, t, a - 1);
    }
}

proof fn lemma_trail(s: Seq<char>, t: TrimSet, b: int)
    requires
        0 <= b <= s.len(),
        forall|j: int| b <= j < s.len() ==> in_set(t, #[trigger] s[j]),
        b == 0 || !in_set(t, s[b - 1]),
    ensures
        trail(s, t) == s.len() - b,
    decreases s.len() - b,
{
    if b < s.len() {
        let d = s.drop_last();
        assert(in_set(t, s[s.len() - 1]));
        assert forall|j: int| b <= j < d.len() implies in_set(t, #[trigger] d[j]) by {
            assert(d[j] == s[j]);
        }
        if b > 0 {
            assert(d[b - 1] == s[b - 1]);
        }
        lemma_trail(d, t, b);
    }
}

/// `s` without its leading and trailing characters in the set (`trim` / `trim_matches`).
pub fn trim_by(s: &str, t: TrimSet) -> (r: &str)
    ensures
        r@ == trim_set(s@, t),
{
    let n = s.unicode_len();
    let mut a: usize = 0;
    while a < n && in_set_exec(t, s.get_char(a))
        invariant
            n == s@.len(),
            a <= n,
            forall|j: int| 0 <= j < a ==> in_set(t, #[trigger] s@[j]),
        decreases n - a,
    {
        a = a + 1;
    }
    proof {
        lemma_lead(s@, t, a as int);
    }
    if a == n {
        let r = s.substring_char(0, 0);
        assert(r@ =~= trim_set(s@, t));
        return r;
    }
    let mut b: usize = n;
    while b > a && in_set_exec(t, s.get_char(b - 1))
        invariant
            n == s@.len(),
            a < n,
            !in_set(t, s@[a as int]),
            a <= b <= n,
            forall|j: int| b <= j < n ==> in_set(t, #[trigger] s@[j]),
        decreases b,
    {
        b = b - 1;
    }
    proof {
        lemma_trail(s@, t, b as int);
    }
    s.substring_char(a, b)
}

/// True iff `s` begins with `p`.
pub open spec fn has_prefix(s: Seq<char>, p: Seq<char>) -> bool {
    s.len() >= p.len() && s.take(p.len() as int) == p
}

/// `str::strip_prefix`: the rest of `s` after `p`, if `s` begins with `p`.
pub fn strip_prefix<'a>(s: &'a str, p: &str) -> (r: Option<&'a str>)
    ensures
        has_prefix(s@, p@) ==> (r matches Some(x) && x@ == s@.skip(p@.len() as int)),
        !has_prefix(s@, p@) ==> r is None,
{
    let n = s.unicode_len();
    let m = p.unicode_len();
    if m > n {
        return None;
    }
    let mut i: usize = 0;
    while i < m
        invariant
            n == s@.len(),
            m == p@.len(),
            m <= n,
            i <= m,
            forall|j: int| 0 <= j < i ==> s@[j] == p@[j],
        decreases m - i,
    {
        if s.get_char(i) != p.get_char(i) {
            assert(s@.take(m as int)[i as int] != p@[i as int]);
            return None;
        }
        i = i + 1;
    }
    assert(s@.take(m as int) =~= p@);
    let r = s.substring_char(m, n);
    assert(r@ =~= s@.skip(m as int));
    Some(r)
}

/// True iff `s` begins with the character `c`.
pub fn starts_with_char(s: &str, c: char) -> (b: bool)
    ensures
        b == (s@.len() > 0 && s@[0] == c),
{
    let n = s.unicode_len();
    n > 0 && s.get_char(0) == c
}

} // verus!
