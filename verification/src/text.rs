//! Small operations on strings and characters that the rest of the library
//! builds on.

use vstd::prelude::*;

verus! {

/// Calls `String::push`, which appends one character.
#[verifier::external_body]
pub(crate) fn string_push(s: &mut String, c: char)
    ensures
        final(s)@ == old(s)@.push(c),
{
    s.push(c);
}

/// The characters of `s`, in order.
pub fn chars_of(s: &str) -> (v: Vec<char>)
    ensures
        v@ == s@,
{
    let mut v: Vec<char> = Vec::new();
    for c in it: s.chars()
        invariant
            v@ == it.seq().take(it.index() as int),
            it.seq() == s@,
    {
        v.push(c);
    }
    v
}

} // verus!

verus! {

/// The characters that have the Unicode White_Space property, which is what
/// `char::is_whitespace` and `str::trim` test.
pub open spec fn is_white_space(c: char) -> bool {
    let n = c as u32;
    (0x9 <= n <= 0xD) || n == 0x20 || n == 0x85 || n == 0xA0 || n == 0x1680 || (0x2000 <= n
        <= 0x200A) || n == 0x2028 || n == 0x2029 || n == 0x202F || n == 0x205F || n == 0x3000
}

/// `c` has the Unicode White_Space property.
pub fn is_whitespace(c: char) -> (r: bool)
    ensures
        r == is_white_space(c),
{
    let n = c as u32;
    (0x9 <= n && n <= 0xD) || n == 0x20 || n == 0x85 || n == 0xA0 || n == 0x1680 || (0x2000 <= n
        && n <= 0x200A) || n == 0x2028 || n == 0x2029 || n == 0x202F || n == 0x205F || n
        == 0x3000
}

/// The characters that trimming removes: white space, or else one given
/// character.
pub open spec fn trimmed(c: char, ws: bool, t: char) -> bool {
    if ws {
        is_white_space(c)
    } else {
        c == t
    }
}

/// `c` is one of the characters that trimming removes.
pub fn is_trimmed(c: char, ws: bool, t: char) -> (r: bool)
    ensures
        r == trimmed(c, ws, t),
{
    if ws {
        is_whitespace(c)
    } else {
        c == t
    }
}

/// `k` is where the run of trimmed characters at the start of `s` ends.
pub open spec fn is_trim_start(s: Seq<char>, ws: bool, t: char, k: int) -> bool {
    &&& 0 <= k <= s.len()
    &&& forall|i: int| 0 <= i < k ==> trimmed(#[trigger] s[i], ws, t)
    &&& (k == s.len() || !trimmed(s[k], ws, t))
}

/// `k` is where the run of trimmed characters at the end of `s` starts.
pub open spec fn is_trim_end(s: Seq<char>, ws: bool, t: char, k: int) -> bool {
    &&& 0 <= k <= s.len()
    &&& forall|i: int| k <= i < s.len() ==> trimmed(#[trigger] s[i], ws, t)
    &&& (k == 0 || !trimmed(s[k - 1], ws, t))
}

/// `s` without the trimmed characters at both ends: `str::trim` for white
/// space, `str::trim_matches` for a single character.
pub open spec fn trim_seq(s: Seq<char>, ws: bool, t: char) -> Seq<char> {
    let a = choose|k: int| is_trim_start(s, ws, t, k);
    let rest = s.subrange(a, s.len() as int);
    let b = choose|k: int| is_trim_end(rest, ws, t, k);
    rest.subrange(0, b)
}

/// `s` without white space at either end, as `str::trim` gives it.
pub open spec fn trim(s: Seq<char>) -> Seq<char> {
    trim_seq(s, true, ' ')
}

/// `s` without the character `t` at either end, as `str::trim_matches` gives it.
pub open spec fn trim_matches(s: Seq<char>, t: char) -> Seq<char> {
    trim_seq(s, false, t)
}

proof fn lemma_trim_start_unique(s: Seq<char>, ws: bool, t: char, k1: int, k2: int)
    requires
        is_trim_start(s, ws, t, k1),
        is_trim_start(s, ws, t, k2),
    ensures
        k1 == k2,
{
    if k1 < k2 {
        assert(trimmed(s[k1], ws, t));
    } else if k2 < k1 {
        assert(trimmed(s[k2], ws, t));
    }
}

proof fn lemma_trim_end_unique(s: Seq<char>, ws: bool, t: char, k1: int, k2: int)
    requires
        is_trim_end(s, ws, t, k1),
        is_trim_end(s, ws, t, k2),
    ensures
        k1 == k2,
{
    if k1 < k2 {
        assert(trimmed(s[k2 - 1], ws, t));
    } else if k2 < k1 {
        assert(trimmed(s[k1 - 1], ws, t));
    }
}

/// `s` with the trimmed characters removed from both ends.
pub fn trim_chars(s: &Vec<char>, ws: bool, t: char) -> (r: Vec<char>)
    ensures
        r@ == trim_seq(s@, ws, t),
{
    let n = s.len();
    let mut a: usize = 0;
    while a < n && is_trimmed(s[a], ws, t)
        invariant
            n == s@.len(),
            a <= n,
            forall|i: int| 0 <= i < a ==> trimmed(#[trigger] s@[i], ws, t),
        decreases n - a,
    {
        a = a + 1;
    }
    let mut b: usize = n;
    while b > a && is_trimmed(s[b - 1], ws, t)
        invariant
            n == s@.len(),
            a <= b <= n,
            forall|i: int| b <= i < n ==> trimmed(#[trigger] s@[i], ws, t),
        decreases b - a,
    {
        b = b - 1;
    }
    let mut r: Vec<char> = Vec::new();
    let mut i = a;
    while i < b
        invariant
            a <= i <= b <= n,
            n == s@.len(),
            r@ == s@.subrange(a as int, i as int),
        decreases b - i,
    {
        r.push(s[i]);
        i = i + 1;
        assert(r@ =~= s@.subrange(a as int, i as int));
    }
    proof {
        assert(is_trim_start(s@, ws, t, a as int));
        let ka = choose|k: int| is_trim_start(s@, ws, t, k);
        lemma_trim_start_unique(s@, ws, t, ka, a as int);
        let rest = s@.subrange(a as int, n as int);
        assert(is_trim_end(rest, ws, t, (b - a) as int));
        let kb = choose|k: int| is_trim_end(rest, ws, t, k);
        lemma_trim_end_unique(rest, ws, t, kb, (b - a) as int);
        assert(r@ =~= rest.subrange(0, (b - a) as int));
    }
    r
}

/// `s` without white space at its end, as `str::trim_end` gives it.
pub open spec fn trim_end(s: Seq<char>) -> Seq<char> {
    s.subrange(0, choose|k: int| is_trim_end(s, true, ' ', k))
}

/// `s` without white space at its end.
pub fn trim_end_chars(s: &Vec<char>) -> (r: Vec<char>)
    ensures
        r@ == trim_end(s@),
{
    let n = s.len();
    let mut b: usize = n;
    while b > 0 && is_whitespace(s[b - 1])
        invariant
            n == s@.len(),
            b <= n,
            forall|i: int| b <= i < n ==> trimmed(#[trigger] s@[i], true, ' '),
        decreases b,
    {
        b = b - 1;
    }
    let mut r: Vec<char> = Vec::new();
    let mut i: usize = 0;
    while i < b
        invariant
            i <= b <= n,
            n == s@.len(),
            r@ == s@.subrange(0, i as int),
        decreases b - i,
    {
        r.push(s[i]);
        i = i + 1;
        assert(r@ =~= s@.subrange(0, i as int));
    }
    proof {
        assert(is_trim_end(s@, true, ' ', b as int));
        let kb = choose|k: int| is_trim_end(s@, true, ' ', k);
        lemma_trim_end_unique(s@, true, ' ', kb, b as int);
    }
    r
}

/// `p` is a prefix of `s`.
pub open spec fn is_prefix(p: Seq<char>, s: Seq<char>) -> bool {
    p.len() <= s.len() && s.subrange(0, p.len() as int) == p
}

/// `p` is a prefix of `s`.
pub fn starts_with(s: &Vec<char>, p: &Vec<char>) -> (r: bool)
    ensures
        r == is_prefix(p@, s@),
{
    if p.len() > s.len() {
        return false;
    }
    let mut i: usize = 0;
    while i < p.len()
        invariant
            p@.len() <= s@.len(),
            i <= p@.len(),
            forall|k: int| 0 <= k < i ==> s@[k] == p@[k],
        decreases p@.len() - i,
    {
        if s[i] != p[i] {
            assert(s@.subrange(0, p@.len() as int)[i as int] != p@[i as int]);
            return false;
        }
        i = i + 1;
    }
    assert(s@.subrange(0, p@.len() as int) =~= p@);
    true
}

/// `a` and `b` hold the same characters.
pub fn chars_eq(a: &Vec<char>, b: &Vec<char>) -> (r: bool)
    ensures
        r == (a@ == b@),
{
    if a.len() != b.len() {
        return false;
    }
    let r = starts_with(a, b);
    assert(a@.subrange(0, b@.len() as int) =~= a@);
    r
}

/// The number of bytes of the UTF-8 encoding of `c`, as `char::len_utf8`
/// documents it.
pub open spec fn char_utf8_len(c: char) -> nat {
    let n = c as u32;
    if n < 0x80 {
        1
    } else if n < 0x800 {
        2
    } else if n < 0x10000 {
        3
    } else {
        4
    }
}

/// The number of bytes of the UTF-8 encoding of `s`, which `str::len` gives.
pub open spec fn utf8_len(s: Seq<char>) -> nat
    decreases s.len(),
{
    if s.len() == 0 {
        0
    } else {
        utf8_len(s.drop_last()) + char_utf8_len(s.last())
    }
}

/// The number of bytes of the UTF-8 encoding of `s`.
pub fn utf8_length(s: &Vec<char>) -> (r: u128)
    ensures
        r == utf8_len(s@),
{
    let mut total: u128 = 0;
    let mut i: usize = 0;
    while i < s.len()
        invariant
            i <= s@.len(),
            total == utf8_len(s@.take(i as int)),
            total <= 4 * i,
        decreases s@.len() - i,
    {
        let n = s[i] as u32;
        let w: u128 = if n < 0x80 {
            1
        } else if n < 0x800 {
            2
        } else if n < 0x10000 {
            3
        } else {
            4
        };
        total = total + w;
        i = i + 1;
        assert(s@.take(i as int).drop_last() =~= s@.take(i - 1));
    }
    assert(s@.take(s@.len() as int) =~= s@);
    total
}

/// The characters of `v` as a string.
pub fn string_of(v: &Vec<char>) -> (s: String)
    ensures
        s@ == v@,
{
    let mut s = String::new();
    let mut i: usize = 0;
    while i < v.len()
        invariant
            i <= v@.len(),
            s@ == v@.take(i as int),
        decreases v@.len() - i,
    {
        string_push(&mut s, v[i]);
        i = i + 1;
        assert(s@ =~= v@.take(i as int));
    }
    assert(v@.take(v@.len() as int) =~= v@);
    s
}

/// What `str::to_lowercase` makes of a string: the lowercase mapping of
/// Unicode, which depends on the string alone.
pub uninterp spec fn str_lowercase(s: Seq<char>) -> Seq<char>;

/// Calls `str::to_lowercase`, whose result is a function of the string alone;
/// what that function is, nothing here states.
#[verifier::external_body]
pub(crate) fn to_lowercase(s: &str) -> (r: String)
    ensures
        r@ == str_lowercase(s@),
{
    s.to_lowercase()
}

/// The characters of the lowercase form of `v`.
pub fn lowercase_chars(v: &Vec<char>) -> (r: Vec<char>)
    ensures
        r@ == str_lowercase(v@),
{
    let s = string_of(v);
    let l = to_lowercase(s.as_str());
    chars_of(l.as_str())
}

} // verus!
