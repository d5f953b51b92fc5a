//! Keyboard layouts: which key, or sequence of keys, stands for which key
//! value. A layout is read from a small YAML-like text of `key: value` lines.

use vstd::prelude::*;

use crate::engine::compose::{spec_parse_key_value, KeyValue};
use crate::input_context::LayoutError;
use crate::text::{
    chars_eq, chars_of, is_prefix, lowercase_chars, starts_with, str_lowercase, trim, trim_chars,
    trim_matches, utf8_len,
};

verus! {

broadcast use vstd::utf8::char_u32_cast;

/// `a` comes before `b` in the order of code points, which is the order of
/// their UTF-8 bytes and so the order of `str`.
pub open spec fn key_lt(a: Seq<char>, b: Seq<char>) -> bool
    decreases a.len(),
{
    if a.len() == 0 {
        b.len() > 0
    } else if b.len() == 0 {
        false
    } else if (a[0] as u32) < (b[0] as u32) {
        true
    } else if a[0] == b[0] {
        key_lt(a.drop_first(), b.drop_first())
    } else {
        false
    }
}

/// No key comes before itself.
pub proof fn lemma_key_lt_irreflexive(a: Seq<char>)
    ensures
        !key_lt(a, a),
    decreases a.len(),
{
    if a.len() > 0 {
        lemma_key_lt_irreflexive(a.drop_first());
    }
}

/// Of two different keys, one comes before the other, and not both ways.
pub proof fn lemma_key_lt_total(a: Seq<char>, b: Seq<char>)
    ensures
        a != b ==> key_lt(a, b) || key_lt(b, a),
        !(key_lt(a, b) && key_lt(b, a)),
    decreases a.len(),
{
    if a.len() > 0 && b.len() > 0 {
        lemma_key_lt_total(a.drop_first(), b.drop_first());
        if a[0] == b[0] && a != b {
            assert(a =~= seq![a[0]] + a.drop_first());
            assert(b =~= seq![b[0]] + b.drop_first());
        }
        if (a[0] as u32) == (b[0] as u32) {
            vstd::utf8::char_u32_cast(a[0], a[0] as u32);
            vstd::utf8::char_u32_cast(b[0], b[0] as u32);
        }
    } else if a.len() == 0 && b.len() == 0 {
        assert(a =~= b);
    }
}

/// The order of keys is transitive.
pub proof fn lemma_key_lt_transitive(a: Seq<char>, b: Seq<char>, c: Seq<char>)
    requires
        key_lt(a, b),
        key_lt(b, c),
    ensures
        key_lt(a, c),
    decreases a.len(),
{
    if a.len() > 0 && b.len() > 0 && c.len() > 0 {
        if a[0] == b[0] && b[0] == c[0] {
            lemma_key_lt_transitive(a.drop_first(), b.drop_first(), c.drop_first());
        }
    }
}

/// `a` comes before `b` in the order of code points.
pub fn chars_lt(a: &Vec<char>, b: &Vec<char>) -> (r: bool)
    ensures
        r == key_lt(a@, b@),
{
    let mut i: usize = 0;
    assert(a@.skip(0) =~= a@);
    assert(b@.skip(0) =~= b@);
    while i < a.len() && i < b.len()
        invariant
            i <= a@.len(),
            i <= b@.len(),
            key_lt(a@, b@) == key_lt(a@.skip(i as int), b@.skip(i as int)),
        decreases a@.len() - i,
    {
        if a[i] != b[i] {
            return (a[i] as u32) < (b[i] as u32);
        }
        assert(a@.skip(i as int).drop_first() =~= a@.skip(i + 1));
        assert(b@.skip(i as int).drop_first() =~= b@.skip(i + 1));
        i = i + 1;
    }
    i < b.len()
}

/// The keys of `e` are in strictly increasing order.
pub open spec fn is_sorted(e: Seq<(Seq<char>, KeyValue)>) -> bool {
    forall|i: int, j: int| 0 <= i < j < e.len() ==> key_lt(#[trigger] e[i].0, #[trigger] e[j].0)
}

/// The number of entries of `e` whose keys come before `k`, counted from the
/// start while they do.
pub open spec fn lower_bound(e: Seq<(Seq<char>, KeyValue)>, k: Seq<char>) -> nat
    decreases e.len(),
{
    if e.len() > 0 && key_lt(e[0].0, k) {
        1 + lower_bound(e.drop_first(), k)
    } else {
        0
    }
}

/// `e` with the value of `k` set to `v`, as `BTreeMap::insert` does: the entry
/// of `k` is replaced where there is one, else a new entry goes in its place in
/// the order.
pub open spec fn entries_insert(e: Seq<(Seq<char>, KeyValue)>, k: Seq<char>, v: KeyValue) -> Seq<
    (Seq<char>, KeyValue),
> {
    let p = lower_bound(e, k) as int;
    if p < e.len() && e[p].0 == k {
        e.update(p, (k, v))
    } else {
        e.insert(p, (k, v))
    }
}

/// The value of the key `k` in `e`.
pub open spec fn lookup_exact(e: Seq<(Seq<char>, KeyValue)>, k: Seq<char>) -> Option<KeyValue> {
    if exists|i: int| 0 <= i < e.len() && #[trigger] e[i].0 == k {
        Some(e[choose|i: int| 0 <= i < e.len() && #[trigger] e[i].0 == k].1)
    } else {
        None
    }
}

/// `i` is the first entry of `e` whose key lowercases to `lower`.
pub open spec fn is_first_lower_match(e: Seq<(Seq<char>, KeyValue)>, lower: Seq<char>, i: int) -> bool {
    &&& 0 <= i < e.len()
    &&& str_lowercase(e[i].0) == lower
    &&& forall|j: int| 0 <= j < i ==> str_lowercase(#[trigger] e[j].0) != lower
}

/// The value of the first key of `e`, in order, whose lowercase form is `lower`.
pub open spec fn lookup_lower(e: Seq<(Seq<char>, KeyValue)>, lower: Seq<char>) -> Option<KeyValue> {
    if exists|i: int| is_first_lower_match(e, lower, i) {
        Some(e[choose|i: int| is_first_lower_match(e, lower, i)].1)
    } else {
        None
    }
}

/// What `lookup` finds for `input`: the value of that very key, or else, where
/// case does not matter, that of the first key that lowercases as `input` does.
pub open spec fn spec_lookup(e: Seq<(Seq<char>, KeyValue)>, input: Seq<char>, case_insensitive: bool) -> Option<
    KeyValue,
> {
    match lookup_exact(e, input) {
        Some(v) => Some(v),
        None => if case_insensitive {
            lookup_lower(e, str_lowercase(input))
        } else {
            None
        },
    }
}

/// Some key from `input` on is longer than `input` and starts with it; or,
/// where case does not matter, some key has more UTF-8 bytes than the lowercase
/// form of `input` and its own lowercase form starts with that.
pub open spec fn spec_is_prefix(e: Seq<(Seq<char>, KeyValue)>, input: Seq<char>, case_insensitive: bool) -> bool {
    (exists|i: int|
        0 <= i < e.len() && !key_lt(#[trigger] e[i].0, input) && utf8_len(e[i].0) > utf8_len(input)
            && is_prefix(input, e[i].0)) || (case_insensitive && exists|i: int|
        0 <= i < e.len() && utf8_len(#[trigger] e[i].0) > utf8_len(str_lowercase(input)) && is_prefix(
            str_lowercase(input),
            str_lowercase(e[i].0),
        ))
}


/// The character that a digit key gives with shift held.
pub open spec fn shifted_digit(c: char) -> char {
    if c == '1' {
        '!'
    } else if c == '2' {
        '@'
    } else if c == '3' {
        '#'
    } else if c == '4' {
        '$'
    } else if c == '5' {
        '%'
    } else if c == '6' {
        '^'
    } else if c == '7' {
        '&'
    } else if c == '8' {
        '*'
    } else if c == '9' {
        '('
    } else {
        ')'
    }
}

/// The character that the named key `k` gives, with or without shift.
pub open spec fn named_key(k: Seq<char>, shift: bool) -> Option<char> {
    if k == "Minus"@ {
        Some(if shift { '_' } else { '-' })
    } else if k == "Equal"@ {
        Some(if shift { '+' } else { '=' })
    } else if k == "Backslash"@ {
        Some(if shift { '|' } else { '\\' })
    } else if k == "OpenBracket"@ {
        Some(if shift { '{' } else { '[' })
    } else if k == "CloseBracket"@ {
        Some(if shift { '}' } else { ']' })
    } else if k == "SemiColon"@ {
        Some(if shift { ':' } else { ';' })
    } else if k == "Quote"@ {
        Some(if shift { '"' } else { '\'' })
    } else if k == "Comma"@ {
        Some(if shift { '<' } else { ',' })
    } else if k == "Period"@ {
        Some(if shift { '>' } else { '.' })
    } else if k == "Slash"@ {
        Some(if shift { '?' } else { '/' })
    } else if k == "Grave"@ {
        Some(if shift { '~' } else { '`' })
    } else {
        None
    }
}

/// The uppercase of an ASCII character, which is what `char::to_uppercase`
/// gives for it.
pub open spec fn ascii_upper(c: char) -> char {
    if 0x61 <= c as u32 <= 0x7A {
        ((c as u32 - 0x20) as u32) as char
    } else {
        c
    }
}

/// The lowercase of an ASCII character, which is what `char::to_lowercase`
/// gives for it.
pub open spec fn ascii_lower(c: char) -> char {
    if 0x41 <= c as u32 <= 0x5A {
        ((c as u32 + 0x20) as u32) as char
    } else {
        c
    }
}

/// The key that the key text `k` of a layout line names: digits with shift
/// give their symbols, named keys their characters, a single ASCII character
/// its uppercase with shift and its lowercase without, and anything else
/// itself.
pub open spec fn key_name(k: Seq<char>, shift: bool) -> Seq<char> {
    if shift && k.len() == 1 && 0x30 <= k[0] as u32 <= 0x39 {
        seq![shifted_digit(k[0])]
    } else if named_key(k, shift) is Some {
        seq![named_key(k, shift)->0]
    } else if k.len() == 1 && (k[0] as u32) < 0x80 {
        seq![
            if shift {
                ascii_upper(k[0])
            } else {
                ascii_lower(k[0])
            },
        ]
    } else {
        k
    }
}

/// `c` is an ASCII punctuation character: printable, and neither a letter, a digit
/// nor a space.
pub open spec fn is_ascii_punctuation(c: char) -> bool {
    (0x21 <= c as u32 <= 0x2F) || (0x3A <= c as u32 <= 0x40) || (0x5B <= c as u32 <= 0x60) || (
    0x7B <= c as u32 <= 0x7E)
}

/// What shift turns a punctuation key's own character into on the US layout.
pub open spec fn us_shifted_punctuation(c: char) -> char {
    match c {
        '-' => '_',
        '=' => '+',
        '\\' => '|',
        '[' => '{',
        ']' => '}',
        ';' => ':',
        '\'' => '"',
        ',' => '<',
        '.' => '>',
        '/' => '?',
        '`' => '~',
        _ => c,
    }
}

/// `c` is what some digit key gives with shift held.
pub open spec fn is_shifted_digit(c: char) -> bool {
    exists|d: char| '0' <= d <= '9' && #[trigger] shifted_digit(d) == c
}

/// No two named keys, with or without shift, give the same character: the lines of a
/// layout that name different keys, or one key with and without shift, never bind
/// the same key.
pub proof fn lemma_named_keys_distinct(k1: Seq<char>, s1: bool, k2: Seq<char>, s2: bool)
    ensures
        named_key(k1, s1) is Some && named_key(k1, s1) == named_key(k2, s2) ==> k1 == k2 && s1
            == s2,
{
}

/// A named key gives a punctuation character of the US layout that no digit key
/// gives: without shift the key's own character, with shift what shift makes of it
/// there; and a named key binds the same key as its character written out.
pub proof fn lemma_named_key_is_us_punctuation(k: Seq<char>, s: bool)
    ensures
        named_key(k, s) matches Some(x) ==> {
            &&& is_ascii_punctuation(x)
            &&& !is_shifted_digit(x)
            &&& named_key(k, false) matches Some(y) && us_shifted_punctuation(y) != y
                && named_key(k, true) == Some(us_shifted_punctuation(y))
            &&& key_name(k, s) == key_name(seq![x], s)
        },
{
    reveal_strlit("Minus");
    reveal_strlit("Equal");
    reveal_strlit("Backslash");
    reveal_strlit("OpenBracket");
    reveal_strlit("CloseBracket");
    reveal_strlit("SemiColon");
    reveal_strlit("Quote");
    reveal_strlit("Comma");
    reveal_strlit("Period");
    reveal_strlit("Slash");
    reveal_strlit("Grave");
    if let Some(x) = named_key(k, s) {
        assert forall|d: char| '0' <= d <= '9' implies #[trigger] shifted_digit(d) != x by {}
    }
}

/// Every ASCII punctuation character that no digit key gives with shift has a
/// named key: the named keys cover the rest of the US layout's punctuation.
pub proof fn lemma_every_punctuation_is_named(x: char)
    requires
        is_ascii_punctuation(x),
        !is_shifted_digit(x),
    ensures
        exists|k: Seq<char>, s: bool| named_key(k, s) == Some(x),
{
    reveal_strlit("Minus");
    reveal_strlit("Equal");
    reveal_strlit("Backslash");
    reveal_strlit("OpenBracket");
    reveal_strlit("CloseBracket");
    reveal_strlit("SemiColon");
    reveal_strlit("Quote");
    reveal_strlit("Comma");
    reveal_strlit("Period");
    reveal_strlit("Slash");
    reveal_strlit("Grave");
    assert("Minus"@[0] == 'M' && "Equal"@[0] == 'E' && "Backslash"@[0] == 'B'
        && "OpenBracket"@[0] == 'O' && "CloseBracket"@[0] == 'C' && "SemiColon"@[0] == 'S'
        && "Quote"@[0] == 'Q' && "Comma"@[0] == 'C' && "Period"@[0] == 'P' && "Slash"@[0] == 'S'
        && "Grave"@[0] == 'G');
    assert("Comma"@.len() == 5 && "CloseBracket"@.len() == 12 && "Slash"@.len() == 5
        && "SemiColon"@.len() == 9);
    assert(shifted_digit('1') == '!' && shifted_digit('2') == '@' && shifted_digit('3') == '#'
        && shifted_digit('4') == '$' && shifted_digit('5') == '%' && shifted_digit('6') == '^'
        && shifted_digit('7') == '&' && shifted_digit('8') == '*' && shifted_digit('9') == '('
        && shifted_digit('0') == ')');
    if x == '-' {
        assert(named_key("Minus"@, false) == Some(x));
    } else if x == '_' {
        assert(named_key("Minus"@, true) == Some(x));
    }
    if x == '=' {
        assert(named_key("Equal"@, false) == Some(x));
    } else if x == '+' {
        assert(named_key("Equal"@, true) == Some(x));
    }
    if x == '\\' {
        assert(named_key("Backslash"@, false) == Some(x));
    } else if x == '|' {
        assert(named_key("Backslash"@, true) == Some(x));
    }
    if x == '[' {
        assert(named_key("OpenBracket"@, false) == Some(x));
    } else if x == '{' {
        assert(named_key("OpenBracket"@, true) == Some(x));
    }
    if x == ']' {
        assert(named_key("CloseBracket"@, false) == Some(x));
    } else if x == '}' {
        assert(named_key("CloseBracket"@, true) == Some(x));
    }
    if x == ';' {
        assert(named_key("SemiColon"@, false) == Some(x));
    } else if x == ':' {
        assert(named_key("SemiColon"@, true) == Some(x));
    }
    if x == '\'' {
        assert(named_key("Quote"@, false) == Some(x));
    } else if x == '"' {
        assert(named_key("Quote"@, true) == Some(x));
    }
    if x == ',' {
        assert(named_key("Comma"@, false) == Some(x));
    } else if x == '<' {
        assert(named_key("Comma"@, true) == Some(x));
    }
    if x == '.' {
        assert(named_key("Period"@, false) == Some(x));
    } else if x == '>' {
        assert(named_key("Period"@, true) == Some(x));
    }
    if x == '/' {
        assert(named_key("Slash"@, false) == Some(x));
    } else if x == '?' {
        assert(named_key("Slash"@, true) == Some(x));
    }
    if x == '`' {
        assert(named_key("Grave"@, false) == Some(x));
    } else if x == '~' {
        assert(named_key("Grave"@, true) == Some(x));
    }
}

/// `p` is the position of the first colon of `l`.
pub open spec fn colon_at(l: Seq<char>, p: int) -> bool {
    &&& 0 <= p < l.len()
    &&& l[p] == ':'
    &&& forall|q: int| 0 <= q < p ==> l[q] != ':'
}

/// `s` trimmed of white space, then of single quotes, then of double quotes.
pub open spec fn strip_quotes(s: Seq<char>) -> Seq<char> {
    trim_matches(trim_matches(trim(s), '\''), '"')
}

/// The entry that a line of a layout gives: `key: value`, where a key that
/// starts with `S-` is typed with shift, and lines that are blank, start with
/// `#`, have no colon or no valid value give none.
pub open spec fn layout_entry(line: Seq<char>) -> Option<(Seq<char>, KeyValue)> {
    let l = trim(line);
    if l.len() == 0 || l[0] == '#' {
        None
    } else if exists|p: int| colon_at(l, p) {
        let p = choose|p: int| colon_at(l, p);
        let key_part = strip_quotes(l.subrange(0, p));
        let value_part = strip_quotes(l.subrange(p + 1, l.len() as int));
        let shift = key_part.len() >= 2 && key_part[0] == 'S' && key_part[1] == '-';
        let key_str = if shift {
            key_part.skip(2)
        } else {
            key_part
        };
        match spec_parse_key_value(value_part) {
            Ok(kv) => Some((key_name(key_str, shift), kv)),
            Err(_) => None,
        }
    } else {
        None
    }
}

/// The lines of `s`, split at each line feed. A carriage return before a line
/// feed stays in its line, where trimming removes it.
pub open spec fn split_lines(s: Seq<char>) -> Seq<Seq<char>>
    decreases s.len(),
{
    if s.len() == 0 {
        seq![Seq::empty()]
    } else {
        let prev = split_lines(s.drop_last());
        if s.last() == '\n' {
            prev.push(Seq::empty())
        } else {
            prev.update(prev.len() - 1, prev.last().push(s.last()))
        }
    }
}

/// There is always a line, possibly empty.
pub proof fn lemma_split_lines_len(s: Seq<char>)
    ensures
        split_lines(s).len() >= 1,
    decreases s.len(),
{
    if s.len() > 0 {
        lemma_split_lines_len(s.drop_last());
    }
}

/// The lines of `s`, as `split_lines` cuts them.
pub fn lines_of(s: &Vec<char>) -> (r: Vec<Vec<char>>)
    ensures
        r@.map_values(|l: Vec<char>| l@) == split_lines(s@),
{
    let mut r: Vec<Vec<char>> = Vec::new();
    let mut line: Vec<char> = Vec::new();
    let n = s.len();
    assert(s@.take(0) =~= Seq::<char>::empty());
    assert(r@.map_values(|l: Vec<char>| l@) =~= split_lines(s@.take(0)).drop_last());
    let mut i: usize = 0;
    while i < n
        invariant
            n == s@.len(),
            i <= n,
            split_lines(s@.take(i as int)).len() >= 1,
            r@.map_values(|l: Vec<char>| l@) == split_lines(s@.take(i as int)).drop_last(),
            line@ == split_lines(s@.take(i as int)).last(),
        decreases n - i,
    {
        let c = s[i];
        let ghost before = split_lines(s@.take(i as int));
        proof {
            let t = s@.take(i + 1);
            assert(t.drop_last() =~= s@.take(i as int));
            lemma_split_lines_len(t);
        }
        let ghost prev = r@.map_values(|l: Vec<char>| l@);
        if c == '\n' {
            let mut done: Vec<char> = Vec::new();
            std::mem::swap(&mut done, &mut line);
            r.push(done);
            proof {
                let after = split_lines(s@.take(i + 1));
                assert(r@.map_values(|l: Vec<char>| l@) =~= prev.push(before.last()));
                assert(after.drop_last() =~= before);
                assert(before =~= before.drop_last().push(before.last()));
            }
        } else {
            line.push(c);
            proof {
                let after = split_lines(s@.take(i + 1));
                assert(after.drop_last() =~= before.drop_last());
            }
        }
        i = i + 1;
    }
    assert(s@.take(n as int) =~= s@);
    let ghost all = split_lines(s@);
    let ghost prev = r@.map_values(|l: Vec<char>| l@);
    r.push(line);
    assert(r@.map_values(|l: Vec<char>| l@) =~= prev.push(all.last()));
    assert(all =~= all.drop_last().push(all.last()));
    r
}

/// `e` with the entry of `line`, if it gives one.
pub open spec fn add_line(e: Seq<(Seq<char>, KeyValue)>, line: Seq<char>) -> Seq<(Seq<char>, KeyValue)> {
    match layout_entry(line) {
        Some((k, v)) => entries_insert(e, k, v),
        None => e,
    }
}

/// The entries that the lines give, each later line overriding an earlier one
/// for the same key.
pub open spec fn layout_of_lines(lines: Seq<Seq<char>>) -> Seq<(Seq<char>, KeyValue)>
    decreases lines.len(),
{
    if lines.len() == 0 {
        Seq::empty()
    } else {
        add_line(layout_of_lines(lines.drop_last()), lines.last())
    }
}

/// The entries of the layout that the text `s` describes.
pub open spec fn spec_from_yaml(s: Seq<char>) -> Seq<(Seq<char>, KeyValue)> {
    layout_of_lines(split_lines(s))
}

/// A keyboard layout: keys, in the order of their code points, with the key
/// values they stand for.
pub struct KeyboardLayout {
    map: Vec<(Vec<char>, KeyValue)>,
}

/// The entries of a vector of entries, keys taken by their characters.
pub open spec fn entries_of(v: Seq<(Vec<char>, KeyValue)>) -> Seq<(Seq<char>, KeyValue)> {
    v.map_values(|p: (Vec<char>, KeyValue)| (p.0@, p.1))
}

impl View for KeyboardLayout {
    type V = Seq<(Seq<char>, KeyValue)>;

    closed spec fn view(&self) -> Seq<(Seq<char>, KeyValue)> {
        entries_of(self.map@)
    }
}

impl KeyboardLayout {
    #[verifier::type_invariant]
    spec fn sorted(self) -> bool {
        is_sorted(entries_of(self.map@))
    }
}


/// Distinct positions of sorted entries hold distinct keys.
pub proof fn lemma_sorted_unique(e: Seq<(Seq<char>, KeyValue)>, i: int, j: int)
    requires
        is_sorted(e),
        0 <= i < e.len(),
        0 <= j < e.len(),
        e[i].0 == e[j].0,
    ensures
        i == j,
{
    if i < j {
        lemma_key_lt_irreflexive(e[i].0);
    } else if j < i {
        lemma_key_lt_irreflexive(e[i].0);
    }
}

/// The entries before the lower bound of `k` come before `k`, and none from it
/// on does.
pub proof fn lemma_lower_bound(e: Seq<(Seq<char>, KeyValue)>, k: Seq<char>)
    requires
        is_sorted(e),
    ensures
        lower_bound(e, k) <= e.len(),
        forall|j: int| 0 <= j < lower_bound(e, k) ==> key_lt(#[trigger] e[j].0, k),
        forall|j: int| lower_bound(e, k) <= j < e.len() ==> !key_lt(#[trigger] e[j].0, k),
    decreases e.len(),
{
    if e.len() > 0 {
        let t = e.drop_first();
        assert(is_sorted(t)) by {
            assert forall|i: int, j: int| 0 <= i < j < t.len() implies key_lt(#[trigger] t[i].0, #[trigger] t[j].0) by {
                assert(t[i] == e[i + 1] && t[j] == e[j + 1]);
            }
        }
        lemma_lower_bound(t, k);
        if key_lt(e[0].0, k) {
            assert forall|j: int| 0 <= j < lower_bound(e, k) implies key_lt(#[trigger] e[j].0, k) by {
                if j > 0 {
                    assert(e[j] == t[j - 1]);
                }
            }
            assert forall|j: int| lower_bound(e, k) <= j < e.len() implies !key_lt(#[trigger] e[j].0, k) by {
                assert(e[j] == t[j - 1]);
            }
        } else {
            assert forall|j: int| 0 <= j < e.len() implies !key_lt(#[trigger] e[j].0, k) by {
                if j > 0 && key_lt(e[j].0, k) {
                    lemma_key_lt_transitive(e[0].0, e[j].0, k);
                    lemma_key_lt_total(e[0].0, k);
                }
            }
        }
    }
}

/// Setting the value of a key keeps the entries in order; afterwards the key
/// reads back the value set, and every other key what it read before.
pub proof fn lemma_entries_insert(e: Seq<(Seq<char>, KeyValue)>, k: Seq<char>, v: KeyValue, k2: Seq<char>)
    requires
        is_sorted(e),
    ensures
        is_sorted(entries_insert(e, k, v)),
        lookup_exact(entries_insert(e, k, v), k2) == (if k2 == k {
            Some(v)
        } else {
            lookup_exact(e, k2)
        }),
{
    lemma_lower_bound(e, k);
    let p = lower_bound(e, k) as int;
    let e2 = entries_insert(e, k, v);
    if p < e.len() && e[p].0 == k {
        assert(e2 == e.update(p, (k, v)));
        assert(is_sorted(e2)) by {
            assert forall|i: int, j: int| 0 <= i < j < e2.len() implies key_lt(#[trigger] e2[i].0, #[trigger] e2[j].0) by {
                assert(e2[i].0 == e[i].0 && e2[j].0 == e[j].0);
            }
        }
    } else {
        assert(e2 == e.insert(p, (k, v)));
        assert(is_sorted(e2)) by {
            assert forall|i: int, j: int| 0 <= i < j < e2.len() implies key_lt(#[trigger] e2[i].0, #[trigger] e2[j].0) by {
                if j < p {
                } else if j == p {
                } else if i < p {
                    assert(key_lt(e[i].0, e[j - 1].0));
                } else if i == p {
                    lemma_key_lt_total(e[p].0, k);
                    if j - 1 > p {
                        assert(key_lt(e[p].0, e[j - 1].0));
                        lemma_key_lt_transitive(k, e[p].0, e[j - 1].0);
                    }
                } else {
                    assert(key_lt(e[i - 1].0, e[j - 1].0));
                }
            }
        }
    }
    // The key `k` is at `p` and nowhere else; any other key sits where it sat,
    // shifted past `p` where the entry was inserted.
    assert(0 <= p < e2.len());
    assert(e2[p] == (k, v));
    if k2 == k {
        lemma_lookup_exact_at(e2, k2, p);
    } else {
        if exists|i: int| 0 <= i < e.len() && #[trigger] e[i].0 == k2 {
            let i = choose|i: int| 0 <= i < e.len() && #[trigger] e[i].0 == k2;
            let i2 = if p < e.len() && e[p].0 == k || i < p {
                i
            } else {
                i + 1
            };
            assert(e2[i2] == e[i]);
            lemma_lookup_exact_at(e2, k2, i2);
            lemma_lookup_exact_at(e, k2, i);
        } else {
            assert forall|c: int| 0 <= c < e2.len() implies #[trigger] e2[c].0 != k2 by {
                if p < e.len() && e[p].0 == k {
                    if c != p {
                        assert(e2[c] == e[c]);
                    }
                } else if c < p {
                    assert(e2[c] == e[c]);
                } else if c > p {
                    assert(e2[c] == e[c - 1]);
                }
            }
        }
    }
}

/// In sorted entries, the key of an entry reads back that entry's value.
pub proof fn lemma_lookup_exact_at(e: Seq<(Seq<char>, KeyValue)>, k: Seq<char>, i: int)
    requires
        is_sorted(e),
        0 <= i < e.len(),
        e[i].0 == k,
    ensures
        lookup_exact(e, k) == Some(e[i].1),
{
    assert(exists|c: int| 0 <= c < e.len() && #[trigger] e[c].0 == k);
    assert(exists|j: int| 0 <= j < e.len() && #[trigger] e[j].0 == k && lookup_exact(e, k) == Some(e[j].1));
    let j = choose|j: int| 0 <= j < e.len() && #[trigger] e[j].0 == k && lookup_exact(e, k) == Some(e[j].1);
    lemma_sorted_unique(e, j, i);
}

/// The entries that lines give are in order.
pub proof fn lemma_layout_of_lines_sorted(lines: Seq<Seq<char>>)
    ensures
        is_sorted(layout_of_lines(lines)),
    decreases lines.len(),
{
    if lines.len() > 0 {
        lemma_layout_of_lines_sorted(lines.drop_last());
        match layout_entry(lines.last()) {
            Some((k, v)) => lemma_entries_insert(layout_of_lines(lines.drop_last()), k, v, k),
            None => {},
        }
    }
}

/// A line of a layout that gives an entry overrides the lines before it: its
/// key reads back its value, and every other key what it read before.
pub proof fn lemma_later_line_wins(lines: Seq<Seq<char>>, line: Seq<char>, k2: Seq<char>)
    requires
        layout_entry(line) is Some,
    ensures
        lookup_exact(layout_of_lines(lines.push(line)), k2) == (if k2 == (layout_entry(line)->0).0 {
            Some((layout_entry(line)->0).1)
        } else {
            lookup_exact(layout_of_lines(lines), k2)
        }),
{
    let l2 = lines.push(line);
    assert(l2.drop_last() =~= lines);
    assert(l2.last() == line);
    lemma_layout_of_lines_sorted(lines);
    let (k, v) = layout_entry(line)->0;
    lemma_entries_insert(layout_of_lines(lines), k, v, k2);
}

/// Sets the value of the key `k` to `v` in the sorted entries `map`.
fn insert_entry(map: &mut Vec<(Vec<char>, KeyValue)>, k: Vec<char>, v: KeyValue)
    requires
        is_sorted(entries_of(old(map)@)),
    ensures
        entries_of(final(map)@) == entries_insert(entries_of(old(map)@), k@, v),
        is_sorted(entries_of(final(map)@)),
{
    let ghost e = entries_of(map@);
    let n = map.len();
    let mut p: usize = 0;
    assert(e.skip(0) =~= e);
    while p < n && chars_lt(&map[p].0, &k)
        invariant
            n == map@.len() == e.len(),
            e == entries_of(map@),
            p <= n,
            forall|j: int| 0 <= j < p ==> key_lt(#[trigger] e[j].0, k@),
            lower_bound(e, k@) == p + lower_bound(e.skip(p as int), k@),
        decreases n - p,
    {
        assert(e.skip(p as int).drop_first() =~= e.skip(p + 1));
        p = p + 1;
    }
    assert(lower_bound(e.skip(p as int), k@) == 0);
    if p < n && chars_eq(&map[p].0, &k) {
        map.set(p, (k, v));
        assert(entries_of(map@) =~= e.update(p as int, (k@, v)));
    } else {
        let ghost kk = k@;
        map.insert(p, (k, v));
        assert(entries_of(map@) =~= e.insert(p as int, (kk, v)));
        let ghost e2 = entries_of(map@);
        assert forall|i: int, j: int| 0 <= i < j < e2.len() implies key_lt(
            #[trigger] e2[i].0,
            #[trigger] e2[j].0,
        ) by {
            if j < p {
            } else if j == p {
                assert(key_lt(e[i].0, kk));
            } else if i < p {
                assert(key_lt(e[i].0, e[j - 1].0));
            } else if i == p {
                lemma_key_lt_total(e[p as int].0, kk);
                if j - 1 > p {
                    assert(key_lt(e[p as int].0, e[j - 1].0));
                    lemma_key_lt_transitive(kk, e[p as int].0, e[j - 1].0);
                }
            } else {
                assert(key_lt(e[i - 1].0, e[j - 1].0));
            }
        }
    }
}

/// The conjoining key value that a line of a layout gives, if any.
fn line_entry(line: &Vec<char>) -> (r: Option<(Vec<char>, KeyValue)>)
    ensures
        match layout_entry(line@) {
            Some((k, v)) => r matches Some(x) && x.0@ == k && x.1 == v,
            None => r is None,
        },
{
    let l = trim_chars(line, true, ' ');
    if l.len() == 0 || l[0] == '#' {
        return None;
    }
    let mut p: usize = 0;
    while p < l.len() && l[p] != ':'
        invariant
            p <= l@.len(),
            forall|q: int| 0 <= q < p ==> l@[q] != ':',
        decreases l@.len() - p,
    {
        p = p + 1;
    }
    if p == l.len() {
        assert(!exists|q: int| colon_at(l@, q));
        return None;
    }
    proof {
        assert(colon_at(l@, p as int));
        let q = choose|q: int| colon_at(l@, q);
        if q < p {
            assert(l@[q] == ':');
        } else if p < q {
            assert(l@[p as int] == ':');
        }
    }
    let mut key_raw: Vec<char> = Vec::new();
    let mut i: usize = 0;
    while i < p
        invariant
            p < l@.len(),
            i <= p,
            key_raw@ == l@.subrange(0, i as int),
        decreases p - i,
    {
        key_raw.push(l[i]);
        i = i + 1;
        assert(key_raw@ =~= l@.subrange(0, i as int));
    }
    let mut value_raw: Vec<char> = Vec::new();
    let mut i: usize = p + 1;
    while i < l.len()
        invariant
            p < l@.len(),
            p + 1 <= i <= l@.len(),
            value_raw@ == l@.subrange(p + 1, i as int),
        decreases l@.len() - i,
    {
        value_raw.push(l[i]);
        i = i + 1;
        assert(value_raw@ =~= l@.subrange(p + 1, i as int));
    }
    let key_part = trim_chars(&trim_chars(&trim_chars(&key_raw, true, ' '), false, '\''), false, '"');
    let value_part = trim_chars(
        &trim_chars(&trim_chars(&value_raw, true, ' '), false, '\''),
        false,
        '"',
    );
    let shift = key_part.len() >= 2 && key_part[0] == 'S' && key_part[1] == '-';
    let mut key_str: Vec<char> = Vec::new();
    let start: usize = if shift {
        2
    } else {
        0
    };
    let mut i: usize = start;
    while i < key_part.len()
        invariant
            start <= i <= key_part@.len(),
            start <= key_part@.len(),
            key_str@ == key_part@.subrange(start as int, i as int),
        decreases key_part@.len() - i,
    {
        key_str.push(key_part[i]);
        i = i + 1;
        assert(key_str@ =~= key_part@.subrange(start as int, i as int));
    }
    assert(key_str@ =~= (if shift {
        key_part@.skip(2)
    } else {
        key_part@
    }));
    match KeyValue::parse_chars(&value_part) {
        Ok(kv) => Some((key_of(&key_str, shift), kv)),
        Err(_) => None,
    }
}

/// The character that the named key `k` gives, with or without shift.
fn named_key_char(k: &Vec<char>, shift: bool) -> (r: Option<char>)
    ensures
        r == named_key(k@, shift),
{
    if chars_eq(k, &chars_of("Minus")) {
        Some(if shift { '_' } else { '-' })
    } else if chars_eq(k, &chars_of("Equal")) {
        Some(if shift { '+' } else { '=' })
    } else if chars_eq(k, &chars_of("Backslash")) {
        Some(if shift { '|' } else { '\\' })
    } else if chars_eq(k, &chars_of("OpenBracket")) {
        Some(if shift { '{' } else { '[' })
    } else if chars_eq(k, &chars_of("CloseBracket")) {
        Some(if shift { '}' } else { ']' })
    } else if chars_eq(k, &chars_of("SemiColon")) {
        Some(if shift { ':' } else { ';' })
    } else if chars_eq(k, &chars_of("Quote")) {
        Some(if shift { '"' } else { '\'' })
    } else if chars_eq(k, &chars_of("Comma")) {
        Some(if shift { '<' } else { ',' })
    } else if chars_eq(k, &chars_of("Period")) {
        Some(if shift { '>' } else { '.' })
    } else if chars_eq(k, &chars_of("Slash")) {
        Some(if shift { '?' } else { '/' })
    } else if chars_eq(k, &chars_of("Grave")) {
        Some(if shift { '~' } else { '`' })
    } else {
        None
    }
}

/// The character that a digit key gives with shift held.
fn shifted_digit_char(c: char) -> (r: char)
    ensures
        r == shifted_digit(c),
{
    if c == '1' {
        '!'
    } else if c == '2' {
        '@'
    } else if c == '3' {
        '#'
    } else if c == '4' {
        '$'
    } else if c == '5' {
        '%'
    } else if c == '6' {
        '^'
    } else if c == '7' {
        '&'
    } else if c == '8' {
        '*'
    } else if c == '9' {
        '('
    } else {
        ')'
    }
}

/// The uppercase of an ASCII character.
fn upper_ascii(c: char) -> (r: char)
    ensures
        r == ascii_upper(c),
{
    let n = c as u32;
    if 0x61 <= n && n <= 0x7A {
        match crate::engine::jamo::char_from_u32(n - 0x20) {
            Some(u) => {
                proof {
                    vstd::utf8::char_u32_cast(u, (n - 0x20) as u32);
                }
                u
            },
            None => c,
        }
    } else {
        c
    }
}

/// The lowercase of an ASCII character.
fn lower_ascii(c: char) -> (r: char)
    ensures
        r == ascii_lower(c),
{
    let n = c as u32;
    if 0x41 <= n && n <= 0x5A {
        match crate::engine::jamo::char_from_u32(n + 0x20) {
            Some(u) => {
                proof {
                    vstd::utf8::char_u32_cast(u, (n + 0x20) as u32);
                }
                u
            },
            None => c,
        }
    } else {
        c
    }
}

/// The key that the key text `k` of a layout line names.
fn key_of(k: &Vec<char>, shift: bool) -> (r: Vec<char>)
    ensures
        r@ == key_name(k@, shift),
{
    let mut r: Vec<char> = Vec::new();
    if shift && k.len() == 1 && 0x30 <= k[0] as u32 && k[0] as u32 <= 0x39 {
        r.push(shifted_digit_char(k[0]));
        assert(r@ =~= seq![shifted_digit(k@[0])]);
        return r;
    }
    if let Some(c) = named_key_char(k, shift) {
        r.push(c);
        assert(r@ =~= seq![c]);
        return r;
    }
    if k.len() == 1 && (k[0] as u32) < 0x80 {
        let c = if shift {
            upper_ascii(k[0])
        } else {
            lower_ascii(k[0])
        };
        r.push(c);
        assert(r@ =~= seq![c]);
        return r;
    }
    let mut i: usize = 0;
    while i < k.len()
        invariant
            i <= k@.len(),
            r@ == k@.take(i as int),
        decreases k@.len() - i,
    {
        r.push(k[i]);
        i = i + 1;
        assert(r@ =~= k@.take(i as int));
    }
    assert(r@ =~= k@);
    r
}

impl KeyboardLayout {
    /// The layout that the text `yaml` describes, one `key: value` per line.
    /// Every text gives a layout; lines that give no entry are skipped.
    pub fn from_yaml(yaml: &str) -> (r: Result<KeyboardLayout, LayoutError>)
        ensures
            r matches Ok(l) && l@ == spec_from_yaml(yaml@),
    {
        let chars = chars_of(yaml);
        let mut map: Vec<(Vec<char>, KeyValue)> = Vec::new();
        let mut line: Vec<char> = Vec::new();
        let n = chars.len();
        assert(entries_of(map@) =~= Seq::<(Seq<char>, KeyValue)>::empty());
        assert(chars@.take(0) =~= Seq::<char>::empty());
        let mut i: usize = 0;
        while i < n
            invariant
                n == chars@.len(),
                i <= n,
                split_lines(chars@.take(i as int)).len() >= 1,
                entries_of(map@) == layout_of_lines(split_lines(chars@.take(i as int)).drop_last()),
                line@ == split_lines(chars@.take(i as int)).last(),
                is_sorted(entries_of(map@)),
            decreases n - i,
        {
            let c = chars[i];
            proof {
                let s = chars@.take(i + 1);
                assert(s.drop_last() =~= chars@.take(i as int));
                lemma_split_lines_len(s);
            }
            if c == '\n' {
                let ghost before = split_lines(chars@.take(i as int));
                if let Some((k, v)) = line_entry(&line) {
                    insert_entry(&mut map, k, v);
                }
                line = Vec::new();
                proof {
                    let after = split_lines(chars@.take(i + 1));
                    assert(after == before.push(Seq::empty()));
                    assert(after.drop_last() =~= before);
                    assert(before.drop_last() =~= before.drop_last());
                    assert(before =~= before.drop_last().push(before.last()));
                }
            } else {
                let ghost before = split_lines(chars@.take(i as int));
                line.push(c);
                proof {
                    let after = split_lines(chars@.take(i + 1));
                    assert(after.drop_last() =~= before.drop_last());
                }
            }
            i = i + 1;
        }
        assert(chars@.take(n as int) =~= chars@);
        let ghost all = split_lines(chars@);
        if let Some((k, v)) = line_entry(&line) {
            insert_entry(&mut map, k, v);
        }
        assert(all =~= all.drop_last().push(all.last()));
        Ok(KeyboardLayout { map })
    }
}


impl KeyboardLayout {
    /// The key value of `input`: that of the very key, or else, where
    /// `case_insensitive`, that of the first key, in order, whose lowercase form
    /// equals that of `input`.
    pub fn lookup(&self, input: &str, case_insensitive: bool) -> (r: Option<KeyValue>)
        ensures
            r == spec_lookup(self@, input@, case_insensitive),
    {
        proof {
            use_type_invariant(self);
        }
        let key = chars_of(input);
        let n = self.map.len();
        let mut i: usize = 0;
        while i < n
            invariant
                n == self@.len(),
                i <= n,
                key@ == input@,
                is_sorted(self@),
                forall|j: int| 0 <= j < i ==> (#[trigger] self@[j]).0 != key@,
            decreases n - i,
        {
            if chars_eq(&self.map[i].0, &key) {
                proof {
                    assert(self@[i as int].0 == key@);
                    let k = choose|j: int| 0 <= j < self@.len() && #[trigger] self@[j].0 == key@;
                    lemma_sorted_unique(self@, k, i as int);
                }
                return Some(self.map[i].1);
            }
            i = i + 1;
        }
        if !case_insensitive {
            return None;
        }
        assert(lookup_exact(self@, input@) is None);
        let lower = lowercase_chars(&key);
        let mut i: usize = 0;
        while i < n
            invariant
                n == self@.len(),
                i <= n,
                lower@ == str_lowercase(key@),
                key@ == input@,
                case_insensitive,
                lookup_exact(self@, input@) is None,
                forall|j: int| 0 <= j < i ==> str_lowercase((#[trigger] self@[j]).0) != lower@,
            decreases n - i,
        {
            let k = lowercase_chars(&self.map[i].0);
            if chars_eq(&k, &lower) {
                proof {
                    assert(is_first_lower_match(self@, lower@, i as int));
                    let c = choose|j: int| is_first_lower_match(self@, lower@, j);
                    if c < i {
                    } else if i < c {
                        assert(str_lowercase(self@[i as int].0) != lower@);
                    }
                }
                return Some(self.map[i].1);
            }
            i = i + 1;
        }
        None
    }

    /// Some key is longer than `input` and continues it, so that `input` may be
    /// the start of a longer key sequence.
    pub fn is_prefix(&self, input: &str, case_insensitive: bool) -> (r: bool)
        ensures
            r == spec_is_prefix(self@, input@, case_insensitive),
    {
        let key = chars_of(input);
        let key_len = crate::text::utf8_length(&key);
        let n = self.map.len();
        let mut i: usize = 0;
        while i < n
            invariant
                n == self@.len(),
                i <= n,
                key_len == utf8_len(key@),
                key@ == input@,
                forall|j: int|
                    0 <= j < i ==> !(!key_lt((#[trigger] self@[j]).0, key@) && utf8_len(self@[j].0)
                        > utf8_len(key@) && is_prefix(key@, self@[j].0)),
            decreases n - i,
        {
            let k = &self.map[i].0;
            if !chars_lt(k, &key) && crate::text::utf8_length(k) > key_len && starts_with(k, &key) {
                assert(self@[i as int].0 == k@);
                return true;
            }
            i = i + 1;
        }
        if !case_insensitive {
            return false;
        }
        let lower = lowercase_chars(&key);
        let lower_len = crate::text::utf8_length(&lower);
        let mut i: usize = 0;
        while i < n
            invariant
                n == self@.len(),
                i <= n,
                lower@ == str_lowercase(key@),
                key@ == input@,
                lower_len == utf8_len(lower@),
                case_insensitive,
                forall|j: int|
                    0 <= j < i ==> !(utf8_len((#[trigger] self@[j]).0) > utf8_len(lower@) && is_prefix(
                        lower@,
                        str_lowercase(self@[j].0),
                    )),
            decreases n - i,
        {
            let k = &self.map[i].0;
            let lk = lowercase_chars(k);
            if crate::text::utf8_length(k) > lower_len && starts_with(&lk, &lower) {
                assert(self@[i as int].0 == k@);
                assert(utf8_len(self@[i as int].0) > utf8_len(str_lowercase(input@)) && is_prefix(
                    str_lowercase(input@),
                    str_lowercase(self@[i as int].0),
                ));
                return true;
            }
            i = i + 1;
        }
        false
    }

    /// Some key value of the layout holds an archaic jamo.
    pub fn has_old_jamo(&self) -> (r: bool)
        ensures
            r == exists|i: int| 0 <= i < self@.len() && (#[trigger] self@[i]).1.spec_has_old_jamo(),
    {
        let n = self.map.len();
        let mut i: usize = 0;
        while i < n
            invariant
                n == self@.len(),
                i <= n,
                forall|j: int| 0 <= j < i ==> !(#[trigger] self@[j]).1.spec_has_old_jamo(),
            decreases n - i,
        {
            if self.map[i].1.has_old_jamo() {
                assert(self@[i as int].1.spec_has_old_jamo());
                return true;
            }
            i = i + 1;
        }
        false
    }

    /// Some key of the layout is a sequence of more than one character, as in a
    /// transliteration layout.
    pub fn has_multi_char_keys(&self) -> (r: bool)
        ensures
            r == exists|i: int| 0 <= i < self@.len() && (#[trigger] self@[i]).0.len() > 1,
    {
        let n = self.map.len();
        let mut i: usize = 0;
        while i < n
            invariant
                n == self@.len(),
                i <= n,
                forall|j: int| 0 <= j < i ==> (#[trigger] self@[j]).0.len() <= 1,
            decreases n - i,
        {
            if self.map[i].0.len() > 1 {
                assert(self@[i as int].0.len() > 1);
                return true;
            }
            i = i + 1;
        }
        false
    }
}

} // verus!
