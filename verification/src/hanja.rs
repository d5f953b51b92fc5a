//! The hanja dictionary: lines of `key:value:comment`, indexed by an `fst::Map`
//! from each key to the line where its entries start.

use vstd::prelude::*;
use vstd::utf8::encode_utf8;

use crate::engine::layout::{colon_at, key_lt};
use crate::text::{chars_eq, chars_of, string_of, trim, trim_chars, trim_end, trim_end_chars};

verus! {

broadcast use vstd::seq_lib::group_to_multiset_ensures;

#[verifier::external_type_specification]
#[verifier::external_body]
#[verifier::reject_recursive_types(D)]
pub struct ExFstMap<D>(fst::Map<D>);

#[verifier::external_type_specification]
#[verifier::external_body]
pub struct ExFstError(fst::Error);

/// The keys, as bytes, and the values that an `fst::Map` holds.
pub uninterp spec fn fst_map_contents(m: fst::Map<Vec<u8>>) -> Map<Seq<u8>, u64>;

/// `a` comes before `b` in the lexicographic order of bytes, which is the order
/// of `[u8]` and of `str`.
pub open spec fn bytes_lt(a: Seq<u8>, b: Seq<u8>) -> bool
    decreases a.len(),
{
    if a.len() == 0 {
        b.len() > 0
    } else if b.len() == 0 {
        false
    } else if a[0] < b[0] {
        true
    } else if a[0] == b[0] {
        bytes_lt(a.drop_first(), b.drop_first())
    } else {
        false
    }
}

/// No byte string comes before itself.
pub proof fn lemma_bytes_lt_irreflexive(a: Seq<u8>)
    ensures
        !bytes_lt(a, a),
    decreases a.len(),
{
    if a.len() > 0 {
        lemma_bytes_lt_irreflexive(a.drop_first());
    }
}

/// Of two different byte strings, one comes before the other, and not both
/// ways.
pub proof fn lemma_bytes_lt_total(a: Seq<u8>, b: Seq<u8>)
    ensures
        a != b ==> bytes_lt(a, b) || bytes_lt(b, a),
        !(bytes_lt(a, b) && bytes_lt(b, a)),
    decreases a.len(),
{
    if a.len() > 0 && b.len() > 0 {
        lemma_bytes_lt_total(a.drop_first(), b.drop_first());
        if a[0] == b[0] && a != b {
            assert(a =~= seq![a[0]] + a.drop_first());
            assert(b =~= seq![b[0]] + b.drop_first());
        }
    } else if a.len() == 0 && b.len() == 0 {
        assert(a =~= b);
    }
}

/// The order of byte strings is transitive.
pub proof fn lemma_bytes_lt_transitive(a: Seq<u8>, b: Seq<u8>, c: Seq<u8>)
    requires
        bytes_lt(a, b),
        bytes_lt(b, c),
    ensures
        bytes_lt(a, c),
    decreases a.len(),
{
    if a.len() > 0 && b.len() > 0 && c.len() > 0 {
        if a[0] == b[0] && b[0] == c[0] {
            lemma_bytes_lt_transitive(a.drop_first(), b.drop_first(), c.drop_first());
        }
    }
}

/// `a` comes before `b` in the lexicographic order of bytes.
fn bytes_less(a: &Vec<u8>, b: &Vec<u8>) -> (r: bool)
    ensures
        r == bytes_lt(a@, b@),
{
    let mut i: usize = 0;
    assert(a@.skip(0) =~= a@);
    assert(b@.skip(0) =~= b@);
    while i < a.len() && i < b.len()
        invariant
            i <= a@.len(),
            i <= b@.len(),
            bytes_lt(a@, b@) == bytes_lt(a@.skip(i as int), b@.skip(i as int)),
        decreases a@.len() - i,
    {
        if a[i] != b[i] {
            return a[i] < b[i];
        }
        assert(a@.skip(i as int).drop_first() =~= a@.skip(i + 1));
        assert(b@.skip(i as int).drop_first() =~= b@.skip(i + 1));
        i = i + 1;
    }
    i < b.len()
}

/// The entries of a vector of entries, keys taken as byte strings.
pub open spec fn byte_entries(v: Seq<(Vec<u8>, u64)>) -> Seq<(Seq<u8>, u64)> {
    v.map_values(|p: (Vec<u8>, u64)| (p.0@, p.1))
}

/// Each key of `e` comes before the next: the keys are in order, and none
/// occurs twice.
pub open spec fn strictly_increasing(e: Seq<(Seq<u8>, u64)>) -> bool {
    forall|i: int, j: int| 0 <= i < j < e.len() ==> bytes_lt(#[trigger] e[i].0, #[trigger] e[j].0)
}

/// No key comes after a later one.
pub open spec fn non_decreasing(e: Seq<(Seq<u8>, u64)>) -> bool {
    forall|i: int, j: int| 0 <= i < j < e.len() ==> !bytes_lt(#[trigger] e[j].0, #[trigger] e[i].0)
}

/// No key of `e` occurs twice.
pub open spec fn distinct_keys(e: Seq<(Seq<u8>, u64)>) -> bool {
    forall|i: int, j: int| 0 <= i < e.len() && 0 <= j < e.len() && i != j ==> #[trigger] e[i].0 != #[trigger] e[j].0
}

/// The map from each key of `e` to its value.
pub open spec fn entries_map(e: Seq<(Seq<u8>, u64)>) -> Map<Seq<u8>, u64> {
    Map::new(
        |k: Seq<u8>| exists|i: int| 0 <= i < e.len() && #[trigger] e[i].0 == k,
        |k: Seq<u8>| e[choose|i: int| 0 <= i < e.len() && #[trigger] e[i].0 == k].1,
    )
}

/// Calls `fst::Map::from_iter`, which builds a map in memory from keys given
/// in strictly increasing lexicographic order. Its builder refuses a key that
/// does not come after the one before it (a duplicate or one out of order) and
/// fails in no other way, since it writes to memory; the map it builds holds
/// each key with its value.
#[verifier::external_body]
fn fst_map_from_entries(entries: Vec<(Vec<u8>, u64)>) -> (r: Result<fst::Map<Vec<u8>>, fst::Error>)
    ensures
        r is Ok <==> strictly_increasing(byte_entries(entries@)),
        r matches Ok(m) ==> fst_map_contents(m) == entries_map(byte_entries(entries@)),
{
    fst::Map::from_iter(entries)
}

/// Calls `fst::Map::get`, which gives the value of the key, or `None` where the
/// map does not hold it.
#[verifier::external_body]
fn fst_map_get(m: &fst::Map<Vec<u8>>, key: &[u8]) -> (r: Option<u64>)
    ensures
        r == fst_map_contents(*m).get(key@),
{
    m.get(key)
}

/// `e` sorted by key, stably: the entries of `e`, each key no later than the
/// next.
fn sort_entries(e: Vec<(Vec<u8>, u64)>) -> (r: Vec<(Vec<u8>, u64)>)
    ensures
        non_decreasing(byte_entries(r@)),
        byte_entries(r@).to_multiset() == byte_entries(e@).to_multiset(),
{
    let mut r: Vec<(Vec<u8>, u64)> = Vec::new();
    let n = e.len();
    let mut i: usize = 0;
    let ghost be = byte_entries(e@);
    assert(be.take(0) =~= Seq::<(Seq<u8>, u64)>::empty());
    assert(byte_entries(r@) =~= Seq::<(Seq<u8>, u64)>::empty());
    while i < n
        invariant
            n == e@.len(),
            be == byte_entries(e@),
            i <= n,
            non_decreasing(byte_entries(r@)),
            byte_entries(r@).to_multiset() == be.take(i as int).to_multiset(),
        decreases n - i,
    {
        let x = e[i].0.clone();
        let v = e[i].1;
        proof {
            assert(x@ == be[i as int].0);
        }
        let mut p: usize = 0;
        let ghost br = byte_entries(r@);
        while p < r.len() && !bytes_less(&x, &r[p].0)
            invariant
                br == byte_entries(r@),
                p <= r@.len(),
                forall|q: int| 0 <= q < p ==> !bytes_lt(x@, #[trigger] br[q].0),
            decreases r@.len() - p,
        {
            p = p + 1;
        }
        r.insert(p, (x, v));
        proof {
            let nr = byte_entries(r@);
            assert(nr =~= br.insert(p as int, (x@, v)));
            assert forall|a: int, b: int| 0 <= a < b < nr.len() implies !bytes_lt(
                #[trigger] nr[b].0,
                #[trigger] nr[a].0,
            ) by {
                if b < p {
                } else if b == p {
                    assert(!bytes_lt(x@, br[a].0));
                } else if a < p {
                    assert(!bytes_lt(br[b - 1].0, br[a].0));
                    lemma_bytes_lt_total(br[a].0, x@);
                    lemma_bytes_lt_total(br[b - 1].0, br[a].0);
                    if bytes_lt(br[b - 1].0, x@) {
                        if br[b - 1].0 == br[a].0 {
                        } else {
                            lemma_bytes_lt_transitive(br[a].0, br[b - 1].0, x@);
                        }
                    }
                } else if a == p {
                    assert(bytes_lt(x@, br[p as int].0));
                    if b - 1 > p {
                        assert(!bytes_lt(br[b - 1].0, br[p as int].0));
                        lemma_bytes_lt_total(br[b - 1].0, br[p as int].0);
                        if br[b - 1].0 != br[p as int].0 {
                            lemma_bytes_lt_transitive(x@, br[p as int].0, br[b - 1].0);
                        }
                    }
                    lemma_bytes_lt_total(x@, br[b - 1].0);
                } else {
                    assert(!bytes_lt(br[b - 1].0, br[a - 1].0));
                }
            }
            vstd::seq_lib::to_multiset_insert(br, p as int, (x@, v));
            assert(be.take(i + 1) =~= be.take(i as int).push(be[i as int]));
            vstd::seq_lib::to_multiset_build(be.take(i as int), be[i as int]);
        }
        i = i + 1;
    }
    assert(be.take(n as int) =~= be);
    r
}


/// Where one sequence of entries is a permutation of another, and no key of the
/// first occurs twice, none of the second does.
proof fn lemma_distinct_keys_permutation(a: Seq<(Seq<u8>, u64)>, b: Seq<(Seq<u8>, u64)>)
    requires
        a.to_multiset() == b.to_multiset(),
        distinct_keys(a),
    ensures
        distinct_keys(b),
{
    assert(a.no_duplicates()) by {
        assert forall|i: int, j: int| 0 <= i < a.len() && 0 <= j < a.len() && i != j implies a[i]
            != a[j] by {
            assert(a[i].0 != a[j].0);
        }
    }
    a.lemma_multiset_has_no_duplicates();
    b.lemma_multiset_has_no_duplicates_conv();
    assert forall|i: int, j: int| 0 <= i < b.len() && 0 <= j < b.len() && i != j implies #[trigger] b[i].0
        != #[trigger] b[j].0 by {
        if b[i].0 == b[j].0 {
            assert(b[i] != b[j]);
            assert(b.contains(b[i]));
            assert(b.contains(b[j]));
            vstd::seq_lib::to_multiset_contains(b, b[i]);
            vstd::seq_lib::to_multiset_contains(b, b[j]);
            vstd::seq_lib::to_multiset_contains(a, b[i]);
            vstd::seq_lib::to_multiset_contains(a, b[j]);
            let x = choose|x: int| 0 <= x < a.len() && a[x] == b[i];
            let y = choose|y: int| 0 <= y < a.len() && a[y] == b[j];
            assert(a[x].0 == a[y].0);
        }
    }
}

/// Entries in order are strictly increasing exactly when no key occurs twice.
proof fn lemma_ordered_distinct(s: Seq<(Seq<u8>, u64)>)
    requires
        non_decreasing(s),
    ensures
        strictly_increasing(s) <==> distinct_keys(s),
{
    if distinct_keys(s) {
        assert forall|i: int, j: int| 0 <= i < j < s.len() implies bytes_lt(
            #[trigger] s[i].0,
            #[trigger] s[j].0,
        ) by {
            lemma_bytes_lt_total(s[i].0, s[j].0);
        }
    }
    if strictly_increasing(s) {
        assert forall|i: int, j: int| 0 <= i < s.len() && 0 <= j < s.len() && i != j implies #[trigger] s[i].0
            != #[trigger] s[j].0 by {
            lemma_bytes_lt_irreflexive(s[i].0);
            if i < j {
                assert(bytes_lt(s[i].0, s[j].0));
            } else {
                assert(bytes_lt(s[j].0, s[i].0));
            }
        }
    }
}

/// Two permutations of entries whose keys are distinct map each key to the
/// same value.
proof fn lemma_entries_map_permutation(a: Seq<(Seq<u8>, u64)>, b: Seq<(Seq<u8>, u64)>)
    requires
        a.to_multiset() == b.to_multiset(),
        distinct_keys(a),
        distinct_keys(b),
    ensures
        entries_map(a) == entries_map(b),
{
    assert forall|k: Seq<u8>| #[trigger] entries_map(a).dom().contains(k) <==> entries_map(b).dom().contains(k) by {
        if exists|i: int| 0 <= i < a.len() && #[trigger] a[i].0 == k {
            let i = choose|i: int| 0 <= i < a.len() && #[trigger] a[i].0 == k;
            assert(a.contains(a[i]));
            vstd::seq_lib::to_multiset_contains(a, a[i]);
            vstd::seq_lib::to_multiset_contains(b, a[i]);
            let j = choose|j: int| 0 <= j < b.len() && b[j] == a[i];
            assert(b[j].0 == k);
        }
        if exists|j: int| 0 <= j < b.len() && #[trigger] b[j].0 == k {
            let j = choose|j: int| 0 <= j < b.len() && #[trigger] b[j].0 == k;
            assert(b.contains(b[j]));
            vstd::seq_lib::to_multiset_contains(b, b[j]);
            vstd::seq_lib::to_multiset_contains(a, b[j]);
            let i = choose|i: int| 0 <= i < a.len() && a[i] == b[j];
            assert(a[i].0 == k);
        }
    }
    assert forall|k: Seq<u8>| #[trigger] entries_map(a).dom().contains(k) implies entries_map(a)[k]
        == entries_map(b)[k] by {
        let i = choose|i: int| 0 <= i < a.len() && #[trigger] a[i].0 == k;
        let j = choose|j: int| 0 <= j < b.len() && #[trigger] b[j].0 == k;
        assert(b.contains(b[j]));
        vstd::seq_lib::to_multiset_contains(b, b[j]);
        vstd::seq_lib::to_multiset_contains(a, b[j]);
        let x = choose|x: int| 0 <= x < a.len() && a[x] == b[j];
        assert(a[x].0 == k);
        assert(x == i);
    }
    assert(entries_map(a) =~= entries_map(b));
}


/// The end of the line that starts at `pos`: just past its line feed, or the
/// end of `s`.
pub open spec fn line_end(s: Seq<char>, pos: int) -> int
    decreases s.len() - pos,
{
    if pos < 0 || pos >= s.len() {
        s.len() as int
    } else if s[pos] == '\n' {
        pos + 1
    } else {
        line_end(s, pos + 1)
    }
}

/// A line that starts inside `s` ends after its start and inside `s`.
pub proof fn lemma_line_end(s: Seq<char>, pos: int)
    requires
        0 <= pos < s.len(),
    ensures
        pos < line_end(s, pos) <= s.len(),
    decreases s.len() - pos,
{
    if s[pos] != '\n' {
        if pos + 1 < s.len() {
            lemma_line_end(s, pos + 1);
        } else {
            assert(line_end(s, pos + 1) == s.len());
        }
    }
}

/// The key that a line of the dictionary gives to the index: what comes before
/// its first colon, for a line that is neither blank nor a comment.
pub open spec fn index_key(line: Seq<char>) -> Option<Seq<char>> {
    let t = trim(line);
    if t.len() == 0 || t[0] == '#' {
        None
    } else if exists|p: int| colon_at(line, p) {
        Some(line.take(choose|p: int| colon_at(line, p)))
    } else {
        None
    }
}

/// The index of the lines from `pos` on: each key with the start of its line,
/// where it differs from the key of the line indexed before.
pub open spec fn index_from(s: Seq<char>, pos: int, last: Seq<char>) -> Seq<(Seq<char>, int)>
    decreases s.len() - pos,
{
    if pos < 0 || pos >= s.len() {
        Seq::empty()
    } else {
        proof {
            lemma_line_end(s, pos);
        }
        let e = line_end(s, pos);
        match index_key(s.subrange(pos, e)) {
            Some(k) => if k != last {
                seq![(k, pos)] + index_from(s, e, k)
            } else {
                index_from(s, e, last)
            },
            None => index_from(s, e, last),
        }
    }
}

/// Every line that the index names starts inside `s`, from `pos` on.
pub proof fn lemma_index_from_bounds(s: Seq<char>, pos: int, last: Seq<char>)
    ensures
        forall|i: int|
            0 <= i < index_from(s, pos, last).len() ==> pos <= (#[trigger] index_from(s, pos, last)[i]).1 < s.len(),
    decreases s.len() - pos,
{
    if 0 <= pos < s.len() {
        lemma_line_end(s, pos);
        let e = line_end(s, pos);
        lemma_index_from_bounds(s, e, last);
        match index_key(s.subrange(pos, e)) {
            Some(k) => {
                lemma_index_from_bounds(s, e, k);
                if k != last {
                    let r = index_from(s, e, k);
                    assert(index_from(s, pos, last) == seq![(k, pos)] + r);
                    assert forall|i: int| 0 <= i < 1 + r.len() implies pos <= (#[trigger] (seq![(k, pos)] + r)[i]).1 < s.len() by {
                        if i > 0 {
                            assert((seq![(k, pos)] + r)[i] == r[i - 1]);
                        }
                    }
                } else {
                    assert(index_from(s, pos, last) == index_from(s, e, last));
                }
            },
            None => {
                assert(index_from(s, pos, last) == index_from(s, e, last));
            },
        }
    }
}

/// The index of the dictionary `s`, keys taken as the bytes of their UTF-8
/// encoding and lines by where they start.
pub open spec fn index_entries(s: Seq<char>) -> Seq<(Seq<u8>, u64)> {
    index_from(s, 0, Seq::empty()).map_values(|p: (Seq<char>, int)| (encode_utf8(p.0), p.1 as u64))
}

/// An entry of the dictionary: a key, the hanja it stands for, and a comment.
pub struct HanjaView {
    pub key: Seq<char>,
    pub value: Seq<char>,
    pub comment: Option<Seq<char>>,
}

/// The entry of a line without its trailing white space: the part before the
/// first colon, the part up to the next colon, and what follows that, if a
/// second colon follows; a line without colon gives none.
pub open spec fn entry_parts(t: Seq<char>) -> Option<HanjaView> {
    if exists|p: int| colon_at(t, p) {
        let p = choose|p: int| colon_at(t, p);
        let rest = t.skip(p + 1);
        if exists|q: int| colon_at(rest, q) {
            let q = choose|q: int| colon_at(rest, q);
            Some(HanjaView { key: t.take(p), value: rest.take(q), comment: Some(rest.skip(q + 1)) })
        } else {
            Some(HanjaView { key: t.take(p), value: rest, comment: None })
        }
    } else {
        None
    }
}

/// The entries of `target` read from the line at `pos` on, until a line whose
/// key comes after `target`; blank lines, comments and lines without colon are
/// passed over.
pub open spec fn entries_from(s: Seq<char>, pos: int, target: Seq<char>) -> Seq<HanjaView>
    decreases s.len() - pos,
{
    if pos < 0 || pos >= s.len() {
        Seq::empty()
    } else {
        proof {
            lemma_line_end(s, pos);
        }
        let e = line_end(s, pos);
        let t = trim_end(s.subrange(pos, e));
        if t.len() == 0 || t[0] == '#' {
            entries_from(s, e, target)
        } else {
            match entry_parts(t) {
                None => entries_from(s, e, target),
                Some(h) => if key_lt(target, h.key) {
                    Seq::empty()
                } else if h.key == target {
                    seq![h] + entries_from(s, e, target)
                } else {
                    entries_from(s, e, target)
                },
            }
        }
    }
}

/// The entries of the key `key` in the dictionary `s`: those read from the
/// line where the index puts the key, if it has the key and any are found.
pub open spec fn spec_match_exact(s: Seq<char>, key: Seq<char>) -> Option<Seq<HanjaView>> {
    match entries_map(index_entries(s)).get(encode_utf8(key)) {
        None => None,
        Some(off) => {
            let r = entries_from(s, off as int, key);
            if r.len() == 0 {
                None
            } else {
                Some(r)
            }
        },
    }
}

/// The entries of an exact match, or none.
pub open spec fn found(r: Option<Seq<HanjaView>>) -> Seq<HanjaView> {
    match r {
        Some(v) => v,
        None => Seq::empty(),
    }
}

/// The entries of the starts of `key` of at most `len` characters, longest
/// first.
pub open spec fn prefix_matches(s: Seq<char>, key: Seq<char>, len: int) -> Seq<HanjaView>
    decreases len,
{
    if len <= 0 {
        Seq::empty()
    } else {
        found(spec_match_exact(s, key.take(len))) + prefix_matches(s, key, len - 1)
    }
}

/// The entries of the ends of `key` from the `start`th character on, longest
/// first.
pub open spec fn suffix_matches(s: Seq<char>, key: Seq<char>, start: int) -> Seq<HanjaView>
    decreases key.len() - start,
{
    if start < 0 || start >= key.len() {
        Seq::empty()
    } else {
        found(spec_match_exact(s, key.skip(start))) + suffix_matches(s, key, start + 1)
    }
}

/// An entry of the dictionary.
#[derive(Debug, Clone)]
pub struct Hanja {
    /// The key, in hangul, by which the entry is found.
    pub key: String,
    /// The hanja.
    pub value: String,
    /// What follows the value on its line, if anything does.
    pub comment: Option<String>,
}

impl View for Hanja {
    type V = HanjaView;

    open spec fn view(&self) -> HanjaView {
        HanjaView {
            key: self.key@,
            value: self.value@,
            comment: match self.comment {
                Some(c) => Some(c@),
                None => None,
            },
        }
    }
}

/// The contents of a list of entries.
pub open spec fn hanja_views(v: Seq<Hanja>) -> Seq<HanjaView> {
    v.map_values(|h: Hanja| h@)
}

/// The error of a dictionary that cannot be indexed.
#[derive(Debug)]
pub enum HanjaError {
    /// A key occurs on lines that other keys separate, so that the index would
    /// hold it twice.
    Index,
}

/// A hanja dictionary: its text, and the index of where each key's entries
/// start.
pub struct HanjaTable {
    map: fst::Map<Vec<u8>>,
    content: Vec<char>,
}

impl View for HanjaTable {
    type V = Seq<char>;

    closed spec fn view(&self) -> Seq<char> {
        self.content@
    }
}

impl HanjaTable {
    #[verifier::type_invariant]
    spec fn indexed(self) -> bool {
        &&& distinct_keys(index_entries(self.content@))
        &&& fst_map_contents(self.map) == entries_map(index_entries(self.content@))
    }
}


/// The index as keys and line starts.
pub open spec fn index_view(v: Seq<(Vec<char>, usize)>) -> Seq<(Seq<char>, int)> {
    v.map_values(|p: (Vec<char>, usize)| (p.0@, p.1 as int))
}

/// The end of the line that starts at `pos`.
fn line_end_at(s: &Vec<char>, pos: usize) -> (e: usize)
    requires
        pos < s@.len(),
    ensures
        e == line_end(s@, pos as int),
{
    let mut i: usize = pos;
    while i < s.len() && s[i] != '\n'
        invariant
            pos <= i <= s@.len(),
            line_end(s@, pos as int) == line_end(s@, i as int),
        decreases s@.len() - i,
    {
        i = i + 1;
    }
    if i < s.len() {
        i + 1
    } else {
        i
    }
}

/// The characters of `s` from `a` up to `b`.
fn sub_chars(s: &Vec<char>, a: usize, b: usize) -> (r: Vec<char>)
    requires
        a <= b <= s@.len(),
    ensures
        r@ == s@.subrange(a as int, b as int),
{
    let mut r: Vec<char> = Vec::new();
    let mut i: usize = a;
    while i < b
        invariant
            a <= i <= b <= s@.len(),
            r@ == s@.subrange(a as int, i as int),
        decreases b - i,
    {
        r.push(s[i]);
        i = i + 1;
        assert(r@ =~= s@.subrange(a as int, i as int));
    }
    r
}

/// Where the first colon of `l` is, if it has one.
fn first_colon(l: &Vec<char>) -> (r: Option<usize>)
    ensures
        match r {
            Some(p) => colon_at(l@, p as int),
            None => !exists|p: int| colon_at(l@, p),
        },
{
    let mut p: usize = 0;
    while p < l.len()
        invariant
            p <= l@.len(),
            forall|q: int| 0 <= q < p ==> l@[q] != ':',
        decreases l@.len() - p,
    {
        if l[p] == ':' {
            return Some(p);
        }
        p = p + 1;
    }
    None
}

/// The position of the first colon, where `colon_at` holds of it.
proof fn lemma_colon_unique(l: Seq<char>, p: int)
    requires
        colon_at(l, p),
    ensures
        (choose|q: int| colon_at(l, q)) == p,
{
    let q = choose|q: int| colon_at(l, q);
    if q < p {
        assert(l[q] == ':');
    } else if p < q {
        assert(l[p] == ':');
    }
}

/// The key that a line gives to the index, if any.
fn index_key_of(line: &Vec<char>) -> (r: Option<Vec<char>>)
    ensures
        match index_key(line@) {
            Some(k) => r matches Some(v) && v@ == k,
            None => r is None,
        },
{
    let t = trim_chars(line, true, ' ');
    if t.len() == 0 || t[0] == '#' {
        return None;
    }
    match first_colon(line) {
        Some(p) => {
            proof {
                lemma_colon_unique(line@, p as int);
            }
            Some(sub_chars(line, 0, p))
        },
        None => None,
    }
}

/// The index of the dictionary `s`.
fn build_index(s: &Vec<char>) -> (r: Vec<(Vec<char>, usize)>)
    ensures
        index_view(r@) == index_from(s@, 0, Seq::empty()),
{
    let mut r: Vec<(Vec<char>, usize)> = Vec::new();
    let mut last: Vec<char> = Vec::new();
    let mut pos: usize = 0;
    assert(index_view(r@) =~= Seq::<(Seq<char>, int)>::empty());
    assert(last@ =~= Seq::<char>::empty());
    while pos < s.len()
        invariant
            pos <= s@.len(),
            index_view(r@) + index_from(s@, pos as int, last@) == index_from(s@, 0, Seq::empty()),
        decreases s@.len() - pos,
    {
        proof {
            lemma_line_end(s@, pos as int);
        }
        let e = line_end_at(s, pos);
        let line = sub_chars(s, pos, e);
        let ghost before = index_view(r@);
        match index_key_of(&line) {
            Some(k) => {
                if !chars_eq(&k, &last) {
                    let ghost kk = k@;
                    r.push((k.clone(), pos));
                    assert(index_view(r@) =~= before.push((kk, pos as int)));
                    assert(index_from(s@, pos as int, last@) == seq![(kk, pos as int)] + index_from(s@, e as int, kk));
                    assert(index_view(r@) + index_from(s@, e as int, kk) =~= before + index_from(s@, pos as int, last@));
                    last = k;
                }
            },
            None => {},
        }
        pos = e;
    }
    assert(index_from(s@, pos as int, last@) == Seq::<(Seq<char>, int)>::empty());
    assert(index_view(r@) =~= index_from(s@, 0, Seq::empty()));
    r
}

/// The bytes of `b`, as a vector.
fn bytes_vec(b: &[u8]) -> (r: Vec<u8>)
    ensures
        r@ == b@,
{
    let mut r: Vec<u8> = Vec::new();
    let mut i: usize = 0;
    while i < b.len()
        invariant
            i <= b@.len(),
            r@ == b@.take(i as int),
        decreases b@.len() - i,
    {
        r.push(b[i]);
        i = i + 1;
        assert(r@ =~= b@.take(i as int));
    }
    assert(b@.take(b@.len() as int) =~= b@);
    r
}

/// The index with its keys as the bytes of their UTF-8 encoding.
fn byte_index(idx: &Vec<(Vec<char>, usize)>) -> (r: Vec<(Vec<u8>, u64)>)
    ensures
        byte_entries(r@) == index_view(idx@).map_values(
            |p: (Seq<char>, int)| (encode_utf8(p.0), p.1 as u64),
        ),
{
    let ghost target = index_view(idx@).map_values(|p: (Seq<char>, int)| (encode_utf8(p.0), p.1 as u64));
    let mut r: Vec<(Vec<u8>, u64)> = Vec::new();
    let mut i: usize = 0;
    while i < idx.len()
        invariant
            i <= idx@.len(),
            target == index_view(idx@).map_values(|p: (Seq<char>, int)| (encode_utf8(p.0), p.1 as u64)),
            byte_entries(r@) == target.take(i as int),
        decreases idx@.len() - i,
    {
        let k = string_of(&idx[i].0);
        let kb = bytes_vec(k.as_str().as_bytes());
        let off = idx[i].1 as u64;
        let ghost prev = byte_entries(r@);
        r.push((kb, off));
        assert(byte_entries(r@) =~= prev.push((encode_utf8(idx@[i as int].0@), off)));
        assert(target.take(i + 1) =~= target.take(i as int).push(target[i as int]));
        i = i + 1;
    }
    assert(target.take(idx@.len() as int) =~= target);
    r
}


/// The entry of a line without its trailing white space, as its three parts.
fn entry_parts_of(t: &Vec<char>) -> (r: Option<(Vec<char>, Vec<char>, Option<Vec<char>>)>)
    ensures
        match entry_parts(t@) {
            Some(h) => r matches Some(x) && x.0@ == h.key && x.1@ == h.value && match h.comment {
                Some(c) => x.2 matches Some(y) && y@ == c,
                None => x.2 is None,
            },
            None => r is None,
        },
{
    match first_colon(t) {
        None => None,
        Some(p) => {
            proof {
                lemma_colon_unique(t@, p as int);
            }
            let n = t.len();
            assert(p < n);
            let key = sub_chars(t, 0, p);
            let rest = sub_chars(t, p + 1, n);
            assert(rest@ =~= t@.skip(p + 1));
            match first_colon(&rest) {
                Some(q) => {
                    proof {
                        lemma_colon_unique(rest@, q as int);
                    }
                    let value = sub_chars(&rest, 0, q);
                    let comment = sub_chars(&rest, q + 1, rest.len());
                    assert(value@ =~= rest@.take(q as int));
                    assert(comment@ =~= rest@.skip(q + 1));
                    Some((key, value, Some(comment)))
                },
                None => Some((key, rest, None)),
            }
        },
    }
}

/// The entry that the three parts make.
fn make_hanja(key: &Vec<char>, value: &Vec<char>, comment: &Option<Vec<char>>) -> (r: Hanja)
    ensures
        r@.key == key@,
        r@.value == value@,
        r@.comment == match comment {
            Some(c) => Some(c@),
            None => None::<Seq<char>>,
        },
{
    Hanja {
        key: string_of(key),
        value: string_of(value),
        comment: match comment {
            Some(c) => Some(string_of(c)),
            None => None,
        },
    }
}

impl HanjaTable {
    /// The dictionary with the text `content`, and its index: for each line that
    /// is neither blank nor a comment and has a colon, the key before the colon,
    /// where it differs from the key of the line indexed before. The index is
    /// refused, and the dictionary with it, where a key would be indexed twice.
    pub fn from_content(content: &str) -> (r: Result<HanjaTable, HanjaError>)
        ensures
            r is Ok <==> distinct_keys(index_entries(content@)),
            r matches Ok(t) ==> t@ == content@,
    {
        let s = chars_of(content);
        let idx = build_index(&s);
        let entries = byte_index(&idx);
        let ghost unsorted = byte_entries(entries@);
        assert(unsorted == index_entries(content@));
        let sorted = sort_entries(entries);
        let ghost ordered = byte_entries(sorted@);
        proof {
            lemma_ordered_distinct(ordered);
            if distinct_keys(unsorted) {
                lemma_distinct_keys_permutation(unsorted, ordered);
                lemma_entries_map_permutation(ordered, unsorted);
            } else if distinct_keys(ordered) {
                lemma_distinct_keys_permutation(ordered, unsorted);
            }
        }
        match fst_map_from_entries(sorted) {
            Ok(map) => Ok(HanjaTable { map, content: s }),
            Err(_) => Err(HanjaError::Index),
        }
    }

    /// The entries of `target` read from the line at `off` on.
    fn read_entries(&self, off: usize, target: &Vec<char>) -> (r: Vec<Hanja>)
        ensures
            hanja_views(r@) == entries_from(self@, off as int, target@),
    {
        let s = &self.content;
        let mut out: Vec<Hanja> = Vec::new();
        let mut pos: usize = off;
        assert(hanja_views(out@) =~= Seq::<HanjaView>::empty());
        while pos < s.len()
            invariant
                off <= pos,
                s@ == self@,
                hanja_views(out@) + entries_from(s@, pos as int, target@) == entries_from(
                    s@,
                    off as int,
                    target@,
                ),
            decreases s@.len() - pos,
        {
            proof {
                lemma_line_end(s@, pos as int);
            }
            let e = line_end_at(s, pos);
            let t = trim_end_chars(&sub_chars(s, pos, e));
            if t.len() > 0 && t[0] != '#' {
                match entry_parts_of(&t) {
                    None => {},
                    Some((key, value, comment)) => {
                        if crate::engine::layout::chars_lt(target, &key) {
                            assert(entries_from(s@, pos as int, target@) == Seq::<HanjaView>::empty());
                            assert(hanja_views(out@) =~= entries_from(s@, off as int, target@));
                            return out;
                        }
                        if chars_eq(&key, target) {
                            let h = make_hanja(&key, &value, &comment);
                            let ghost prev = hanja_views(out@);
                            out.push(h);
                            assert(hanja_views(out@) =~= prev.push(h@));
                            assert(h@ == entry_parts(t@)->0);
                            assert(hanja_views(out@) + entries_from(s@, e as int, target@) =~= prev
                                + entries_from(s@, pos as int, target@));
                        }
                    },
                }
            }
            pos = e;
        }
        assert(hanja_views(out@) =~= entries_from(s@, off as int, target@));
        out
    }

    /// The entries of the key `key`, in the order of their lines, or `None`
    /// where there are none.
    pub fn match_exact(&self, key: &str) -> (r: Option<Vec<Hanja>>)
        ensures
            match spec_match_exact(self@, key@) {
                Some(v) => r matches Some(x) && hanja_views(x@) == v,
                None => r is None,
            },
    {
        proof {
            use_type_invariant(self);
        }
        let kb = key.as_bytes();
        let off = match fst_map_get(&self.map, kb) {
            Some(o) => o,
            None => return None,
        };
        let n = self.content.len();
        proof {
            let e = index_entries(self@);
            let k = encode_utf8(key@);
            assert(entries_map(e).dom().contains(k));
            let i = choose|i: int| 0 <= i < e.len() && #[trigger] e[i].0 == k;
            lemma_index_from_bounds(self@, 0, Seq::empty());
            let idx = index_from(self@, 0, Seq::empty());
            assert(0 <= idx[i].1 < n);
            assert(off == e[i].1);
            assert(e[i].1 == idx[i].1 as u64);
            assert(off as int == idx[i].1);
        }
        let target = chars_of(key);
        let r = self.read_entries(off as usize, &target);
        if r.len() == 0 {
            None
        } else {
            Some(r)
        }
    }

    /// The entries of each start of `key`, the longest start first.
    pub fn match_prefix(&self, key: &str) -> (r: Vec<Hanja>)
        ensures
            hanja_views(r@) == prefix_matches(self@, key@, key@.len() as int),
    {
        let chars = chars_of(key);
        let mut results: Vec<Hanja> = Vec::new();
        let mut len: usize = chars.len();
        assert(hanja_views(results@) =~= Seq::<HanjaView>::empty());
        while len > 0
            invariant
                chars@ == key@,
                len <= chars@.len(),
                hanja_views(results@) + prefix_matches(self@, key@, len as int) == prefix_matches(
                    self@,
                    key@,
                    key@.len() as int,
                ),
            decreases len,
        {
            let sub = crate::text::string_of(&sub_chars(&chars, 0, len));
            assert(sub@ =~= key@.take(len as int));
            let ghost prev = hanja_views(results@);
            match self.match_exact(sub.as_str()) {
                Some(mut found) => {
                    let ghost f = hanja_views(found@);
                    results.append(&mut found);
                    assert(hanja_views(results@) =~= prev + f);
                },
                None => {},
            }
            assert(hanja_views(results@) + prefix_matches(self@, key@, len - 1) =~= prev
                + prefix_matches(self@, key@, len as int));
            len = len - 1;
        }
        results
    }

    /// The entries of each end of `key`, the longest end first.
    pub fn match_suffix(&self, key: &str) -> (r: Vec<Hanja>)
        ensures
            hanja_views(r@) == suffix_matches(self@, key@, 0),
    {
        let chars = chars_of(key);
        let mut results: Vec<Hanja> = Vec::new();
        let mut start: usize = 0;
        assert(hanja_views(results@) =~= Seq::<HanjaView>::empty());
        while start < chars.len()
            invariant
                chars@ == key@,
                start <= chars@.len(),
                hanja_views(results@) + suffix_matches(self@, key@, start as int) == suffix_matches(
                    self@,
                    key@,
                    0,
                ),
            decreases chars@.len() - start,
        {
            let sub = crate::text::string_of(&sub_chars(&chars, start, chars.len()));
            assert(sub@ =~= key@.skip(start as int));
            let ghost prev = hanja_views(results@);
            match self.match_exact(sub.as_str()) {
                Some(mut found) => {
                    let ghost f = hanja_views(found@);
                    results.append(&mut found);
                    assert(hanja_views(results@) =~= prev + f);
                },
                None => {},
            }
            assert(hanja_views(results@) + suffix_matches(self@, key@, start + 1) =~= prev
                + suffix_matches(self@, key@, start as int));
            start = start + 1;
        }
        assert(suffix_matches(self@, key@, start as int) == Seq::<HanjaView>::empty());
        assert(hanja_views(results@) =~= suffix_matches(self@, key@, 0));
        results
    }
}


/// Every entry read for `target` has `target` as its key.
pub proof fn lemma_entries_have_key(s: Seq<char>, pos: int, target: Seq<char>)
    ensures
        forall|i: int|
            0 <= i < entries_from(s, pos, target).len() ==> (#[trigger] entries_from(s, pos, target)[i]).key
                == target,
    decreases s.len() - pos,
{
    if 0 <= pos < s.len() {
        lemma_line_end(s, pos);
        let e = line_end(s, pos);
        lemma_entries_have_key(s, e, target);
        let t = trim_end(s.subrange(pos, e));
        if !(t.len() == 0 || t[0] == '#') {
            match entry_parts(t) {
                Some(h) => {
                    if !key_lt(target, h.key) && h.key == target {
                        let r = entries_from(s, e, target);
                        assert(entries_from(s, pos, target) == seq![h] + r);
                        assert forall|i: int| 0 <= i < 1 + r.len() implies (#[trigger] (seq![h] + r)[i]).key
                            == target by {
                            if i > 0 {
                                assert((seq![h] + r)[i] == r[i - 1]);
                            }
                        }
                    }
                },
                None => {},
            }
        }
    }
}

/// An exact match gives only entries of the key asked for.
pub proof fn lemma_match_exact_keys(s: Seq<char>, key: Seq<char>)
    ensures
        spec_match_exact(s, key) matches Some(v) ==> forall|i: int| 0 <= i < v.len() ==> (#[trigger] v[i]).key == key,
{
    match entries_map(index_entries(s)).get(encode_utf8(key)) {
        Some(off) => lemma_entries_have_key(s, off as int, key),
        None => {},
    }
}

/// Each entry that a prefix match gives has a start of the key as its key.
pub proof fn lemma_prefix_match_keys(s: Seq<char>, key: Seq<char>, len: int)
    requires
        len <= key.len(),
    ensures
        forall|i: int|
            0 <= i < prefix_matches(s, key, len).len() ==> crate::text::is_prefix(
                (#[trigger] prefix_matches(s, key, len)[i]).key,
                key,
            ),
    decreases len,
{
    if len > 0 {
        lemma_prefix_match_keys(s, key, len - 1);
        lemma_match_exact_keys(s, key.take(len));
        let f = found(spec_match_exact(s, key.take(len)));
        let r = prefix_matches(s, key, len - 1);
        assert forall|i: int| 0 <= i < f.len() + r.len() implies crate::text::is_prefix(
            #[trigger] (f + r)[i].key,
            key,
        ) by {
            if i < f.len() {
                assert((f + r)[i] == f[i]);
                assert(key.subrange(0, len) =~= key.take(len));
            } else {
                assert((f + r)[i] == r[i - f.len()]);
            }
        }
    }
}

/// Each entry that a suffix match gives has an end of the key as its key.
pub proof fn lemma_suffix_match_keys(s: Seq<char>, key: Seq<char>, start: int)
    requires
        0 <= start,
    ensures
        forall|i: int|
            0 <= i < suffix_matches(s, key, start).len() ==> (exists|k: int|
                0 <= k <= key.len() && (#[trigger] suffix_matches(s, key, start)[i]).key == key.skip(k)),
    decreases key.len() - start,
{
    if start < key.len() {
        lemma_suffix_match_keys(s, key, start + 1);
        lemma_match_exact_keys(s, key.skip(start));
        let f = found(spec_match_exact(s, key.skip(start)));
        let r = suffix_matches(s, key, start + 1);
        assert forall|i: int| 0 <= i < f.len() + r.len() implies (exists|k: int|
            0 <= k <= key.len() && (#[trigger] (f + r)[i]).key == key.skip(k)) by {
            if i < f.len() {
                assert((f + r)[i] == f[i]);
            } else {
                assert((f + r)[i] == r[i - f.len()]);
            }
        }
    }
}


/// The line that shows an entry: its key, value and comment, each followed by
/// a colon but the last, an absent comment shown as nothing.
pub open spec fn spec_entry_line(h: HanjaView) -> Seq<char> {
    h.key + seq![':'] + h.value + seq![':'] + match h.comment {
        Some(c) => c,
        None => Seq::empty(),
    }
}

/// The line that shows the entry `h`, as `key:value:comment`.
pub fn entry_line(h: &Hanja) -> (r: String)
    ensures
        r@ == spec_entry_line(h@),
{
    let mut s = String::new();
    s.append(h.key.as_str());
    crate::text::string_push(&mut s, ':');
    s.append(h.value.as_str());
    crate::text::string_push(&mut s, ':');
    match &h.comment {
        Some(c) => s.append(c.as_str()),
        None => {},
    }
    s
}

} // verus!
