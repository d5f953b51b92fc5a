//! The registry of keyboard layouts: the layouts found, each under its name,
//! with the name it shows, in the order of their names.

use vstd::prelude::*;

use crate::engine::layout::{
    chars_lt, key_lt, lemma_key_lt_irreflexive, lemma_key_lt_total, lemma_key_lt_transitive,
    lines_of, split_lines,
};
use crate::text::{chars_of, is_prefix, starts_with, string_of, trim, trim_chars};

verus! {

broadcast use vstd::seq_lib::group_to_multiset_ensures;

/// The line that gives a layout the name it shows starts with this.
pub open spec fn name_marker() -> Seq<char> {
    seq!['#', ' ', 'n', 'a', 'm', 'e', ':', ' ']
}

/// The name that the lines from the `i`th on give, among the first ten: the
/// rest of the first trimmed line that starts with `# name: `, trimmed, before
/// any line that is neither blank nor a comment.
pub open spec fn name_in_lines(lines: Seq<Seq<char>>, i: int) -> Option<Seq<char>>
    decreases lines.len() - i,
{
    if i < 0 || i >= 10 || i >= lines.len() {
        None
    } else {
        let l = trim(lines[i]);
        if is_prefix(name_marker(), l) {
            Some(trim(l.skip(8)))
        } else if l.len() > 0 && l[0] != '#' {
            None
        } else {
            name_in_lines(lines, i + 1)
        }
    }
}

/// The name that the text of a layout gives it to show, if any.
pub open spec fn spec_display_name(content: Seq<char>) -> Option<Seq<char>> {
    name_in_lines(split_lines(content), 0)
}

/// The name that the text of a layout gives it to show, read from a comment
/// `# name: ...` among its first ten lines, before its first entry.
pub fn display_name(content: &str) -> (r: Option<String>)
    ensures
        match spec_display_name(content@) {
            Some(n) => r matches Some(s) && s@ == n,
            None => r is None,
        },
{
    let chars = chars_of(content);
    let lines = lines_of(&chars);
    let ghost ls = split_lines(content@);
    assert(lines@.map_values(|l: Vec<char>| l@) == ls);
    let mut marker: Vec<char> = Vec::new();
    marker.push('#');
    marker.push(' ');
    marker.push('n');
    marker.push('a');
    marker.push('m');
    marker.push('e');
    marker.push(':');
    marker.push(' ');
    assert(marker@ =~= name_marker());
    let mut i: usize = 0;
    while i < lines.len() && i < 10
        invariant
            ls == lines@.map_values(|l: Vec<char>| l@),
            ls == split_lines(content@),
            marker@ == name_marker(),
            i <= lines@.len(),
            name_in_lines(ls, 0) == name_in_lines(ls, i as int),
        decreases lines@.len() - i,
    {
        let l = trim_chars(&lines[i], true, ' ');
        assert(lines@[i as int]@ == ls[i as int]);
        if starts_with(&l, &marker) {
            let mut rest: Vec<char> = Vec::new();
            let mut k: usize = 8;
            while k < l.len()
                invariant
                    8 <= l@.len(),
                    8 <= k <= l@.len(),
                    rest@ == l@.subrange(8, k as int),
                decreases l@.len() - k,
            {
                rest.push(l[k]);
                k = k + 1;
                assert(rest@ =~= l@.subrange(8, k as int));
            }
            assert(rest@ =~= l@.skip(8));
            return Some(string_of(&trim_chars(&rest, true, ' ')));
        }
        if l.len() > 0 && l[0] != '#' {
            return None;
        }
        i = i + 1;
    }
    None
}

/// A keyboard layout as the registry lists it.
#[derive(Debug, Clone)]
pub struct KeyboardInfo {
    /// The name under which the layout is found and selected.
    pub id: String,
    /// The name that the layout shows.
    pub name: String,
}

/// The names of a listed layout.
pub struct InfoView {
    pub id: Seq<char>,
    pub name: Seq<char>,
}

impl View for KeyboardInfo {
    type V = InfoView;

    open spec fn view(&self) -> InfoView {
        InfoView { id: self.id@, name: self.name@ }
    }
}

/// The names of listed layouts.
pub open spec fn info_views(v: Seq<KeyboardInfo>) -> Seq<InfoView> {
    v.map_values(|k: KeyboardInfo| k@)
}

/// The layouts of `v`, each id with the first layout found under it, in the
/// order in which they were found.
pub open spec fn first_of_each(v: Seq<InfoView>) -> Seq<InfoView>
    decreases v.len(),
{
    if v.len() == 0 {
        Seq::empty()
    } else {
        let d = first_of_each(v.drop_last());
        if exists|i: int| 0 <= i < d.len() && (#[trigger] d[i]).id == v.last().id {
            d
        } else {
            d.push(v.last())
        }
    }
}

/// Each id comes before the next.
pub open spec fn ids_increasing(v: Seq<InfoView>) -> bool {
    forall|i: int, j: int| 0 <= i < j < v.len() ==> key_lt(#[trigger] v[i].id, #[trigger] v[j].id)
}

/// A copy of a listed layout.
fn copy_info(k: &KeyboardInfo) -> (r: KeyboardInfo)
    ensures
        r@ == k@,
{
    KeyboardInfo { id: k.id.clone(), name: k.name.clone() }
}

/// The registry of keyboard layouts.
pub struct KeyboardRegistry {
    layouts: Vec<KeyboardInfo>,
}

impl View for KeyboardRegistry {
    type V = Seq<InfoView>;

    closed spec fn view(&self) -> Seq<InfoView> {
        info_views(self.layouts@)
    }
}

impl KeyboardRegistry {
    #[verifier::type_invariant]
    spec fn ordered(self) -> bool {
        ids_increasing(info_views(self.layouts@))
    }

    /// The registry of the layouts `found`, in the order in which they were
    /// found: the first layout found under each id, listed in the order of the
    /// ids.
    pub fn from_found(found: Vec<KeyboardInfo>) -> (r: KeyboardRegistry)
        ensures
            r@.to_multiset() == first_of_each(info_views(found@)).to_multiset(),
            ids_increasing(r@),
    {
        let ghost fv = info_views(found@);
        let mut r: Vec<KeyboardInfo> = Vec::new();
        let n = found.len();
        let mut i: usize = 0;
        assert(fv.take(0) =~= Seq::<InfoView>::empty());
        assert(info_views(r@) =~= Seq::<InfoView>::empty());
        while i < n
            invariant
                n == found@.len(),
                fv == info_views(found@),
                i <= n,
                ids_increasing(info_views(r@)),
                info_views(r@).to_multiset() == first_of_each(fv.take(i as int)).to_multiset(),
            decreases n - i,
        {
            let x = copy_info(&found[i]);
            let xid = chars_of(x.id.as_str());
            let ghost rv = info_views(r@);
            let ghost d = first_of_each(fv.take(i as int));
            assert(fv.take(i + 1).drop_last() =~= fv.take(i as int));
            assert(fv.take(i + 1).last() == x@);
            let mut p: usize = 0;
            let mut present = false;
            while p < r.len()
                invariant
                    rv == info_views(r@),
                    xid@ == x@.id,
                    p <= r@.len(),
                    present ==> exists|q: int| 0 <= q < rv.len() && (#[trigger] rv[q]).id == x@.id,
                    !present ==> forall|q: int| 0 <= q < p ==> (#[trigger] rv[q]).id != x@.id,
                decreases r@.len() - p,
            {
                if r[p].id == x.id {
                    assert(rv[p as int].id == x@.id);
                    present = true;
                }
                p = p + 1;
            }
            proof {
                // Both hold the same layouts, so an id is in one exactly when it is in
                // the other.
                assert forall|y: InfoView| rv.contains(y) <==> d.contains(y) by {
                    vstd::seq_lib::to_multiset_contains(rv, y);
                    vstd::seq_lib::to_multiset_contains(d, y);
                }
            }
            if present {
                proof {
                    let q = choose|q: int| 0 <= q < rv.len() && (#[trigger] rv[q]).id == x@.id;
                    assert(rv.contains(rv[q]));
                    let k = choose|k: int| 0 <= k < d.len() && d[k] == rv[q];
                    assert(d[k].id == x@.id);
                    assert(first_of_each(fv.take(i + 1)) == d);
                }
            } else {
                let mut p: usize = 0;
                while p < r.len() && chars_lt(&chars_of(r[p].id.as_str()), &xid)
                    invariant
                        rv == info_views(r@),
                        xid@ == x@.id,
                        p <= r@.len(),
                        forall|q: int| 0 <= q < p ==> key_lt(#[trigger] rv[q].id, x@.id),
                    decreases r@.len() - p,
                {
                    p = p + 1;
                }
                let ghost xv = x@;
                r.insert(p, x);
                proof {
                    assert(!exists|k: int| 0 <= k < d.len() && (#[trigger] d[k]).id == xv.id) by {
                        if exists|k: int| 0 <= k < d.len() && (#[trigger] d[k]).id == xv.id {
                            let k = choose|k: int| 0 <= k < d.len() && (#[trigger] d[k]).id == xv.id;
                            assert(d.contains(d[k]));
                            let q = choose|q: int| 0 <= q < rv.len() && rv[q] == d[k];
                            assert(rv[q].id == xv.id);
                        }
                    }
                    assert(first_of_each(fv.take(i + 1)) == d.push(xv));
                    let nr = info_views(r@);
                    assert(nr =~= rv.insert(p as int, xv));
                    assert forall|a: int, b: int| 0 <= a < b < nr.len() implies key_lt(
                        #[trigger] nr[a].id,
                        #[trigger] nr[b].id,
                    ) by {
                        if b < p {
                        } else if b == p {
                        } else if a < p {
                            assert(key_lt(rv[a].id, xv.id));
                            assert(key_lt(rv[a].id, rv[b - 1].id));
                        } else if a == p {
                            if p < rv.len() {
                                lemma_key_lt_total(rv[p as int].id, xv.id);
                                assert(!key_lt(rv[p as int].id, xv.id));
                                assert(rv[p as int].id != xv.id);
                                if b - 1 > p {
                                    assert(key_lt(rv[p as int].id, rv[b - 1].id));
                                    lemma_key_lt_transitive(xv.id, rv[p as int].id, rv[b - 1].id);
                                }
                            }
                        } else {
                            assert(key_lt(rv[a - 1].id, rv[b - 1].id));
                        }
                    }
                    vstd::seq_lib::to_multiset_insert(rv, p as int, xv);
                    vstd::seq_lib::to_multiset_build(d, xv);
                }
            }
            i = i + 1;
        }
        assert(fv.take(n as int) =~= fv);
        KeyboardRegistry { layouts: r }
    }

    /// The listed layouts, in the order of their ids.
    pub fn list(&self) -> (r: &[KeyboardInfo])
        ensures
            info_views(r@) == self@,
    {
        self.layouts.as_slice()
    }

    /// The layout listed under `id`, if any.
    pub fn get(&self, id: &str) -> (r: Option<KeyboardInfo>)
        ensures
            match r {
                Some(k) => exists|i: int| 0 <= i < self@.len() && self@[i] == k@ && k@.id == id@,
                None => forall|i: int| 0 <= i < self@.len() ==> (#[trigger] self@[i]).id != id@,
            },
    {
        let key = String::from_str(id);
        let mut i: usize = 0;
        while i < self.layouts.len()
            invariant
                key@ == id@,
                i <= self@.len(),
                self@ == info_views(self.layouts@),
                forall|q: int| 0 <= q < i ==> (#[trigger] self@[q]).id != id@,
            decreases self@.len() - i,
        {
            if self.layouts[i].id == key {
                let k = copy_info(&self.layouts[i]);
                assert(self@[i as int] == k@);
                return Some(k);
            }
            i = i + 1;
        }
        None
    }
}

/// No two listed layouts share an id, so at most one is found under an id.
pub proof fn lemma_ids_unique(v: Seq<InfoView>, i: int, j: int)
    requires
        ids_increasing(v),
        0 <= i < v.len(),
        0 <= j < v.len(),
        v[i].id == v[j].id,
    ensures
        i == j,
{
    if i < j {
        lemma_key_lt_irreflexive(v[i].id);
    } else if j < i {
        lemma_key_lt_irreflexive(v[i].id);
    }
}

} // verus!
