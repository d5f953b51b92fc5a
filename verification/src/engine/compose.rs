//! How jamo combine: compound consonants and vowels, precomposed syllables,
//! and the values that a key of a keyboard layout stands for.

use vstd::prelude::*;
use vstd::arithmetic::div_mod::lemma_fundamental_div_mod_converse;

use crate::engine::jamo::{
    char_from_u32, choseong_to_jongseong, group_jamo_index, spec_choseong_to_jongseong,
    Choseong, Jongseong, Jungseong,
};
use crate::engine::options::InputOptions;
use crate::char_utils::{cjamo_to_jamo, spec_cjamo_to_jamo};
use crate::text::{chars_of, string_push};

verus! {

broadcast use {group_jamo_index, vstd::utf8::char_u32_cast};

/// How a final consonant splits when a vowel follows it.
#[derive(Clone, Copy, Debug, PartialEq, Eq, Structural)]
pub enum JongseongToChoseong {
    /// The whole consonant becomes the initial of the next syllable.
    Direct(Choseong),
    /// The first part stays as the final; the second becomes the next initial.
    Compose(Jongseong, Choseong),
}

impl Choseong {
    /// The jamo is archaic: it is not one of the 19 modern initials.
    pub open spec fn spec_is_old(self) -> bool {
        self.index() > 18
    }

    /// The jamo is archaic: it is not one of the 19 modern initials.
    pub fn is_old(self) -> (r: bool)
        ensures
            r == self.spec_is_old(),
    {
        self.ordinal() > 18
    }

    /// The initial consonant that `self` followed by `other` forms: the tense
    /// consonant of a doubled stroke when that option is on, an archaic cluster in
    /// old Hangul mode, and ㅊ for ㅊ followed by ㅎ.
    pub open spec fn spec_try_add(self, other: Choseong, opts: InputOptions) -> Option<Choseong> {
        if opts.combi_on_double_stroke && Choseong::spec_doubled(self, other) is Some {
            Choseong::spec_doubled(self, other)
        } else if opts.old_jamo && Choseong::spec_old_cluster(self, other) is Some {
            Choseong::spec_old_cluster(self, other)
        } else if self == Choseong::Chieuch && other == Choseong::Hieuh {
            Some(Choseong::Chieuch)
        } else {
            None
        }
    }

    /// The initial consonant that `self` followed by `other` forms, if any.
    pub fn try_add(self, other: Choseong, opts: InputOptions) -> (r: Option<Choseong>)
        ensures
            r == self.spec_try_add(other, opts),
    {
        if opts.combi_on_double_stroke {
            if let Some(r) = Choseong::doubled(self, other) {
                return Some(r);
            }
        }
        if opts.old_jamo {
            if let Some(r) = Choseong::old_cluster(self, other) {
                return Some(r);
            }
        }
        match (self, other) {
            (Choseong::Chieuch, Choseong::Hieuh) => Some(Choseong::Chieuch),
            _ => None,
        }
    }

    /// The precomposed syllable, or the conjoining jamo in a row where no
    /// precomposed syllable exists.
    pub fn compose(self, jungseong: Jungseong, jongseong: Option<Jongseong>) -> (s: String)
        ensures
            s@ == spec_compose(self, jungseong, jongseong),
    {
        let mut s = String::new();
        let ci = self.ordinal();
        let ji = jungseong.ordinal();
        let (fi, modern_final): (u32, bool) = match jongseong {
            Some(x) => {
                let o = x.ordinal();
                (o + 1, o < 27)
            },
            None => (0, true),
        };
        if ci < 19 && ji < 21 && modern_final {
            assert(ci * 588 <= 18 * 588 && ji * 28 <= 20 * 28) by (nonlinear_arith)
                requires
                    ci < 19,
                    ji < 21,
            ;
            let n: u32 = 0xAC00 + ci * 588 + ji * 28 + fi;
            assert(n == syllable_code(self, jungseong, jongseong) as u32);
            match char_from_u32(n) {
                Some(ch) => {
                    proof {
                        vstd::utf8::char_u32_cast(ch, n);
                    }
                    string_push(&mut s, ch);
                },
                None => {
                    assert(false);
                },
            }
        } else {
            let c = self.to_char();
            assert(c == self.code() as char);
            string_push(&mut s, c);
            let j = jungseong.to_char();
            assert(j == jungseong.code() as char);
            string_push(&mut s, j);
            if let Some(x) = jongseong {
                let f = x.to_char();
                assert(f == x.code() as char);
                string_push(&mut s, f);
            }
            assert(s@ == jamo_chars(self, jungseong, jongseong));
        }
        s
    }

    /// The initial, medial and final jamo of the precomposed syllable `ch`.
    pub fn decompose(ch: char) -> (r: Option<(Choseong, Jungseong, Option<Jongseong>)>)
        ensures
            r == spec_decompose(ch),
    {
        let n = ch as u32;
        if n < 0xAC00 {
            return None;
        }
        let offset = n - 0xAC00;
        let choseong = match Choseong::from_ordinal(offset / 588) {
            Some(c) => c,
            None => return None,
        };
        let offset = offset % 588;
        let jungseong = match Jungseong::from_ordinal(offset / 28) {
            Some(j) => j,
            None => return None,
        };
        let offset = offset % 28;
        if offset == 0 {
            Some((choseong, jungseong, None))
        } else {
            match Jongseong::from_ordinal(offset - 1) {
                Some(f) => Some((choseong, jungseong, Some(f))),
                None => None,
            }
        }
    }
}

/// The amount that the final consonant adds to a syllable's code point.
pub open spec fn final_offset(f: Option<Jongseong>) -> int {
    match f {
        Some(x) => x.index() + 1int,
        None => 0,
    }
}

/// The code point of the precomposed syllable of `c`, `j` and `f`.
pub open spec fn syllable_code(c: Choseong, j: Jungseong, f: Option<Jongseong>) -> int {
    0xAC00 + c.index() * 588 + j.index() * 28 + final_offset(f)
}

/// The precomposed syllable of `c`, `j` and `f`.
pub open spec fn syllable_char(c: Choseong, j: Jungseong, f: Option<Jongseong>) -> char {
    (syllable_code(c, j, f) as u32) as char
}

/// All three jamo are modern, so that a precomposed syllable exists for them.
pub open spec fn is_modern_syllable(c: Choseong, j: Jungseong, f: Option<Jongseong>) -> bool {
    &&& c.index() < 19
    &&& j.index() < 21
    &&& match f {
        Some(x) => x.index() < 27,
        None => true,
    }
}

/// The conjoining jamo of a syllable, in order.
pub open spec fn jamo_chars(c: Choseong, j: Jungseong, f: Option<Jongseong>) -> Seq<char> {
    seq![c.code() as char, j.code() as char] + match f {
        Some(x) => seq![x.code() as char],
        None => Seq::empty(),
    }
}

/// What `Choseong::compose` writes: the precomposed syllable where one exists,
/// the conjoining jamo otherwise.
pub open spec fn spec_compose(c: Choseong, j: Jungseong, f: Option<Jongseong>) -> Seq<char> {
    if is_modern_syllable(c, j, f) {
        seq![syllable_char(c, j, f)]
    } else {
        jamo_chars(c, j, f)
    }
}

/// What `Choseong::decompose` computes from the offset of `ch` from U+AC00.
pub open spec fn spec_decompose(ch: char) -> Option<(Choseong, Jungseong, Option<Jongseong>)> {
    let n = ch as u32;
    if n < 0xAC00 {
        None
    } else {
        let offset = (n - 0xAC00) as u32;
        let rest = offset % 588;
        match (Choseong::at_index(offset / 588), Jungseong::at_index(rest / 28)) {
            (Some(c), Some(j)) => if rest % 28 == 0 {
                Some((c, j, None))
            } else {
                match Jongseong::at_index((rest % 28 - 1) as u32) {
                    Some(f) => Some((c, j, Some(f))),
                    None => None,
                }
            },
            _ => None,
        }
    }
}

/// Decomposing a composed modern syllable gives back its jamo.
pub proof fn lemma_decompose_compose(c: Choseong, j: Jungseong, f: Option<Jongseong>)
    requires
        is_modern_syllable(c, j, f),
    ensures
        0xAC00 <= syllable_code(c, j, f) <= 0xD7A3,
        spec_compose(c, j, f) == seq![syllable_char(c, j, f)],
        spec_decompose(syllable_char(c, j, f)) == Some((c, j, f)),
{
    let ci = c.index() as int;
    let ji = j.index() as int;
    let t = final_offset(f);
    assert(0 <= ci * 588 <= 18 * 588 && 0 <= ji * 28 <= 20 * 28) by (nonlinear_arith)
        requires
            0 <= ci < 19,
            0 <= ji < 21,
    ;
    let rest = ji * 28 + t;
    let offset = ci * 588 + rest;
    lemma_fundamental_div_mod_converse(offset, 588, ci, rest);
    lemma_fundamental_div_mod_converse(rest, 28, ji, t);
    let ch = syllable_char(c, j, f);
    assert(ch as u32 == syllable_code(c, j, f));
}

/// Every precomposed syllable decomposes into modern jamo that compose back to it.
pub proof fn lemma_compose_decompose(ch: char)
    requires
        0xAC00 <= ch as u32 <= 0xD7A3,
    ensures
        spec_decompose(ch) matches Some((c, j, f)) && is_modern_syllable(c, j, f)
            && syllable_code(c, j, f) == ch as u32 && spec_compose(c, j, f) == seq![ch],
{
    let offset = (ch as u32 - 0xAC00) as int;
    let ci = offset / 588;
    let rest = offset % 588;
    let ji = rest / 28;
    let t = rest % 28;
    vstd::arithmetic::div_mod::lemma_fundamental_div_mod(offset, 588);
    vstd::arithmetic::div_mod::lemma_fundamental_div_mod(rest, 28);
    assert(0 <= ci < 19) by (nonlinear_arith)
        requires
            0 <= offset <= 11171,
            offset == 588 * ci + rest,
            0 <= rest < 588,
    ;
    assert(0 <= ji < 21) by (nonlinear_arith)
        requires
            0 <= rest < 588,
            rest == 28 * ji + t,
            0 <= t < 28,
    ;
    let c = Choseong::at_index(ci as u32)->0;
    let j = Jungseong::at_index(ji as u32)->0;
    let f = if t == 0 { None } else { Some(Jongseong::at_index((t - 1) as u32)->0) };
    assert(spec_decompose(ch) == Some((c, j, f)));
    assert(syllable_code(c, j, f) == ch as u32) by (nonlinear_arith)
        requires
            syllable_code(c, j, f) == 0xAC00 + ci * 588 + ji * 28 + t,
            offset == 588 * ci + rest,
            rest == 28 * ji + t,
            offset == ch as u32 - 0xAC00,
    ;
}

impl Choseong {
    /// The tense consonant that a consonant typed twice gives.
    #[verifier::opaque]
    pub open spec fn spec_doubled(a: Choseong, b: Choseong) -> Option<Choseong> {
        match (a, b) {
            (Choseong::Kiyeok, Choseong::Kiyeok) => Some(Choseong::SsangKiyeok),
            (Choseong::Pieup, Choseong::Pieup) => Some(Choseong::SsangPieup),
            (Choseong::Sios, Choseong::Sios) => Some(Choseong::SsangSios),
            (Choseong::Cieuc, Choseong::Cieuc) => Some(Choseong::SsangCieuc),
            (Choseong::Tikeut, Choseong::Tikeut) => Some(Choseong::SsangTikeut),
            _ => None,
        }
    }

    /// The tense consonant that a consonant typed twice gives.
    pub fn doubled(a: Choseong, b: Choseong) -> (r: Option<Choseong>)
        ensures
            r == Choseong::spec_doubled(a, b),
    {
        proof {
            reveal(Choseong::spec_doubled);
        }
        match (a, b) {
            (Choseong::Kiyeok, Choseong::Kiyeok) => Some(Choseong::SsangKiyeok),
            (Choseong::Pieup, Choseong::Pieup) => Some(Choseong::SsangPieup),
            (Choseong::Sios, Choseong::Sios) => Some(Choseong::SsangSios),
            (Choseong::Cieuc, Choseong::Cieuc) => Some(Choseong::SsangCieuc),
            (Choseong::Tikeut, Choseong::Tikeut) => Some(Choseong::SsangTikeut),
            _ => None,
        }
    }

    /// The archaic initial cluster that two initial consonants form.
    #[verifier::opaque]
    pub open spec fn spec_old_cluster(a: Choseong, b: Choseong) -> Option<Choseong> {
        match (a, b) {
            (Choseong::Kiyeok, Choseong::Kiyeok) => Some(Choseong::SsangKiyeok),
            (Choseong::Kiyeok, Choseong::Tikeut) => Some(Choseong::KiyeokTikeut),
            (Choseong::Nieun, Choseong::Kiyeok) => Some(Choseong::NieunKiyeok),
            (Choseong::Nieun, Choseong::Nieun) => Some(Choseong::SsangNieun),
            (Choseong::Nieun, Choseong::Tikeut) => Some(Choseong::NieunTikeut),
            (Choseong::Nieun, Choseong::Pieup) => Some(Choseong::NieunPieup),
            (Choseong::Nieun, Choseong::Sios) => Some(Choseong::NieunSios),
            (Choseong::Nieun, Choseong::Cieuc) => Some(Choseong::NieunCieuc),
            (Choseong::Nieun, Choseong::Hieuh) => Some(Choseong::NieunHieuh),
            (Choseong::Tikeut, Choseong::Kiyeok) => Some(Choseong::TikeutKiyeok),
            (Choseong::Tikeut, Choseong::Tikeut) => Some(Choseong::SsangTikeut),
            (Choseong::Tikeut, Choseong::Rieul) => Some(Choseong::TikeutRieul),
            (Choseong::Tikeut, Choseong::Mieum) => Some(Choseong::TikeutMieum),
            (Choseong::Tikeut, Choseong::Pieup) => Some(Choseong::TikeutPieup),
            (Choseong::Tikeut, Choseong::Sios) => Some(Choseong::TikeutSios),
            (Choseong::Tikeut, Choseong::Cieuc) => Some(Choseong::TikeutCieuc),
            (Choseong::Rieul, Choseong::Kiyeok) => Some(Choseong::RieulKiyeok),
            (Choseong::Rieul, Choseong::SsangKiyeok) => Some(Choseong::RieulSsangKiyeok),
            (Choseong::Rieul, Choseong::Nieun) => Some(Choseong::RieulNieun),
            (Choseong::Rieul, Choseong::Tikeut) => Some(Choseong::RieulTikeut),
            (Choseong::Rieul, Choseong::SsangTikeut) => Some(Choseong::RieulSsangTikeut),
            (Choseong::Rieul, Choseong::Rieul) => Some(Choseong::SsangRieul),
            (Choseong::Rieul, Choseong::Mieum) => Some(Choseong::RieulMieum),
            (Choseong::Rieul, Choseong::Pieup) => Some(Choseong::RieulPieup),
            (Choseong::Rieul, Choseong::SsangPieup) => Some(Choseong::RieulSsangPieup),
            (Choseong::Rieul, Choseong::Sios) => Some(Choseong::RieulSios),
            (Choseong::Rieul, Choseong::Ieung) => Some(Choseong::KapyeounRieul),
            (Choseong::Rieul, Choseong::Cieuc) => Some(Choseong::RieulCieuc),
            (Choseong::Rieul, Choseong::Khieukh) => Some(Choseong::RieulKhieukh),
            (Choseong::Rieul, Choseong::Hieuh) => Some(Choseong::RieulHieuh),
            (Choseong::Rieul, Choseong::KapyeounPieup) => Some(Choseong::RieulKapyeounPieup),
            (Choseong::Mieum, Choseong::Kiyeok) => Some(Choseong::MieumKiyeok),
            (Choseong::Mieum, Choseong::Tikeut) => Some(Choseong::MieumTikeut),
            (Choseong::Mieum, Choseong::Pieup) => Some(Choseong::MieumPieup),
            (Choseong::Mieum, Choseong::Sios) => Some(Choseong::MieumSios),
            (Choseong::Mieum, Choseong::Ieung) => Some(Choseong::KapyeounMieum),
            (Choseong::Pieup, Choseong::Kiyeok) => Some(Choseong::PieupKiyeok),
            (Choseong::Pieup, Choseong::Nieun) => Some(Choseong::PieupNieun),
            (Choseong::Pieup, Choseong::Tikeut) => Some(Choseong::PieupTikeut),
            (Choseong::Pieup, Choseong::Pieup) => Some(Choseong::SsangPieup),
            (Choseong::Pieup, Choseong::Sios) => Some(Choseong::PieupSios),
            (Choseong::Pieup, Choseong::SsangSios) => Some(Choseong::PieupSsangSios),
            (Choseong::Pieup, Choseong::Ieung) => Some(Choseong::KapyeounPieup),
            (Choseong::Pieup, Choseong::Cieuc) => Some(Choseong::PieupCieuc),
            (Choseong::Pieup, Choseong::Chieuch) => Some(Choseong::PieupChieuch),
            (Choseong::Pieup, Choseong::Khieukh) => Some(Choseong::PieupKhieukh),
            (Choseong::Pieup, Choseong::Thieuth) => Some(Choseong::PieupThieuth),
            (Choseong::Pieup, Choseong::Phieuph) => Some(Choseong::PieupPhieuph),
            (Choseong::Pieup, Choseong::Hieuh) => Some(Choseong::PieupHieuh),
            (Choseong::Pieup, Choseong::KapyeounPieup) => Some(Choseong::KapyeounSsangPieup),
            (Choseong::Pieup, Choseong::SiosKiyeok) => Some(Choseong::PieupSiosKiyeok),
            (Choseong::Pieup, Choseong::SiosTikeut) => Some(Choseong::PieupSiosTikeut),
            (Choseong::Pieup, Choseong::SiosPieup) => Some(Choseong::PieupSiosPieup),
            (Choseong::Pieup, Choseong::SiosCieuc) => Some(Choseong::PieupSiosCieuc),
            (Choseong::Pieup, Choseong::SiosThieuth) => Some(Choseong::PieupSiosThieuth),
            (Choseong::SsangPieup, Choseong::Ieung) => Some(Choseong::KapyeounSsangPieup),
            (Choseong::Sios, Choseong::Kiyeok) => Some(Choseong::SiosKiyeok),
            (Choseong::Sios, Choseong::Nieun) => Some(Choseong::SiosNieun),
            (Choseong::Sios, Choseong::Tikeut) => Some(Choseong::SiosTikeut),
            (Choseong::Sios, Choseong::Rieul) => Some(Choseong::SiosRieul),
            (Choseong::Sios, Choseong::Mieum) => Some(Choseong::SiosMieum),
            (Choseong::Sios, Choseong::Pieup) => Some(Choseong::SiosPieup),
            (Choseong::Sios, Choseong::Sios) => Some(Choseong::SsangSios),
            (Choseong::Sios, Choseong::SsangSios) => Some(Choseong::SiosSsangSios),
            (Choseong::Sios, Choseong::Ieung) => Some(Choseong::SiosIeung),
            (Choseong::Sios, Choseong::Cieuc) => Some(Choseong::SiosCieuc),
            (Choseong::Sios, Choseong::Chieuch) => Some(Choseong::SiosChieuch),
            (Choseong::Sios, Choseong::Khieukh) => Some(Choseong::SiosKhieukh),
            (Choseong::Sios, Choseong::Thieuth) => Some(Choseong::SiosThieuth),
            (Choseong::Sios, Choseong::Phieuph) => Some(Choseong::SiosPhieuph),
            (Choseong::Sios, Choseong::Hieuh) => Some(Choseong::SiosHieuh),
            (Choseong::Sios, Choseong::PieupKiyeok) => Some(Choseong::SiosPieupKiyeok),
            (Choseong::Sios, Choseong::SiosPieup) => Some(Choseong::SsangSiosPieup),
            (Choseong::SsangSios, Choseong::Pieup) => Some(Choseong::SsangSiosPieup),
            (Choseong::SsangSios, Choseong::Sios) => Some(Choseong::SiosSsangSios),
            (Choseong::Ieung, Choseong::Kiyeok) => Some(Choseong::IeungKiyeok),
            (Choseong::Ieung, Choseong::Tikeut) => Some(Choseong::IeungTikeut),
            (Choseong::Ieung, Choseong::Rieul) => Some(Choseong::IeungRieul),
            (Choseong::Ieung, Choseong::Mieum) => Some(Choseong::IeungMieum),
            (Choseong::Ieung, Choseong::Pieup) => Some(Choseong::IeungPieup),
            (Choseong::Ieung, Choseong::Sios) => Some(Choseong::IeungSios),
            (Choseong::Ieung, Choseong::Ieung) => Some(Choseong::SsangIeung),
            (Choseong::Ieung, Choseong::Cieuc) => Some(Choseong::IeungCieuc),
            (Choseong::Ieung, Choseong::Chieuch) => Some(Choseong::IeungChieuch),
            (Choseong::Ieung, Choseong::Thieuth) => Some(Choseong::IeungThieuth),
            (Choseong::Ieung, Choseong::Phieuph) => Some(Choseong::IeungPhieuph),
            (Choseong::Ieung, Choseong::Hieuh) => Some(Choseong::IeungHieuh),
            (Choseong::Ieung, Choseong::Pansios) => Some(Choseong::IeungPansios),
            (Choseong::Cieuc, Choseong::Ieung) => Some(Choseong::CieucIeung),
            (Choseong::Cieuc, Choseong::Cieuc) => Some(Choseong::SsangCieuc),
            (Choseong::SsangCieuc, Choseong::Hieuh) => Some(Choseong::SsangCieucHieuh),
            (Choseong::Chieuch, Choseong::Khieukh) => Some(Choseong::ChieuchKhieukh),
            (Choseong::Chieuch, Choseong::Hieuh) => Some(Choseong::ChieuchHieuh),
            (Choseong::Thieuth, Choseong::Thieuth) => Some(Choseong::SsangThieuth),
            (Choseong::Phieuph, Choseong::Pieup) => Some(Choseong::PhieuphPieup),
            (Choseong::Phieuph, Choseong::Ieung) => Some(Choseong::KapyeounPhieuph),
            (Choseong::Phieuph, Choseong::Hieuh) => Some(Choseong::PhieuphHieuh),
            (Choseong::Hieuh, Choseong::Sios) => Some(Choseong::HieuhSios),
            (Choseong::Hieuh, Choseong::Hieuh) => Some(Choseong::SsangHieuh),
            (Choseong::PieupSios, Choseong::Kiyeok) => Some(Choseong::PieupSiosKiyeok),
            (Choseong::PieupSios, Choseong::Tikeut) => Some(Choseong::PieupSiosTikeut),
            (Choseong::PieupSios, Choseong::Pieup) => Some(Choseong::PieupSiosPieup),
            (Choseong::PieupSios, Choseong::Sios) => Some(Choseong::PieupSsangSios),
            (Choseong::PieupSios, Choseong::Cieuc) => Some(Choseong::PieupSiosCieuc),
            (Choseong::PieupSios, Choseong::Thieuth) => Some(Choseong::PieupSiosThieuth),
            (Choseong::SiosPieup, Choseong::Kiyeok) => Some(Choseong::SiosPieupKiyeok),
            (Choseong::ChitueumSios, Choseong::ChitueumSios) => Some(Choseong::ChitueumSsangSios),
            (Choseong::CeongchieumSios, Choseong::CeongchieumSios) => Some(Choseong::CeongchieumSsangSios),
            (Choseong::ChitueumCieuc, Choseong::ChitueumCieuc) => Some(Choseong::ChitueumSsangCieuc),
            (Choseong::CeongchieumCieuc, Choseong::CeongchieumCieuc) => Some(Choseong::CeongchieumSsangCieuc),
            (Choseong::Yeorinhieuh, Choseong::Yeorinhieuh) => Some(Choseong::SsangYeorinhieuh),
            (Choseong::RieulKiyeok, Choseong::Kiyeok) => Some(Choseong::RieulSsangKiyeok),
            (Choseong::RieulTikeut, Choseong::Tikeut) => Some(Choseong::RieulSsangTikeut),
            (Choseong::RieulPieup, Choseong::Pieup) => Some(Choseong::RieulSsangPieup),
            (Choseong::RieulPieup, Choseong::Ieung) => Some(Choseong::RieulKapyeounPieup),
            _ => None,
        }
    }

    /// The archaic initial cluster that two initial consonants form.
    pub fn old_cluster(a: Choseong, b: Choseong) -> (r: Option<Choseong>)
        ensures
            r == Choseong::spec_old_cluster(a, b),
    {
        proof {
            reveal(Choseong::spec_old_cluster);
        }
        match (a, b) {
            (Choseong::Kiyeok, Choseong::Kiyeok) => Some(Choseong::SsangKiyeok),
            (Choseong::Kiyeok, Choseong::Tikeut) => Some(Choseong::KiyeokTikeut),
            (Choseong::Nieun, Choseong::Kiyeok) => Some(Choseong::NieunKiyeok),
            (Choseong::Nieun, Choseong::Nieun) => Some(Choseong::SsangNieun),
            (Choseong::Nieun, Choseong::Tikeut) => Some(Choseong::NieunTikeut),
            (Choseong::Nieun, Choseong::Pieup) => Some(Choseong::NieunPieup),
            (Choseong::Nieun, Choseong::Sios) => Some(Choseong::NieunSios),
            (Choseong::Nieun, Choseong::Cieuc) => Some(Choseong::NieunCieuc),
            (Choseong::Nieun, Choseong::Hieuh) => Some(Choseong::NieunHieuh),
            (Choseong::Tikeut, Choseong::Kiyeok) => Some(Choseong::TikeutKiyeok),
            (Choseong::Tikeut, Choseong::Tikeut) => Some(Choseong::SsangTikeut),
            (Choseong::Tikeut, Choseong::Rieul) => Some(Choseong::TikeutRieul),
            (Choseong::Tikeut, Choseong::Mieum) => Some(Choseong::TikeutMieum),
            (Choseong::Tikeut, Choseong::Pieup) => Some(Choseong::TikeutPieup),
            (Choseong::Tikeut, Choseong::Sios) => Some(Choseong::TikeutSios),
            (Choseong::Tikeut, Choseong::Cieuc) => Some(Choseong::TikeutCieuc),
            (Choseong::Rieul, Choseong::Kiyeok) => Some(Choseong::RieulKiyeok),
            (Choseong::Rieul, Choseong::SsangKiyeok) => Some(Choseong::RieulSsangKiyeok),
            (Choseong::Rieul, Choseong::Nieun) => Some(Choseong::RieulNieun),
            (Choseong::Rieul, Choseong::Tikeut) => Some(Choseong::RieulTikeut),
            (Choseong::Rieul, Choseong::SsangTikeut) => Some(Choseong::RieulSsangTikeut),
            (Choseong::Rieul, Choseong::Rieul) => Some(Choseong::SsangRieul),
            (Choseong::Rieul, Choseong::Mieum) => Some(Choseong::RieulMieum),
            (Choseong::Rieul, Choseong::Pieup) => Some(Choseong::RieulPieup),
            (Choseong::Rieul, Choseong::SsangPieup) => Some(Choseong::RieulSsangPieup),
            (Choseong::Rieul, Choseong::Sios) => Some(Choseong::RieulSios),
            (Choseong::Rieul, Choseong::Ieung) => Some(Choseong::KapyeounRieul),
            (Choseong::Rieul, Choseong::Cieuc) => Some(Choseong::RieulCieuc),
            (Choseong::Rieul, Choseong::Khieukh) => Some(Choseong::RieulKhieukh),
            (Choseong::Rieul, Choseong::Hieuh) => Some(Choseong::RieulHieuh),
            (Choseong::Rieul, Choseong::KapyeounPieup) => Some(Choseong::RieulKapyeounPieup),
            (Choseong::Mieum, Choseong::Kiyeok) => Some(Choseong::MieumKiyeok),
            (Choseong::Mieum, Choseong::Tikeut) => Some(Choseong::MieumTikeut),
            (Choseong::Mieum, Choseong::Pieup) => Some(Choseong::MieumPieup),
            (Choseong::Mieum, Choseong::Sios) => Some(Choseong::MieumSios),
            (Choseong::Mieum, Choseong::Ieung) => Some(Choseong::KapyeounMieum),
            (Choseong::Pieup, Choseong::Kiyeok) => Some(Choseong::PieupKiyeok),
            (Choseong::Pieup, Choseong::Nieun) => Some(Choseong::PieupNieun),
            (Choseong::Pieup, Choseong::Tikeut) => Some(Choseong::PieupTikeut),
            (Choseong::Pieup, Choseong::Pieup) => Some(Choseong::SsangPieup),
            (Choseong::Pieup, Choseong::Sios) => Some(Choseong::PieupSios),
            (Choseong::Pieup, Choseong::SsangSios) => Some(Choseong::PieupSsangSios),
            (Choseong::Pieup, Choseong::Ieung) => Some(Choseong::KapyeounPieup),
            (Choseong::Pieup, Choseong::Cieuc) => Some(Choseong::PieupCieuc),
            (Choseong::Pieup, Choseong::Chieuch) => Some(Choseong::PieupChieuch),
            (Choseong::Pieup, Choseong::Khieukh) => Some(Choseong::PieupKhieukh),
            (Choseong::Pieup, Choseong::Thieuth) => Some(Choseong::PieupThieuth),
            (Choseong::Pieup, Choseong::Phieuph) => Some(Choseong::PieupPhieuph),
            (Choseong::Pieup, Choseong::Hieuh) => Some(Choseong::PieupHieuh),
            (Choseong::Pieup, Choseong::KapyeounPieup) => Some(Choseong::KapyeounSsangPieup),
            (Choseong::Pieup, Choseong::SiosKiyeok) => Some(Choseong::PieupSiosKiyeok),
            (Choseong::Pieup, Choseong::SiosTikeut) => Some(Choseong::PieupSiosTikeut),
            (Choseong::Pieup, Choseong::SiosPieup) => Some(Choseong::PieupSiosPieup),
            (Choseong::Pieup, Choseong::SiosCieuc) => Some(Choseong::PieupSiosCieuc),
            (Choseong::Pieup, Choseong::SiosThieuth) => Some(Choseong::PieupSiosThieuth),
            (Choseong::SsangPieup, Choseong::Ieung) => Some(Choseong::KapyeounSsangPieup),
            (Choseong::Sios, Choseong::Kiyeok) => Some(Choseong::SiosKiyeok),
            (Choseong::Sios, Choseong::Nieun) => Some(Choseong::SiosNieun),
            (Choseong::Sios, Choseong::Tikeut) => Some(Choseong::SiosTikeut),
            (Choseong::Sios, Choseong::Rieul) => Some(Choseong::SiosRieul),
            (Choseong::Sios, Choseong::Mieum) => Some(Choseong::SiosMieum),
            (Choseong::Sios, Choseong::Pieup) => Some(Choseong::SiosPieup),
            (Choseong::Sios, Choseong::Sios) => Some(Choseong::SsangSios),
            (Choseong::Sios, Choseong::SsangSios) => Some(Choseong::SiosSsangSios),
            (Choseong::Sios, Choseong::Ieung) => Some(Choseong::SiosIeung),
            (Choseong::Sios, Choseong::Cieuc) => Some(Choseong::SiosCieuc),
            (Choseong::Sios, Choseong::Chieuch) => Some(Choseong::SiosChieuch),
            (Choseong::Sios, Choseong::Khieukh) => Some(Choseong::SiosKhieukh),
            (Choseong::Sios, Choseong::Thieuth) => Some(Choseong::SiosThieuth),
            (Choseong::Sios, Choseong::Phieuph) => Some(Choseong::SiosPhieuph),
            (Choseong::Sios, Choseong::Hieuh) => Some(Choseong::SiosHieuh),
            (Choseong::Sios, Choseong::PieupKiyeok) => Some(Choseong::SiosPieupKiyeok),
            (Choseong::Sios, Choseong::SiosPieup) => Some(Choseong::SsangSiosPieup),
            (Choseong::SsangSios, Choseong::Pieup) => Some(Choseong::SsangSiosPieup),
            (Choseong::SsangSios, Choseong::Sios) => Some(Choseong::SiosSsangSios),
            (Choseong::Ieung, Choseong::Kiyeok) => Some(Choseong::IeungKiyeok),
            (Choseong::Ieung, Choseong::Tikeut) => Some(Choseong::IeungTikeut),
            (Choseong::Ieung, Choseong::Rieul) => Some(Choseong::IeungRieul),
            (Choseong::Ieung, Choseong::Mieum) => Some(Choseong::IeungMieum),
            (Choseong::Ieung, Choseong::Pieup) => Some(Choseong::IeungPieup),
            (Choseong::Ieung, Choseong::Sios) => Some(Choseong::IeungSios),
            (Choseong::Ieung, Choseong::Ieung) => Some(Choseong::SsangIeung),
            (Choseong::Ieung, Choseong::Cieuc) => Some(Choseong::IeungCieuc),
            (Choseong::Ieung, Choseong::Chieuch) => Some(Choseong::IeungChieuch),
            (Choseong::Ieung, Choseong::Thieuth) => Some(Choseong::IeungThieuth),
            (Choseong::Ieung, Choseong::Phieuph) => Some(Choseong::IeungPhieuph),
            (Choseong::Ieung, Choseong::Hieuh) => Some(Choseong::IeungHieuh),
            (Choseong::Ieung, Choseong::Pansios) => Some(Choseong::IeungPansios),
            (Choseong::Cieuc, Choseong::Ieung) => Some(Choseong::CieucIeung),
            (Choseong::Cieuc, Choseong::Cieuc) => Some(Choseong::SsangCieuc),
            (Choseong::SsangCieuc, Choseong::Hieuh) => Some(Choseong::SsangCieucHieuh),
            (Choseong::Chieuch, Choseong::Khieukh) => Some(Choseong::ChieuchKhieukh),
            (Choseong::Chieuch, Choseong::Hieuh) => Some(Choseong::ChieuchHieuh),
            (Choseong::Thieuth, Choseong::Thieuth) => Some(Choseong::SsangThieuth),
            (Choseong::Phieuph, Choseong::Pieup) => Some(Choseong::PhieuphPieup),
            (Choseong::Phieuph, Choseong::Ieung) => Some(Choseong::KapyeounPhieuph),
            (Choseong::Phieuph, Choseong::Hieuh) => Some(Choseong::PhieuphHieuh),
            (Choseong::Hieuh, Choseong::Sios) => Some(Choseong::HieuhSios),
            (Choseong::Hieuh, Choseong::Hieuh) => Some(Choseong::SsangHieuh),
            (Choseong::PieupSios, Choseong::Kiyeok) => Some(Choseong::PieupSiosKiyeok),
            (Choseong::PieupSios, Choseong::Tikeut) => Some(Choseong::PieupSiosTikeut),
            (Choseong::PieupSios, Choseong::Pieup) => Some(Choseong::PieupSiosPieup),
            (Choseong::PieupSios, Choseong::Sios) => Some(Choseong::PieupSsangSios),
            (Choseong::PieupSios, Choseong::Cieuc) => Some(Choseong::PieupSiosCieuc),
            (Choseong::PieupSios, Choseong::Thieuth) => Some(Choseong::PieupSiosThieuth),
            (Choseong::SiosPieup, Choseong::Kiyeok) => Some(Choseong::SiosPieupKiyeok),
            (Choseong::ChitueumSios, Choseong::ChitueumSios) => Some(Choseong::ChitueumSsangSios),
            (Choseong::CeongchieumSios, Choseong::CeongchieumSios) => Some(Choseong::CeongchieumSsangSios),
            (Choseong::ChitueumCieuc, Choseong::ChitueumCieuc) => Some(Choseong::ChitueumSsangCieuc),
            (Choseong::CeongchieumCieuc, Choseong::CeongchieumCieuc) => Some(Choseong::CeongchieumSsangCieuc),
            (Choseong::Yeorinhieuh, Choseong::Yeorinhieuh) => Some(Choseong::SsangYeorinhieuh),
            (Choseong::RieulKiyeok, Choseong::Kiyeok) => Some(Choseong::RieulSsangKiyeok),
            (Choseong::RieulTikeut, Choseong::Tikeut) => Some(Choseong::RieulSsangTikeut),
            (Choseong::RieulPieup, Choseong::Pieup) => Some(Choseong::RieulSsangPieup),
            (Choseong::RieulPieup, Choseong::Ieung) => Some(Choseong::RieulKapyeounPieup),
            _ => None,
        }
    }

}

impl Jungseong {
    /// The modern compound vowel that two vowels form.
    #[verifier::opaque]
    pub open spec fn spec_modern_cluster(a: Jungseong, b: Jungseong) -> Option<Jungseong> {
        match (a, b) {
            (Jungseong::A, Jungseong::I) => Some(Jungseong::Ae),
            (Jungseong::Ya, Jungseong::I) => Some(Jungseong::Yae),
            (Jungseong::Eo, Jungseong::I) => Some(Jungseong::E),
            (Jungseong::Yeo, Jungseong::I) => Some(Jungseong::Ye),
            (Jungseong::O, Jungseong::A) => Some(Jungseong::Wa),
            (Jungseong::O, Jungseong::I) => Some(Jungseong::Oe),
            (Jungseong::O, Jungseong::Ae) => Some(Jungseong::Wae),
            (Jungseong::Wa, Jungseong::I) => Some(Jungseong::Wae),
            (Jungseong::U, Jungseong::Eo) => Some(Jungseong::Weo),
            (Jungseong::U, Jungseong::I) => Some(Jungseong::Wi),
            (Jungseong::U, Jungseong::E) => Some(Jungseong::We),
            (Jungseong::Weo, Jungseong::I) => Some(Jungseong::We),
            (Jungseong::Eu, Jungseong::I) => Some(Jungseong::Yi),
            _ => None,
        }
    }

    /// The modern compound vowel that two vowels form.
    pub fn modern_cluster(a: Jungseong, b: Jungseong) -> (r: Option<Jungseong>)
        ensures
            r == Jungseong::spec_modern_cluster(a, b),
    {
        proof {
            reveal(Jungseong::spec_modern_cluster);
        }
        match (a, b) {
            (Jungseong::A, Jungseong::I) => Some(Jungseong::Ae),
            (Jungseong::Ya, Jungseong::I) => Some(Jungseong::Yae),
            (Jungseong::Eo, Jungseong::I) => Some(Jungseong::E),
            (Jungseong::Yeo, Jungseong::I) => Some(Jungseong::Ye),
            (Jungseong::O, Jungseong::A) => Some(Jungseong::Wa),
            (Jungseong::O, Jungseong::I) => Some(Jungseong::Oe),
            (Jungseong::O, Jungseong::Ae) => Some(Jungseong::Wae),
            (Jungseong::Wa, Jungseong::I) => Some(Jungseong::Wae),
            (Jungseong::U, Jungseong::Eo) => Some(Jungseong::Weo),
            (Jungseong::U, Jungseong::I) => Some(Jungseong::Wi),
            (Jungseong::U, Jungseong::E) => Some(Jungseong::We),
            (Jungseong::Weo, Jungseong::I) => Some(Jungseong::We),
            (Jungseong::Eu, Jungseong::I) => Some(Jungseong::Yi),
            _ => None,
        }
    }

    /// The archaic compound vowel that two vowels form.
    #[verifier::opaque]
    pub open spec fn spec_old_cluster(a: Jungseong, b: Jungseong) -> Option<Jungseong> {
        match (a, b) {
            (Jungseong::Yi, Jungseong::U) => Some(Jungseong::YiU),
            (Jungseong::I, Jungseong::A) => Some(Jungseong::IA),
            (Jungseong::I, Jungseong::Ya) => Some(Jungseong::IYa),
            (Jungseong::I, Jungseong::Yae) => Some(Jungseong::IYae),
            (Jungseong::I, Jungseong::Yeo) => Some(Jungseong::IYeo),
            (Jungseong::I, Jungseong::Ye) => Some(Jungseong::IYe),
            (Jungseong::I, Jungseong::O) => Some(Jungseong::IO),
            (Jungseong::I, Jungseong::Yo) => Some(Jungseong::IYo),
            (Jungseong::I, Jungseong::U) => Some(Jungseong::IU),
            (Jungseong::I, Jungseong::Yu) => Some(Jungseong::IYu),
            (Jungseong::I, Jungseong::Eu) => Some(Jungseong::IEu),
            (Jungseong::I, Jungseong::I) => Some(Jungseong::II),
            (Jungseong::I, Jungseong::IYaO) => Some(Jungseong::IYaO),
            (Jungseong::I, Jungseong::Araea) => Some(Jungseong::IAraea),
            (Jungseong::OO, Jungseong::I) => Some(Jungseong::OOI),
            (Jungseong::IYa, Jungseong::O) => Some(Jungseong::IYaO),
            (Jungseong::IO, Jungseong::I) => Some(Jungseong::IOI),
            (Jungseong::Araea, Jungseong::A) => Some(Jungseong::AraeaA),
            (Jungseong::Araea, Jungseong::Eo) => Some(Jungseong::AraeaEo),
            (Jungseong::Araea, Jungseong::E) => Some(Jungseong::AraeaE),
            (Jungseong::Araea, Jungseong::U) => Some(Jungseong::AraeaU),
            (Jungseong::Araea, Jungseong::I) => Some(Jungseong::AraeaI),
            (Jungseong::Araea, Jungseong::Araea) => Some(Jungseong::SsangAraea),
            (Jungseong::AraeaA, Jungseong::A) => Some(Jungseong::SsangAraea),
            (Jungseong::A, Jungseong::A) => Some(Jungseong::Araea),
            (Jungseong::A, Jungseong::O) => Some(Jungseong::AO),
            (Jungseong::A, Jungseong::U) => Some(Jungseong::AU),
            (Jungseong::A, Jungseong::Eu) => Some(Jungseong::AEu),
            (Jungseong::Ya, Jungseong::O) => Some(Jungseong::YaO),
            (Jungseong::Ya, Jungseong::Yo) => Some(Jungseong::YaYo),
            (Jungseong::Ya, Jungseong::U) => Some(Jungseong::YaU),
            (Jungseong::Eo, Jungseong::O) => Some(Jungseong::EoO),
            (Jungseong::Eo, Jungseong::U) => Some(Jungseong::EoU),
            (Jungseong::Eo, Jungseong::Eu) => Some(Jungseong::EoEu),
            (Jungseong::Yeo, Jungseong::Ya) => Some(Jungseong::YeoYa),
            (Jungseong::Yeo, Jungseong::O) => Some(Jungseong::YeoO),
            (Jungseong::Yeo, Jungseong::U) => Some(Jungseong::YeoU),
            (Jungseong::O, Jungseong::Ya) => Some(Jungseong::OYa),
            (Jungseong::O, Jungseong::Yae) => Some(Jungseong::OYae),
            (Jungseong::O, Jungseong::Eo) => Some(Jungseong::OEo),
            (Jungseong::O, Jungseong::E) => Some(Jungseong::OE),
            (Jungseong::O, Jungseong::Yeo) => Some(Jungseong::OYeo),
            (Jungseong::O, Jungseong::Ye) => Some(Jungseong::OYe),
            (Jungseong::O, Jungseong::O) => Some(Jungseong::OO),
            (Jungseong::O, Jungseong::U) => Some(Jungseong::OU),
            (Jungseong::Yo, Jungseong::A) => Some(Jungseong::YoA),
            (Jungseong::Yo, Jungseong::Ae) => Some(Jungseong::YoAe),
            (Jungseong::Yo, Jungseong::Ya) => Some(Jungseong::YoYa),
            (Jungseong::Yo, Jungseong::Yae) => Some(Jungseong::YoYae),
            (Jungseong::Yo, Jungseong::Eo) => Some(Jungseong::YoEo),
            (Jungseong::Yo, Jungseong::Yeo) => Some(Jungseong::YoYeo),
            (Jungseong::Yo, Jungseong::O) => Some(Jungseong::YoO),
            (Jungseong::Yo, Jungseong::I) => Some(Jungseong::YoI),
            (Jungseong::U, Jungseong::A) => Some(Jungseong::UA),
            (Jungseong::U, Jungseong::Ae) => Some(Jungseong::UAe),
            (Jungseong::U, Jungseong::Yeo) => Some(Jungseong::UYeo),
            (Jungseong::U, Jungseong::Ye) => Some(Jungseong::UYe),
            (Jungseong::U, Jungseong::U) => Some(Jungseong::UU),
            (Jungseong::U, Jungseong::EoEu) => Some(Jungseong::UEoEu),
            (Jungseong::U, Jungseong::II) => Some(Jungseong::UII),
            (Jungseong::Weo, Jungseong::Eu) => Some(Jungseong::UEoEu),
            (Jungseong::Wi, Jungseong::I) => Some(Jungseong::UII),
            (Jungseong::Yu, Jungseong::A) => Some(Jungseong::YuA),
            (Jungseong::Yu, Jungseong::Ae) => Some(Jungseong::YuAe),
            (Jungseong::Yu, Jungseong::Eo) => Some(Jungseong::YuEo),
            (Jungseong::Yu, Jungseong::E) => Some(Jungseong::YuE),
            (Jungseong::Yu, Jungseong::Yeo) => Some(Jungseong::YuYeo),
            (Jungseong::Yu, Jungseong::Ye) => Some(Jungseong::YuYe),
            (Jungseong::Yu, Jungseong::O) => Some(Jungseong::YuO),
            (Jungseong::Yu, Jungseong::U) => Some(Jungseong::YuU),
            (Jungseong::Yu, Jungseong::I) => Some(Jungseong::YuI),
            (Jungseong::Eu, Jungseong::A) => Some(Jungseong::EuA),
            (Jungseong::Eu, Jungseong::Eo) => Some(Jungseong::EuEo),
            (Jungseong::Eu, Jungseong::E) => Some(Jungseong::EuE),
            (Jungseong::Eu, Jungseong::O) => Some(Jungseong::EuO),
            (Jungseong::Eu, Jungseong::U) => Some(Jungseong::EuU),
            (Jungseong::Eu, Jungseong::Eu) => Some(Jungseong::EuEu),
            _ => None,
        }
    }

    /// The archaic compound vowel that two vowels form.
    pub fn old_cluster(a: Jungseong, b: Jungseong) -> (r: Option<Jungseong>)
        ensures
            r == Jungseong::spec_old_cluster(a, b),
    {
        proof {
            reveal(Jungseong::spec_old_cluster);
        }
        match (a, b) {
            (Jungseong::Yi, Jungseong::U) => Some(Jungseong::YiU),
            (Jungseong::I, Jungseong::A) => Some(Jungseong::IA),
            (Jungseong::I, Jungseong::Ya) => Some(Jungseong::IYa),
            (Jungseong::I, Jungseong::Yae) => Some(Jungseong::IYae),
            (Jungseong::I, Jungseong::Yeo) => Some(Jungseong::IYeo),
            (Jungseong::I, Jungseong::Ye) => Some(Jungseong::IYe),
            (Jungseong::I, Jungseong::O) => Some(Jungseong::IO),
            (Jungseong::I, Jungseong::Yo) => Some(Jungseong::IYo),
            (Jungseong::I, Jungseong::U) => Some(Jungseong::IU),
            (Jungseong::I, Jungseong::Yu) => Some(Jungseong::IYu),
            (Jungseong::I, Jungseong::Eu) => Some(Jungseong::IEu),
            (Jungseong::I, Jungseong::I) => Some(Jungseong::II),
            (Jungseong::I, Jungseong::IYaO) => Some(Jungseong::IYaO),
            (Jungseong::I, Jungseong::Araea) => Some(Jungseong::IAraea),
            (Jungseong::OO, Jungseong::I) => Some(Jungseong::OOI),
            (Jungseong::IYa, Jungseong::O) => Some(Jungseong::IYaO),
            (Jungseong::IO, Jungseong::I) => Some(Jungseong::IOI),
            (Jungseong::Araea, Jungseong::A) => Some(Jungseong::AraeaA),
            (Jungseong::Araea, Jungseong::Eo) => Some(Jungseong::AraeaEo),
            (Jungseong::Araea, Jungseong::E) => Some(Jungseong::AraeaE),
            (Jungseong::Araea, Jungseong::U) => Some(Jungseong::AraeaU),
            (Jungseong::Araea, Jungseong::I) => Some(Jungseong::AraeaI),
            (Jungseong::Araea, Jungseong::Araea) => Some(Jungseong::SsangAraea),
            (Jungseong::AraeaA, Jungseong::A) => Some(Jungseong::SsangAraea),
            (Jungseong::A, Jungseong::A) => Some(Jungseong::Araea),
            (Jungseong::A, Jungseong::O) => Some(Jungseong::AO),
            (Jungseong::A, Jungseong::U) => Some(Jungseong::AU),
            (Jungseong::A, Jungseong::Eu) => Some(Jungseong::AEu),
            (Jungseong::Ya, Jungseong::O) => Some(Jungseong::YaO),
            (Jungseong::Ya, Jungseong::Yo) => Some(Jungseong::YaYo),
            (Jungseong::Ya, Jungseong::U) => Some(Jungseong::YaU),
            (Jungseong::Eo, Jungseong::O) => Some(Jungseong::EoO),
            (Jungseong::Eo, Jungseong::U) => Some(Jungseong::EoU),
            (Jungseong::Eo, Jungseong::Eu) => Some(Jungseong::EoEu),
            (Jungseong::Yeo, Jungseong::Ya) => Some(Jungseong::YeoYa),
            (Jungseong::Yeo, Jungseong::O) => Some(Jungseong::YeoO),
            (Jungseong::Yeo, Jungseong::U) => Some(Jungseong::YeoU),
            (Jungseong::O, Jungseong::Ya) => Some(Jungseong::OYa),
            (Jungseong::O, Jungseong::Yae) => Some(Jungseong::OYae),
            (Jungseong::O, Jungseong::Eo) => Some(Jungseong::OEo),
            (Jungseong::O, Jungseong::E) => Some(Jungseong::OE),
            (Jungseong::O, Jungseong::Yeo) => Some(Jungseong::OYeo),
            (Jungseong::O, Jungseong::Ye) => Some(Jungseong::OYe),
            (Jungseong::O, Jungseong::O) => Some(Jungseong::OO),
            (Jungseong::O, Jungseong::U) => Some(Jungseong::OU),
            (Jungseong::Yo, Jungseong::A) => Some(Jungseong::YoA),
            (Jungseong::Yo, Jungseong::Ae) => Some(Jungseong::YoAe),
            (Jungseong::Yo, Jungseong::Ya) => Some(Jungseong::YoYa),
            (Jungseong::Yo, Jungseong::Yae) => Some(Jungseong::YoYae),
            (Jungseong::Yo, Jungseong::Eo) => Some(Jungseong::YoEo),
            (Jungseong::Yo, Jungseong::Yeo) => Some(Jungseong::YoYeo),
            (Jungseong::Yo, Jungseong::O) => Some(Jungseong::YoO),
            (Jungseong::Yo, Jungseong::I) => Some(Jungseong::YoI),
            (Jungseong::U, Jungseong::A) => Some(Jungseong::UA),
            (Jungseong::U, Jungseong::Ae) => Some(Jungseong::UAe),
            (Jungseong::U, Jungseong::Yeo) => Some(Jungseong::UYeo),
            (Jungseong::U, Jungseong::Ye) => Some(Jungseong::UYe),
            (Jungseong::U, Jungseong::U) => Some(Jungseong::UU),
            (Jungseong::U, Jungseong::EoEu) => Some(Jungseong::UEoEu),
            (Jungseong::U, Jungseong::II) => Some(Jungseong::UII),
            (Jungseong::Weo, Jungseong::Eu) => Some(Jungseong::UEoEu),
            (Jungseong::Wi, Jungseong::I) => Some(Jungseong::UII),
            (Jungseong::Yu, Jungseong::A) => Some(Jungseong::YuA),
            (Jungseong::Yu, Jungseong::Ae) => Some(Jungseong::YuAe),
            (Jungseong::Yu, Jungseong::Eo) => Some(Jungseong::YuEo),
            (Jungseong::Yu, Jungseong::E) => Some(Jungseong::YuE),
            (Jungseong::Yu, Jungseong::Yeo) => Some(Jungseong::YuYeo),
            (Jungseong::Yu, Jungseong::Ye) => Some(Jungseong::YuYe),
            (Jungseong::Yu, Jungseong::O) => Some(Jungseong::YuO),
            (Jungseong::Yu, Jungseong::U) => Some(Jungseong::YuU),
            (Jungseong::Yu, Jungseong::I) => Some(Jungseong::YuI),
            (Jungseong::Eu, Jungseong::A) => Some(Jungseong::EuA),
            (Jungseong::Eu, Jungseong::Eo) => Some(Jungseong::EuEo),
            (Jungseong::Eu, Jungseong::E) => Some(Jungseong::EuE),
            (Jungseong::Eu, Jungseong::O) => Some(Jungseong::EuO),
            (Jungseong::Eu, Jungseong::U) => Some(Jungseong::EuU),
            (Jungseong::Eu, Jungseong::Eu) => Some(Jungseong::EuEu),
            _ => None,
        }
    }

}

impl Jongseong {
    /// The tense final consonant that a final consonant typed twice gives.
    #[verifier::opaque]
    pub open spec fn spec_doubled(a: Jongseong, b: Jongseong) -> Option<Jongseong> {
        match (a, b) {
            (Jongseong::Kiyeok, Jongseong::Kiyeok) => Some(Jongseong::SsangKiyeok),
            (Jongseong::Sios, Jongseong::Sios) => Some(Jongseong::SsangSios),
            _ => None,
        }
    }

    /// The tense final consonant that a final consonant typed twice gives.
    pub fn doubled(a: Jongseong, b: Jongseong) -> (r: Option<Jongseong>)
        ensures
            r == Jongseong::spec_doubled(a, b),
    {
        proof {
            reveal(Jongseong::spec_doubled);
        }
        match (a, b) {
            (Jongseong::Kiyeok, Jongseong::Kiyeok) => Some(Jongseong::SsangKiyeok),
            (Jongseong::Sios, Jongseong::Sios) => Some(Jongseong::SsangSios),
            _ => None,
        }
    }

    /// The modern final cluster that two final consonants form.
    #[verifier::opaque]
    pub open spec fn spec_modern_cluster(a: Jongseong, b: Jongseong) -> Option<Jongseong> {
        match (a, b) {
            (Jongseong::Kiyeok, Jongseong::Sios) => Some(Jongseong::KiyeokSios),
            (Jongseong::Nieun, Jongseong::Hieuh) => Some(Jongseong::NieunHieuh),
            (Jongseong::Nieun, Jongseong::Cieuc) => Some(Jongseong::NieunCieuc),
            (Jongseong::Rieul, Jongseong::Kiyeok) => Some(Jongseong::RieulKiyeok),
            (Jongseong::Rieul, Jongseong::Mieum) => Some(Jongseong::RieulMieum),
            (Jongseong::Rieul, Jongseong::Pieup) => Some(Jongseong::RieulPieup),
            (Jongseong::Rieul, Jongseong::Sios) => Some(Jongseong::RieulSios),
            (Jongseong::Rieul, Jongseong::Thieuth) => Some(Jongseong::RieulThieuth),
            (Jongseong::Rieul, Jongseong::Phieuph) => Some(Jongseong::RieulPhieuph),
            (Jongseong::Rieul, Jongseong::Hieuh) => Some(Jongseong::RieulHieuh),
            (Jongseong::Pieup, Jongseong::Sios) => Some(Jongseong::PieupSios),
            _ => None,
        }
    }

    /// The modern final cluster that two final consonants form.
    pub fn modern_cluster(a: Jongseong, b: Jongseong) -> (r: Option<Jongseong>)
        ensures
            r == Jongseong::spec_modern_cluster(a, b),
    {
        proof {
            reveal(Jongseong::spec_modern_cluster);
        }
        match (a, b) {
            (Jongseong::Kiyeok, Jongseong::Sios) => Some(Jongseong::KiyeokSios),
            (Jongseong::Nieun, Jongseong::Hieuh) => Some(Jongseong::NieunHieuh),
            (Jongseong::Nieun, Jongseong::Cieuc) => Some(Jongseong::NieunCieuc),
            (Jongseong::Rieul, Jongseong::Kiyeok) => Some(Jongseong::RieulKiyeok),
            (Jongseong::Rieul, Jongseong::Mieum) => Some(Jongseong::RieulMieum),
            (Jongseong::Rieul, Jongseong::Pieup) => Some(Jongseong::RieulPieup),
            (Jongseong::Rieul, Jongseong::Sios) => Some(Jongseong::RieulSios),
            (Jongseong::Rieul, Jongseong::Thieuth) => Some(Jongseong::RieulThieuth),
            (Jongseong::Rieul, Jongseong::Phieuph) => Some(Jongseong::RieulPhieuph),
            (Jongseong::Rieul, Jongseong::Hieuh) => Some(Jongseong::RieulHieuh),
            (Jongseong::Pieup, Jongseong::Sios) => Some(Jongseong::PieupSios),
            _ => None,
        }
    }

    /// The archaic final cluster that two final consonants form.
    #[verifier::opaque]
    pub open spec fn spec_old_cluster(a: Jongseong, b: Jongseong) -> Option<Jongseong> {
        match (a, b) {
            (Jongseong::Kiyeok, Jongseong::Kiyeok) => Some(Jongseong::SsangKiyeok),
            (Jongseong::Kiyeok, Jongseong::Nieun) => Some(Jongseong::KiyeokNieun),
            (Jongseong::Kiyeok, Jongseong::Rieul) => Some(Jongseong::KiyeokRieul),
            (Jongseong::Kiyeok, Jongseong::Pieup) => Some(Jongseong::KiyeokPieup),
            (Jongseong::Kiyeok, Jongseong::Sios) => Some(Jongseong::KiyeokSios),
            (Jongseong::Kiyeok, Jongseong::Chieuch) => Some(Jongseong::KiyeokChieuch),
            (Jongseong::Kiyeok, Jongseong::Khieukh) => Some(Jongseong::KiyeokKhieukh),
            (Jongseong::Kiyeok, Jongseong::Hieuh) => Some(Jongseong::KiyeokHieuh),
            (Jongseong::Kiyeok, Jongseong::SiosKiyeok) => Some(Jongseong::KiyeokSiosKiyeok),
            (Jongseong::KiyeokSios, Jongseong::Kiyeok) => Some(Jongseong::KiyeokSiosKiyeok),
            (Jongseong::Nieun, Jongseong::Kiyeok) => Some(Jongseong::NieunKiyeok),
            (Jongseong::Nieun, Jongseong::Nieun) => Some(Jongseong::SsangNieun),
            (Jongseong::Nieun, Jongseong::Tikeut) => Some(Jongseong::NieunTikeut),
            (Jongseong::Nieun, Jongseong::Rieul) => Some(Jongseong::NieunRieul),
            (Jongseong::Nieun, Jongseong::Sios) => Some(Jongseong::NieunSios),
            (Jongseong::Nieun, Jongseong::Cieuc) => Some(Jongseong::NieunCieuc),
            (Jongseong::Nieun, Jongseong::Chieuch) => Some(Jongseong::NieunChieuch),
            (Jongseong::Nieun, Jongseong::Thieuth) => Some(Jongseong::NieunThieuth),
            (Jongseong::Nieun, Jongseong::Hieuh) => Some(Jongseong::NieunHieuh),
            (Jongseong::Nieun, Jongseong::Pansios) => Some(Jongseong::NieunPansios),
            (Jongseong::Tikeut, Jongseong::Kiyeok) => Some(Jongseong::TikeutKiyeok),
            (Jongseong::Tikeut, Jongseong::Tikeut) => Some(Jongseong::SsangTikeut),
            (Jongseong::Tikeut, Jongseong::Rieul) => Some(Jongseong::TikeutRieul),
            (Jongseong::Tikeut, Jongseong::Pieup) => Some(Jongseong::TikeutPieup),
            (Jongseong::Tikeut, Jongseong::Sios) => Some(Jongseong::TikeutSios),
            (Jongseong::Tikeut, Jongseong::Cieuc) => Some(Jongseong::TikeutCieuc),
            (Jongseong::Tikeut, Jongseong::Chieuch) => Some(Jongseong::TikeutChieuch),
            (Jongseong::Tikeut, Jongseong::Thieuth) => Some(Jongseong::TikeutThieuth),
            (Jongseong::Tikeut, Jongseong::SiosKiyeok) => Some(Jongseong::TikeutSiosKiyeok),
            (Jongseong::Tikeut, Jongseong::TikeutPieup) => Some(Jongseong::SsangTikeutPieup),
            (Jongseong::Rieul, Jongseong::Kiyeok) => Some(Jongseong::RieulKiyeok),
            (Jongseong::Rieul, Jongseong::SsangKiyeok) => Some(Jongseong::RieulSsangKiyeok),
            (Jongseong::Rieul, Jongseong::KiyeokSios) => Some(Jongseong::RieulKiyeokSios),
            (Jongseong::Rieul, Jongseong::Nieun) => Some(Jongseong::RieulNieun),
            (Jongseong::Rieul, Jongseong::Tikeut) => Some(Jongseong::RieulTikeut),
            (Jongseong::Rieul, Jongseong::Rieul) => Some(Jongseong::SsangRieul),
            (Jongseong::Rieul, Jongseong::Mieum) => Some(Jongseong::RieulMieum),
            (Jongseong::Rieul, Jongseong::Pieup) => Some(Jongseong::RieulPieup),
            (Jongseong::Rieul, Jongseong::PieupSios) => Some(Jongseong::RieulPieupSios),
            (Jongseong::Rieul, Jongseong::Sios) => Some(Jongseong::RieulSios),
            (Jongseong::Rieul, Jongseong::SsangSios) => Some(Jongseong::RieulSsangSios),
            (Jongseong::Rieul, Jongseong::Ieung) => Some(Jongseong::KapyeounRieul),
            (Jongseong::Rieul, Jongseong::Khieukh) => Some(Jongseong::RieulKhieukh),
            (Jongseong::Rieul, Jongseong::Thieuth) => Some(Jongseong::RieulThieuth),
            (Jongseong::Rieul, Jongseong::Phieuph) => Some(Jongseong::RieulPhieuph),
            (Jongseong::Rieul, Jongseong::Hieuh) => Some(Jongseong::RieulHieuh),
            (Jongseong::Rieul, Jongseong::RieulKhieukh) => Some(Jongseong::SsangRieulKhieukh),
            (Jongseong::Rieul, Jongseong::MieumKiyeok) => Some(Jongseong::RieulMieumKiyeok),
            (Jongseong::Rieul, Jongseong::MieumSios) => Some(Jongseong::RieulMieumSios),
            (Jongseong::Rieul, Jongseong::MieumHieuh) => Some(Jongseong::RieulMieumHieuh),
            (Jongseong::Rieul, Jongseong::PieupPhieuph) => Some(Jongseong::RieulPieupPhieuph),
            (Jongseong::Rieul, Jongseong::PieupHieuh) => Some(Jongseong::RieulPieupHieuh),
            (Jongseong::Rieul, Jongseong::KapyeounPieup) => Some(Jongseong::RieulKapyeounPieup),
            (Jongseong::Rieul, Jongseong::Pansios) => Some(Jongseong::RieulPansios),
            (Jongseong::Rieul, Jongseong::Yesieung) => Some(Jongseong::RieulYesieung),
            (Jongseong::Rieul, Jongseong::Yeorinhieuh) => Some(Jongseong::RieulYeorinhieuh),
            (Jongseong::Rieul, Jongseong::KiyeokHieuh) => Some(Jongseong::RieulKiyeokHieuh),
            (Jongseong::Rieul, Jongseong::PieupTikeut) => Some(Jongseong::RieulPieupTikeut),
            (Jongseong::RieulKiyeok, Jongseong::Kiyeok) => Some(Jongseong::RieulSsangKiyeok),
            (Jongseong::RieulKiyeok, Jongseong::Sios) => Some(Jongseong::RieulKiyeokSios),
            (Jongseong::RieulKiyeok, Jongseong::Hieuh) => Some(Jongseong::RieulKiyeokHieuh),
            (Jongseong::RieulMieum, Jongseong::Kiyeok) => Some(Jongseong::RieulMieumKiyeok),
            (Jongseong::RieulMieum, Jongseong::Sios) => Some(Jongseong::RieulMieumSios),
            (Jongseong::RieulMieum, Jongseong::Hieuh) => Some(Jongseong::RieulMieumHieuh),
            (Jongseong::RieulPieup, Jongseong::Tikeut) => Some(Jongseong::RieulPieupTikeut),
            (Jongseong::RieulPieup, Jongseong::Sios) => Some(Jongseong::RieulPieupSios),
            (Jongseong::RieulPieup, Jongseong::Ieung) => Some(Jongseong::RieulKapyeounPieup),
            (Jongseong::RieulPieup, Jongseong::Phieuph) => Some(Jongseong::RieulPieupPhieuph),
            (Jongseong::RieulPieup, Jongseong::Hieuh) => Some(Jongseong::RieulPieupHieuh),
            (Jongseong::RieulSios, Jongseong::Sios) => Some(Jongseong::RieulSsangSios),
            (Jongseong::Mieum, Jongseong::Kiyeok) => Some(Jongseong::MieumKiyeok),
            (Jongseong::Mieum, Jongseong::Nieun) => Some(Jongseong::MieumNieun),
            (Jongseong::Mieum, Jongseong::Rieul) => Some(Jongseong::MieumRieul),
            (Jongseong::Mieum, Jongseong::Mieum) => Some(Jongseong::SsangMieum),
            (Jongseong::Mieum, Jongseong::Pieup) => Some(Jongseong::MieumPieup),
            (Jongseong::Mieum, Jongseong::PieupSios) => Some(Jongseong::MieumPieupSios),
            (Jongseong::Mieum, Jongseong::Sios) => Some(Jongseong::MieumSios),
            (Jongseong::Mieum, Jongseong::SsangSios) => Some(Jongseong::MieumSsangSios),
            (Jongseong::Mieum, Jongseong::Ieung) => Some(Jongseong::KapyeounMieum),
            (Jongseong::Mieum, Jongseong::Cieuc) => Some(Jongseong::MieumCieuc),
            (Jongseong::Mieum, Jongseong::Chieuch) => Some(Jongseong::MieumChieuch),
            (Jongseong::Mieum, Jongseong::Hieuh) => Some(Jongseong::MieumHieuh),
            (Jongseong::Mieum, Jongseong::Pansios) => Some(Jongseong::MieumPansios),
            (Jongseong::Mieum, Jongseong::SsangNieun) => Some(Jongseong::MieumSsangNieun),
            (Jongseong::Pieup, Jongseong::Tikeut) => Some(Jongseong::PieupTikeut),
            (Jongseong::Pieup, Jongseong::Rieul) => Some(Jongseong::PieupRieul),
            (Jongseong::Pieup, Jongseong::RieulPhieuph) => Some(Jongseong::PieupRieulPhieuph),
            (Jongseong::Pieup, Jongseong::Mieum) => Some(Jongseong::PieupMieum),
            (Jongseong::Pieup, Jongseong::Pieup) => Some(Jongseong::SsangPieup),
            (Jongseong::Pieup, Jongseong::Sios) => Some(Jongseong::PieupSios),
            (Jongseong::Pieup, Jongseong::Ieung) => Some(Jongseong::KapyeounPieup),
            (Jongseong::Pieup, Jongseong::Cieuc) => Some(Jongseong::PieupCieuc),
            (Jongseong::Pieup, Jongseong::Chieuch) => Some(Jongseong::PieupChieuch),
            (Jongseong::Pieup, Jongseong::Phieuph) => Some(Jongseong::PieupPhieuph),
            (Jongseong::Pieup, Jongseong::Hieuh) => Some(Jongseong::PieupHieuh),
            (Jongseong::Pieup, Jongseong::SiosTikeut) => Some(Jongseong::PieupSiosTikeut),
            (Jongseong::PieupSios, Jongseong::Tikeut) => Some(Jongseong::PieupSiosTikeut),
            (Jongseong::Sios, Jongseong::Kiyeok) => Some(Jongseong::SiosKiyeok),
            (Jongseong::Sios, Jongseong::Tikeut) => Some(Jongseong::SiosTikeut),
            (Jongseong::Sios, Jongseong::Rieul) => Some(Jongseong::SiosRieul),
            (Jongseong::Sios, Jongseong::Mieum) => Some(Jongseong::SiosMieum),
            (Jongseong::Sios, Jongseong::Pieup) => Some(Jongseong::SiosPieup),
            (Jongseong::Sios, Jongseong::Sios) => Some(Jongseong::SsangSios),
            (Jongseong::Sios, Jongseong::Cieuc) => Some(Jongseong::SiosCieuc),
            (Jongseong::Sios, Jongseong::Chieuch) => Some(Jongseong::SiosChieuch),
            (Jongseong::Sios, Jongseong::Thieuth) => Some(Jongseong::SiosThieuth),
            (Jongseong::Sios, Jongseong::Hieuh) => Some(Jongseong::SiosHieuh),
            (Jongseong::Sios, Jongseong::KapyeounPieup) => Some(Jongseong::SiosKapyeounPieup),
            (Jongseong::Sios, Jongseong::SiosKiyeok) => Some(Jongseong::SsangSiosKiyeok),
            (Jongseong::Sios, Jongseong::SiosTikeut) => Some(Jongseong::SsangSiosTikeut),
            (Jongseong::Sios, Jongseong::Pansios) => Some(Jongseong::SiosPansios),
            (Jongseong::SsangSios, Jongseong::Kiyeok) => Some(Jongseong::SsangSiosKiyeok),
            (Jongseong::SsangSios, Jongseong::Tikeut) => Some(Jongseong::SsangSiosTikeut),
            (Jongseong::Cieuc, Jongseong::Pieup) => Some(Jongseong::CieucPieup),
            (Jongseong::Cieuc, Jongseong::Cieuc) => Some(Jongseong::SsangCieuc),
            (Jongseong::Cieuc, Jongseong::SsangPieup) => Some(Jongseong::CieucSsangPieup),
            (Jongseong::Phieuph, Jongseong::Pieup) => Some(Jongseong::PhieuphPieup),
            (Jongseong::Phieuph, Jongseong::Sios) => Some(Jongseong::PhieuphSios),
            (Jongseong::Phieuph, Jongseong::Ieung) => Some(Jongseong::KapyeounPhieuph),
            (Jongseong::Phieuph, Jongseong::Thieuth) => Some(Jongseong::PhieuphThieuth),
            (Jongseong::Hieuh, Jongseong::Nieun) => Some(Jongseong::HieuhNieun),
            (Jongseong::Hieuh, Jongseong::Rieul) => Some(Jongseong::HieuhRieul),
            (Jongseong::Hieuh, Jongseong::Mieum) => Some(Jongseong::HieuhMieum),
            (Jongseong::Hieuh, Jongseong::Pieup) => Some(Jongseong::HieuhPieup),
            (Jongseong::RieulTikeut, Jongseong::Hieuh) => Some(Jongseong::RieulTikeutHieuh),
            (Jongseong::SsangRieul, Jongseong::Khieukh) => Some(Jongseong::SsangRieulKhieukh),
            (Jongseong::RieulYeorinhieuh, Jongseong::Hieuh) => Some(Jongseong::RieulYeorinhieuhHieuh),
            (Jongseong::MieumPieup, Jongseong::Sios) => Some(Jongseong::MieumPieupSios),
            (Jongseong::MieumSios, Jongseong::Sios) => Some(Jongseong::MieumSsangSios),
            (Jongseong::PieupRieul, Jongseong::Phieuph) => Some(Jongseong::PieupRieulPhieuph),
            (Jongseong::SiosPieup, Jongseong::Ieung) => Some(Jongseong::SiosKapyeounPieup),
            (Jongseong::Pansios, Jongseong::Pieup) => Some(Jongseong::PansiosPieup),
            (Jongseong::Pansios, Jongseong::KapyeounPieup) => Some(Jongseong::PansiosKapyeounPieup),
            (Jongseong::IeungKiyeok, Jongseong::Kiyeok) => Some(Jongseong::IeungSsangKiyeok),
            (Jongseong::Yesieung, Jongseong::Kiyeok) => Some(Jongseong::IeungKiyeok),
            (Jongseong::Yesieung, Jongseong::SsangKiyeok) => Some(Jongseong::IeungSsangKiyeok),
            (Jongseong::Yesieung, Jongseong::Mieum) => Some(Jongseong::YesieungMieum),
            (Jongseong::Yesieung, Jongseong::Sios) => Some(Jongseong::YesieungSios),
            (Jongseong::Yesieung, Jongseong::Khieukh) => Some(Jongseong::IeungKhieukh),
            (Jongseong::Yesieung, Jongseong::Hieuh) => Some(Jongseong::YesieungHieuh),
            (Jongseong::Yesieung, Jongseong::Pansios) => Some(Jongseong::YesieungPansios),
            (Jongseong::Yesieung, Jongseong::Yesieung) => Some(Jongseong::SsangIeung),
            (Jongseong::SsangTikeut, Jongseong::Pieup) => Some(Jongseong::SsangTikeutPieup),
            (Jongseong::TikeutSios, Jongseong::Kiyeok) => Some(Jongseong::TikeutSiosKiyeok),
            (Jongseong::MieumNieun, Jongseong::Nieun) => Some(Jongseong::MieumSsangNieun),
            (Jongseong::PansiosPieup, Jongseong::Ieung) => Some(Jongseong::PansiosKapyeounPieup),
            (Jongseong::CieucPieup, Jongseong::Pieup) => Some(Jongseong::CieucSsangPieup),
            _ => None,
        }
    }

    /// The archaic final cluster that two final consonants form.
    pub fn old_cluster(a: Jongseong, b: Jongseong) -> (r: Option<Jongseong>)
        ensures
            r == Jongseong::spec_old_cluster(a, b),
    {
        proof {
            reveal(Jongseong::spec_old_cluster);
        }
        match (a, b) {
            (Jongseong::Kiyeok, Jongseong::Kiyeok) => Some(Jongseong::SsangKiyeok),
            (Jongseong::Kiyeok, Jongseong::Nieun) => Some(Jongseong::KiyeokNieun),
            (Jongseong::Kiyeok, Jongseong::Rieul) => Some(Jongseong::KiyeokRieul),
            (Jongseong::Kiyeok, Jongseong::Pieup) => Some(Jongseong::KiyeokPieup),
            (Jongseong::Kiyeok, Jongseong::Sios) => Some(Jongseong::KiyeokSios),
            (Jongseong::Kiyeok, Jongseong::Chieuch) => Some(Jongseong::KiyeokChieuch),
            (Jongseong::Kiyeok, Jongseong::Khieukh) => Some(Jongseong::KiyeokKhieukh),
            (Jongseong::Kiyeok, Jongseong::Hieuh) => Some(Jongseong::KiyeokHieuh),
            (Jongseong::Kiyeok, Jongseong::SiosKiyeok) => Some(Jongseong::KiyeokSiosKiyeok),
            (Jongseong::KiyeokSios, Jongseong::Kiyeok) => Some(Jongseong::KiyeokSiosKiyeok),
            (Jongseong::Nieun, Jongseong::Kiyeok) => Some(Jongseong::NieunKiyeok),
            (Jongseong::Nieun, Jongseong::Nieun) => Some(Jongseong::SsangNieun),
            (Jongseong::Nieun, Jongseong::Tikeut) => Some(Jongseong::NieunTikeut),
            (Jongseong::Nieun, Jongseong::Rieul) => Some(Jongseong::NieunRieul),
            (Jongseong::Nieun, Jongseong::Sios) => Some(Jongseong::NieunSios),
            (Jongseong::Nieun, Jongseong::Cieuc) => Some(Jongseong::NieunCieuc),
            (Jongseong::Nieun, Jongseong::Chieuch) => Some(Jongseong::NieunChieuch),
            (Jongseong::Nieun, Jongseong::Thieuth) => Some(Jongseong::NieunThieuth),
            (Jongseong::Nieun, Jongseong::Hieuh) => Some(Jongseong::NieunHieuh),
            (Jongseong::Nieun, Jongseong::Pansios) => Some(Jongseong::NieunPansios),
            (Jongseong::Tikeut, Jongseong::Kiyeok) => Some(Jongseong::TikeutKiyeok),
            (Jongseong::Tikeut, Jongseong::Tikeut) => Some(Jongseong::SsangTikeut),
            (Jongseong::Tikeut, Jongseong::Rieul) => Some(Jongseong::TikeutRieul),
            (Jongseong::Tikeut, Jongseong::Pieup) => Some(Jongseong::TikeutPieup),
            (Jongseong::Tikeut, Jongseong::Sios) => Some(Jongseong::TikeutSios),
            (Jongseong::Tikeut, Jongseong::Cieuc) => Some(Jongseong::TikeutCieuc),
            (Jongseong::Tikeut, Jongseong::Chieuch) => Some(Jongseong::TikeutChieuch),
            (Jongseong::Tikeut, Jongseong::Thieuth) => Some(Jongseong::TikeutThieuth),
            (Jongseong::Tikeut, Jongseong::SiosKiyeok) => Some(Jongseong::TikeutSiosKiyeok),
            (Jongseong::Tikeut, Jongseong::TikeutPieup) => Some(Jongseong::SsangTikeutPieup),
            (Jongseong::Rieul, Jongseong::Kiyeok) => Some(Jongseong::RieulKiyeok),
            (Jongseong::Rieul, Jongseong::SsangKiyeok) => Some(Jongseong::RieulSsangKiyeok),
            (Jongseong::Rieul, Jongseong::KiyeokSios) => Some(Jongseong::RieulKiyeokSios),
            (Jongseong::Rieul, Jongseong::Nieun) => Some(Jongseong::RieulNieun),
            (Jongseong::Rieul, Jongseong::Tikeut) => Some(Jongseong::RieulTikeut),
            (Jongseong::Rieul, Jongseong::Rieul) => Some(Jongseong::SsangRieul),
            (Jongseong::Rieul, Jongseong::Mieum) => Some(Jongseong::RieulMieum),
            (Jongseong::Rieul, Jongseong::Pieup) => Some(Jongseong::RieulPieup),
            (Jongseong::Rieul, Jongseong::PieupSios) => Some(Jongseong::RieulPieupSios),
            (Jongseong::Rieul, Jongseong::Sios) => Some(Jongseong::RieulSios),
            (Jongseong::Rieul, Jongseong::SsangSios) => Some(Jongseong::RieulSsangSios),
            (Jongseong::Rieul, Jongseong::Ieung) => Some(Jongseong::KapyeounRieul),
            (Jongseong::Rieul, Jongseong::Khieukh) => Some(Jongseong::RieulKhieukh),
            (Jongseong::Rieul, Jongseong::Thieuth) => Some(Jongseong::RieulThieuth),
            (Jongseong::Rieul, Jongseong::Phieuph) => Some(Jongseong::RieulPhieuph),
            (Jongseong::Rieul, Jongseong::Hieuh) => Some(Jongseong::RieulHieuh),
            (Jongseong::Rieul, Jongseong::RieulKhieukh) => Some(Jongseong::SsangRieulKhieukh),
            (Jongseong::Rieul, Jongseong::MieumKiyeok) => Some(Jongseong::RieulMieumKiyeok),
            (Jongseong::Rieul, Jongseong::MieumSios) => Some(Jongseong::RieulMieumSios),
            (Jongseong::Rieul, Jongseong::MieumHieuh) => Some(Jongseong::RieulMieumHieuh),
            (Jongseong::Rieul, Jongseong::PieupPhieuph) => Some(Jongseong::RieulPieupPhieuph),
            (Jongseong::Rieul, Jongseong::PieupHieuh) => Some(Jongseong::RieulPieupHieuh),
            (Jongseong::Rieul, Jongseong::KapyeounPieup) => Some(Jongseong::RieulKapyeounPieup),
            (Jongseong::Rieul, Jongseong::Pansios) => Some(Jongseong::RieulPansios),
            (Jongseong::Rieul, Jongseong::Yesieung) => Some(Jongseong::RieulYesieung),
            (Jongseong::Rieul, Jongseong::Yeorinhieuh) => Some(Jongseong::RieulYeorinhieuh),
            (Jongseong::Rieul, Jongseong::KiyeokHieuh) => Some(Jongseong::RieulKiyeokHieuh),
            (Jongseong::Rieul, Jongseong::PieupTikeut) => Some(Jongseong::RieulPieupTikeut),
            (Jongseong::RieulKiyeok, Jongseong::Kiyeok) => Some(Jongseong::RieulSsangKiyeok),
            (Jongseong::RieulKiyeok, Jongseong::Sios) => Some(Jongseong::RieulKiyeokSios),
            (Jongseong::RieulKiyeok, Jongseong::Hieuh) => Some(Jongseong::RieulKiyeokHieuh),
            (Jongseong::RieulMieum, Jongseong::Kiyeok) => Some(Jongseong::RieulMieumKiyeok),
            (Jongseong::RieulMieum, Jongseong::Sios) => Some(Jongseong::RieulMieumSios),
            (Jongseong::RieulMieum, Jongseong::Hieuh) => Some(Jongseong::RieulMieumHieuh),
            (Jongseong::RieulPieup, Jongseong::Tikeut) => Some(Jongseong::RieulPieupTikeut),
            (Jongseong::RieulPieup, Jongseong::Sios) => Some(Jongseong::RieulPieupSios),
            (Jongseong::RieulPieup, Jongseong::Ieung) => Some(Jongseong::RieulKapyeounPieup),
            (Jongseong::RieulPieup, Jongseong::Phieuph) => Some(Jongseong::RieulPieupPhieuph),
            (Jongseong::RieulPieup, Jongseong::Hieuh) => Some(Jongseong::RieulPieupHieuh),
            (Jongseong::RieulSios, Jongseong::Sios) => Some(Jongseong::RieulSsangSios),
            (Jongseong::Mieum, Jongseong::Kiyeok) => Some(Jongseong::MieumKiyeok),
            (Jongseong::Mieum, Jongseong::Nieun) => Some(Jongseong::MieumNieun),
            (Jongseong::Mieum, Jongseong::Rieul) => Some(Jongseong::MieumRieul),
            (Jongseong::Mieum, Jongseong::Mieum) => Some(Jongseong::SsangMieum),
            (Jongseong::Mieum, Jongseong::Pieup) => Some(Jongseong::MieumPieup),
            (Jongseong::Mieum, Jongseong::PieupSios) => Some(Jongseong::MieumPieupSios),
            (Jongseong::Mieum, Jongseong::Sios) => Some(Jongseong::MieumSios),
            (Jongseong::Mieum, Jongseong::SsangSios) => Some(Jongseong::MieumSsangSios),
            (Jongseong::Mieum, Jongseong::Ieung) => Some(Jongseong::KapyeounMieum),
            (Jongseong::Mieum, Jongseong::Cieuc) => Some(Jongseong::MieumCieuc),
            (Jongseong::Mieum, Jongseong::Chieuch) => Some(Jongseong::MieumChieuch),
            (Jongseong::Mieum, Jongseong::Hieuh) => Some(Jongseong::MieumHieuh),
            (Jongseong::Mieum, Jongseong::Pansios) => Some(Jongseong::MieumPansios),
            (Jongseong::Mieum, Jongseong::SsangNieun) => Some(Jongseong::MieumSsangNieun),
            (Jongseong::Pieup, Jongseong::Tikeut) => Some(Jongseong::PieupTikeut),
            (Jongseong::Pieup, Jongseong::Rieul) => Some(Jongseong::PieupRieul),
            (Jongseong::Pieup, Jongseong::RieulPhieuph) => Some(Jongseong::PieupRieulPhieuph),
            (Jongseong::Pieup, Jongseong::Mieum) => Some(Jongseong::PieupMieum),
            (Jongseong::Pieup, Jongseong::Pieup) => Some(Jongseong::SsangPieup),
            (Jongseong::Pieup, Jongseong::Sios) => Some(Jongseong::PieupSios),
            (Jongseong::Pieup, Jongseong::Ieung) => Some(Jongseong::KapyeounPieup),
            (Jongseong::Pieup, Jongseong::Cieuc) => Some(Jongseong::PieupCieuc),
            (Jongseong::Pieup, Jongseong::Chieuch) => Some(Jongseong::PieupChieuch),
            (Jongseong::Pieup, Jongseong::Phieuph) => Some(Jongseong::PieupPhieuph),
            (Jongseong::Pieup, Jongseong::Hieuh) => Some(Jongseong::PieupHieuh),
            (Jongseong::Pieup, Jongseong::SiosTikeut) => Some(Jongseong::PieupSiosTikeut),
            (Jongseong::PieupSios, Jongseong::Tikeut) => Some(Jongseong::PieupSiosTikeut),
            (Jongseong::Sios, Jongseong::Kiyeok) => Some(Jongseong::SiosKiyeok),
            (Jongseong::Sios, Jongseong::Tikeut) => Some(Jongseong::SiosTikeut),
            (Jongseong::Sios, Jongseong::Rieul) => Some(Jongseong::SiosRieul),
            (Jongseong::Sios, Jongseong::Mieum) => Some(Jongseong::SiosMieum),
            (Jongseong::Sios, Jongseong::Pieup) => Some(Jongseong::SiosPieup),
            (Jongseong::Sios, Jongseong::Sios) => Some(Jongseong::SsangSios),
            (Jongseong::Sios, Jongseong::Cieuc) => Some(Jongseong::SiosCieuc),
            (Jongseong::Sios, Jongseong::Chieuch) => Some(Jongseong::SiosChieuch),
            (Jongseong::Sios, Jongseong::Thieuth) => Some(Jongseong::SiosThieuth),
            (Jongseong::Sios, Jongseong::Hieuh) => Some(Jongseong::SiosHieuh),
            (Jongseong::Sios, Jongseong::KapyeounPieup) => Some(Jongseong::SiosKapyeounPieup),
            (Jongseong::Sios, Jongseong::SiosKiyeok) => Some(Jongseong::SsangSiosKiyeok),
            (Jongseong::Sios, Jongseong::SiosTikeut) => Some(Jongseong::SsangSiosTikeut),
            (Jongseong::Sios, Jongseong::Pansios) => Some(Jongseong::SiosPansios),
            (Jongseong::SsangSios, Jongseong::Kiyeok) => Some(Jongseong::SsangSiosKiyeok),
            (Jongseong::SsangSios, Jongseong::Tikeut) => Some(Jongseong::SsangSiosTikeut),
            (Jongseong::Cieuc, Jongseong::Pieup) => Some(Jongseong::CieucPieup),
            (Jongseong::Cieuc, Jongseong::Cieuc) => Some(Jongseong::SsangCieuc),
            (Jongseong::Cieuc, Jongseong::SsangPieup) => Some(Jongseong::CieucSsangPieup),
            (Jongseong::Phieuph, Jongseong::Pieup) => Some(Jongseong::PhieuphPieup),
            (Jongseong::Phieuph, Jongseong::Sios) => Some(Jongseong::PhieuphSios),
            (Jongseong::Phieuph, Jongseong::Ieung) => Some(Jongseong::KapyeounPhieuph),
            (Jongseong::Phieuph, Jongseong::Thieuth) => Some(Jongseong::PhieuphThieuth),
            (Jongseong::Hieuh, Jongseong::Nieun) => Some(Jongseong::HieuhNieun),
            (Jongseong::Hieuh, Jongseong::Rieul) => Some(Jongseong::HieuhRieul),
            (Jongseong::Hieuh, Jongseong::Mieum) => Some(Jongseong::HieuhMieum),
            (Jongseong::Hieuh, Jongseong::Pieup) => Some(Jongseong::HieuhPieup),
            (Jongseong::RieulTikeut, Jongseong::Hieuh) => Some(Jongseong::RieulTikeutHieuh),
            (Jongseong::SsangRieul, Jongseong::Khieukh) => Some(Jongseong::SsangRieulKhieukh),
            (Jongseong::RieulYeorinhieuh, Jongseong::Hieuh) => Some(Jongseong::RieulYeorinhieuhHieuh),
            (Jongseong::MieumPieup, Jongseong::Sios) => Some(Jongseong::MieumPieupSios),
            (Jongseong::MieumSios, Jongseong::Sios) => Some(Jongseong::MieumSsangSios),
            (Jongseong::PieupRieul, Jongseong::Phieuph) => Some(Jongseong::PieupRieulPhieuph),
            (Jongseong::SiosPieup, Jongseong::Ieung) => Some(Jongseong::SiosKapyeounPieup),
            (Jongseong::Pansios, Jongseong::Pieup) => Some(Jongseong::PansiosPieup),
            (Jongseong::Pansios, Jongseong::KapyeounPieup) => Some(Jongseong::PansiosKapyeounPieup),
            (Jongseong::IeungKiyeok, Jongseong::Kiyeok) => Some(Jongseong::IeungSsangKiyeok),
            (Jongseong::Yesieung, Jongseong::Kiyeok) => Some(Jongseong::IeungKiyeok),
            (Jongseong::Yesieung, Jongseong::SsangKiyeok) => Some(Jongseong::IeungSsangKiyeok),
            (Jongseong::Yesieung, Jongseong::Mieum) => Some(Jongseong::YesieungMieum),
            (Jongseong::Yesieung, Jongseong::Sios) => Some(Jongseong::YesieungSios),
            (Jongseong::Yesieung, Jongseong::Khieukh) => Some(Jongseong::IeungKhieukh),
            (Jongseong::Yesieung, Jongseong::Hieuh) => Some(Jongseong::YesieungHieuh),
            (Jongseong::Yesieung, Jongseong::Pansios) => Some(Jongseong::YesieungPansios),
            (Jongseong::Yesieung, Jongseong::Yesieung) => Some(Jongseong::SsangIeung),
            (Jongseong::SsangTikeut, Jongseong::Pieup) => Some(Jongseong::SsangTikeutPieup),
            (Jongseong::TikeutSios, Jongseong::Kiyeok) => Some(Jongseong::TikeutSiosKiyeok),
            (Jongseong::MieumNieun, Jongseong::Nieun) => Some(Jongseong::MieumSsangNieun),
            (Jongseong::PansiosPieup, Jongseong::Ieung) => Some(Jongseong::PansiosKapyeounPieup),
            (Jongseong::CieucPieup, Jongseong::Pieup) => Some(Jongseong::CieucSsangPieup),
            _ => None,
        }
    }

    /// How the final consonant splits when a vowel follows: either it moves whole
    /// to the next syllable, or its last part moves and the rest stays.
    #[verifier::opaque]
    pub open spec fn spec_to_initial(self) -> JongseongToChoseong {
        match self {
            Jongseong::Kiyeok => JongseongToChoseong::Direct(Choseong::Kiyeok),
            Jongseong::SsangKiyeok => JongseongToChoseong::Direct(Choseong::SsangKiyeok),
            Jongseong::KiyeokSios => JongseongToChoseong::Compose(Jongseong::Kiyeok, Choseong::Sios),
            Jongseong::Nieun => JongseongToChoseong::Direct(Choseong::Nieun),
            Jongseong::NieunCieuc => JongseongToChoseong::Compose(Jongseong::Nieun, Choseong::Cieuc),
            Jongseong::NieunHieuh => JongseongToChoseong::Compose(Jongseong::Nieun, Choseong::Hieuh),
            Jongseong::Tikeut => JongseongToChoseong::Direct(Choseong::Tikeut),
            Jongseong::Rieul => JongseongToChoseong::Direct(Choseong::Rieul),
            Jongseong::RieulKiyeok => JongseongToChoseong::Compose(Jongseong::Rieul, Choseong::Kiyeok),
            Jongseong::RieulMieum => JongseongToChoseong::Compose(Jongseong::Rieul, Choseong::Mieum),
            Jongseong::RieulPieup => JongseongToChoseong::Compose(Jongseong::Rieul, Choseong::Pieup),
            Jongseong::RieulSios => JongseongToChoseong::Compose(Jongseong::Rieul, Choseong::Sios),
            Jongseong::RieulThieuth => JongseongToChoseong::Compose(Jongseong::Rieul, Choseong::Thieuth),
            Jongseong::RieulPhieuph => JongseongToChoseong::Compose(Jongseong::Rieul, Choseong::Phieuph),
            Jongseong::RieulHieuh => JongseongToChoseong::Compose(Jongseong::Rieul, Choseong::Hieuh),
            Jongseong::Mieum => JongseongToChoseong::Direct(Choseong::Mieum),
            Jongseong::Pieup => JongseongToChoseong::Direct(Choseong::Pieup),
            Jongseong::PieupSios => JongseongToChoseong::Compose(Jongseong::Pieup, Choseong::Sios),
            Jongseong::Sios => JongseongToChoseong::Direct(Choseong::Sios),
            Jongseong::SsangSios => JongseongToChoseong::Direct(Choseong::SsangSios),
            Jongseong::Ieung => JongseongToChoseong::Direct(Choseong::Ieung),
            Jongseong::Cieuc => JongseongToChoseong::Direct(Choseong::Cieuc),
            Jongseong::Chieuch => JongseongToChoseong::Direct(Choseong::Chieuch),
            Jongseong::Khieukh => JongseongToChoseong::Direct(Choseong::Khieukh),
            Jongseong::Thieuth => JongseongToChoseong::Direct(Choseong::Thieuth),
            Jongseong::Phieuph => JongseongToChoseong::Direct(Choseong::Phieuph),
            Jongseong::Hieuh => JongseongToChoseong::Direct(Choseong::Hieuh),
            Jongseong::KiyeokRieul => JongseongToChoseong::Compose(Jongseong::Kiyeok, Choseong::Rieul),
            Jongseong::KiyeokSiosKiyeok => JongseongToChoseong::Compose(Jongseong::KiyeokSios, Choseong::Kiyeok),
            Jongseong::NieunKiyeok => JongseongToChoseong::Compose(Jongseong::Nieun, Choseong::Kiyeok),
            Jongseong::NieunTikeut => JongseongToChoseong::Compose(Jongseong::Nieun, Choseong::Tikeut),
            Jongseong::NieunSios => JongseongToChoseong::Compose(Jongseong::Nieun, Choseong::Sios),
            Jongseong::NieunPansios => JongseongToChoseong::Compose(Jongseong::Nieun, Choseong::Pansios),
            Jongseong::NieunThieuth => JongseongToChoseong::Compose(Jongseong::Nieun, Choseong::Thieuth),
            Jongseong::TikeutKiyeok => JongseongToChoseong::Compose(Jongseong::Tikeut, Choseong::Kiyeok),
            Jongseong::TikeutRieul => JongseongToChoseong::Compose(Jongseong::Tikeut, Choseong::Rieul),
            Jongseong::RieulKiyeokSios => JongseongToChoseong::Compose(Jongseong::RieulKiyeok, Choseong::Sios),
            Jongseong::RieulNieun => JongseongToChoseong::Compose(Jongseong::Rieul, Choseong::Nieun),
            Jongseong::RieulTikeut => JongseongToChoseong::Compose(Jongseong::Rieul, Choseong::Tikeut),
            Jongseong::RieulTikeutHieuh => JongseongToChoseong::Compose(Jongseong::RieulTikeut, Choseong::Hieuh),
            Jongseong::SsangRieul => JongseongToChoseong::Compose(Jongseong::Rieul, Choseong::Rieul),
            Jongseong::RieulMieumKiyeok => JongseongToChoseong::Compose(Jongseong::RieulMieum, Choseong::Kiyeok),
            Jongseong::RieulMieumSios => JongseongToChoseong::Compose(Jongseong::RieulMieum, Choseong::Sios),
            Jongseong::RieulPieupSios => JongseongToChoseong::Compose(Jongseong::RieulPieup, Choseong::Sios),
            Jongseong::RieulPieupHieuh => JongseongToChoseong::Compose(Jongseong::RieulPieup, Choseong::Hieuh),
            Jongseong::RieulKapyeounPieup => JongseongToChoseong::Compose(Jongseong::RieulPieup, Choseong::Ieung),
            Jongseong::RieulSsangSios => JongseongToChoseong::Compose(Jongseong::RieulSios, Choseong::Sios),
            Jongseong::RieulPansios => JongseongToChoseong::Compose(Jongseong::Rieul, Choseong::Pansios),
            Jongseong::RieulKhieukh => JongseongToChoseong::Compose(Jongseong::Rieul, Choseong::Khieukh),
            Jongseong::RieulYeorinhieuh => JongseongToChoseong::Compose(Jongseong::Rieul, Choseong::Yeorinhieuh),
            Jongseong::MieumKiyeok => JongseongToChoseong::Compose(Jongseong::Mieum, Choseong::Kiyeok),
            Jongseong::MieumRieul => JongseongToChoseong::Compose(Jongseong::Mieum, Choseong::Rieul),
            Jongseong::MieumPieup => JongseongToChoseong::Compose(Jongseong::Mieum, Choseong::Pieup),
            Jongseong::MieumSios => JongseongToChoseong::Compose(Jongseong::Mieum, Choseong::Sios),
            Jongseong::MieumSsangSios => JongseongToChoseong::Compose(Jongseong::MieumSios, Choseong::Sios),
            Jongseong::MieumPansios => JongseongToChoseong::Compose(Jongseong::Mieum, Choseong::Pansios),
            Jongseong::MieumChieuch => JongseongToChoseong::Compose(Jongseong::Mieum, Choseong::Chieuch),
            Jongseong::MieumHieuh => JongseongToChoseong::Compose(Jongseong::Mieum, Choseong::Hieuh),
            Jongseong::KapyeounMieum => JongseongToChoseong::Compose(Jongseong::Mieum, Choseong::Ieung),
            Jongseong::PieupRieul => JongseongToChoseong::Compose(Jongseong::Pieup, Choseong::Rieul),
            Jongseong::PieupPhieuph => JongseongToChoseong::Compose(Jongseong::Pieup, Choseong::Phieuph),
            Jongseong::PieupHieuh => JongseongToChoseong::Compose(Jongseong::Pieup, Choseong::Hieuh),
            Jongseong::KapyeounPieup => JongseongToChoseong::Compose(Jongseong::Pieup, Choseong::Ieung),
            Jongseong::SiosKiyeok => JongseongToChoseong::Compose(Jongseong::Sios, Choseong::Kiyeok),
            Jongseong::SiosTikeut => JongseongToChoseong::Compose(Jongseong::Sios, Choseong::Tikeut),
            Jongseong::SiosRieul => JongseongToChoseong::Compose(Jongseong::Sios, Choseong::Rieul),
            Jongseong::SiosPieup => JongseongToChoseong::Compose(Jongseong::Sios, Choseong::Pieup),
            Jongseong::Pansios => JongseongToChoseong::Direct(Choseong::Pansios),
            Jongseong::IeungKiyeok => JongseongToChoseong::Compose(Jongseong::Yesieung, Choseong::Kiyeok),
            Jongseong::IeungSsangKiyeok => JongseongToChoseong::Compose(Jongseong::Yesieung, Choseong::SsangKiyeok),
            Jongseong::SsangIeung => JongseongToChoseong::Compose(Jongseong::Yesieung, Choseong::Yesieung),
            Jongseong::IeungKhieukh => JongseongToChoseong::Compose(Jongseong::Yesieung, Choseong::Khieukh),
            Jongseong::Yesieung => JongseongToChoseong::Direct(Choseong::Yesieung),
            Jongseong::YesieungSios => JongseongToChoseong::Compose(Jongseong::Yesieung, Choseong::Sios),
            Jongseong::YesieungPansios => JongseongToChoseong::Compose(Jongseong::Yesieung, Choseong::Pansios),
            Jongseong::PhieuphPieup => JongseongToChoseong::Compose(Jongseong::Phieuph, Choseong::Pieup),
            Jongseong::KapyeounPhieuph => JongseongToChoseong::Compose(Jongseong::Phieuph, Choseong::Ieung),
            Jongseong::HieuhNieun => JongseongToChoseong::Compose(Jongseong::Hieuh, Choseong::Nieun),
            Jongseong::HieuhRieul => JongseongToChoseong::Compose(Jongseong::Hieuh, Choseong::Rieul),
            Jongseong::HieuhMieum => JongseongToChoseong::Compose(Jongseong::Hieuh, Choseong::Mieum),
            Jongseong::HieuhPieup => JongseongToChoseong::Compose(Jongseong::Hieuh, Choseong::Pieup),
            Jongseong::Yeorinhieuh => JongseongToChoseong::Direct(Choseong::Yeorinhieuh),
            Jongseong::KiyeokNieun => JongseongToChoseong::Compose(Jongseong::Kiyeok, Choseong::Nieun),
            Jongseong::KiyeokPieup => JongseongToChoseong::Compose(Jongseong::Kiyeok, Choseong::Pieup),
            Jongseong::KiyeokChieuch => JongseongToChoseong::Compose(Jongseong::Kiyeok, Choseong::Chieuch),
            Jongseong::KiyeokKhieukh => JongseongToChoseong::Compose(Jongseong::Kiyeok, Choseong::Khieukh),
            Jongseong::KiyeokHieuh => JongseongToChoseong::Compose(Jongseong::Kiyeok, Choseong::Hieuh),
            Jongseong::SsangNieun => JongseongToChoseong::Compose(Jongseong::Nieun, Choseong::Nieun),
            Jongseong::NieunRieul => JongseongToChoseong::Compose(Jongseong::Nieun, Choseong::Rieul),
            Jongseong::NieunChieuch => JongseongToChoseong::Compose(Jongseong::Nieun, Choseong::Chieuch),
            Jongseong::SsangTikeut => JongseongToChoseong::Compose(Jongseong::Tikeut, Choseong::Tikeut),
            Jongseong::SsangTikeutPieup => JongseongToChoseong::Compose(Jongseong::SsangTikeut, Choseong::Pieup),
            Jongseong::TikeutPieup => JongseongToChoseong::Compose(Jongseong::Tikeut, Choseong::Pieup),
            Jongseong::TikeutSios => JongseongToChoseong::Compose(Jongseong::Tikeut, Choseong::Sios),
            Jongseong::TikeutSiosKiyeok => JongseongToChoseong::Compose(Jongseong::TikeutSios, Choseong::Kiyeok),
            Jongseong::TikeutCieuc => JongseongToChoseong::Compose(Jongseong::Tikeut, Choseong::Cieuc),
            Jongseong::TikeutChieuch => JongseongToChoseong::Compose(Jongseong::Tikeut, Choseong::Chieuch),
            Jongseong::TikeutThieuth => JongseongToChoseong::Compose(Jongseong::Tikeut, Choseong::Thieuth),
            Jongseong::RieulSsangKiyeok => JongseongToChoseong::Compose(Jongseong::RieulKiyeok, Choseong::Kiyeok),
            Jongseong::RieulKiyeokHieuh => JongseongToChoseong::Compose(Jongseong::RieulKiyeok, Choseong::Hieuh),
            Jongseong::SsangRieulKhieukh => JongseongToChoseong::Compose(Jongseong::SsangRieul, Choseong::Khieukh),
            Jongseong::RieulMieumHieuh => JongseongToChoseong::Compose(Jongseong::RieulMieum, Choseong::Hieuh),
            Jongseong::RieulPieupTikeut => JongseongToChoseong::Compose(Jongseong::RieulPieup, Choseong::Tikeut),
            Jongseong::RieulPieupPhieuph => JongseongToChoseong::Compose(Jongseong::RieulPieup, Choseong::Phieuph),
            Jongseong::RieulYesieung => JongseongToChoseong::Compose(Jongseong::Rieul, Choseong::Yesieung),
            Jongseong::RieulYeorinhieuhHieuh => JongseongToChoseong::Compose(Jongseong::RieulYeorinhieuh, Choseong::Hieuh),
            Jongseong::KapyeounRieul => JongseongToChoseong::Compose(Jongseong::Rieul, Choseong::Ieung),
            Jongseong::MieumNieun => JongseongToChoseong::Compose(Jongseong::Mieum, Choseong::Nieun),
            Jongseong::MieumSsangNieun => JongseongToChoseong::Compose(Jongseong::MieumNieun, Choseong::Nieun),
            Jongseong::SsangMieum => JongseongToChoseong::Compose(Jongseong::Mieum, Choseong::Mieum),
            Jongseong::MieumPieupSios => JongseongToChoseong::Compose(Jongseong::MieumPieup, Choseong::Sios),
            Jongseong::MieumCieuc => JongseongToChoseong::Compose(Jongseong::Mieum, Choseong::Cieuc),
            Jongseong::PieupTikeut => JongseongToChoseong::Compose(Jongseong::Pieup, Choseong::Tikeut),
            Jongseong::PieupRieulPhieuph => JongseongToChoseong::Compose(Jongseong::PieupRieul, Choseong::Phieuph),
            Jongseong::PieupMieum => JongseongToChoseong::Compose(Jongseong::Pieup, Choseong::Mieum),
            Jongseong::SsangPieup => JongseongToChoseong::Compose(Jongseong::Pieup, Choseong::Pieup),
            Jongseong::PieupSiosTikeut => JongseongToChoseong::Compose(Jongseong::PieupSios, Choseong::Tikeut),
            Jongseong::PieupCieuc => JongseongToChoseong::Compose(Jongseong::Pieup, Choseong::Cieuc),
            Jongseong::PieupChieuch => JongseongToChoseong::Compose(Jongseong::Pieup, Choseong::Chieuch),
            Jongseong::SiosMieum => JongseongToChoseong::Compose(Jongseong::Sios, Choseong::Mieum),
            Jongseong::SiosKapyeounPieup => JongseongToChoseong::Compose(Jongseong::SiosPieup, Choseong::Ieung),
            Jongseong::SsangSiosKiyeok => JongseongToChoseong::Compose(Jongseong::SsangSios, Choseong::Kiyeok),
            Jongseong::SsangSiosTikeut => JongseongToChoseong::Compose(Jongseong::SsangSios, Choseong::Tikeut),
            Jongseong::SiosPansios => JongseongToChoseong::Compose(Jongseong::Sios, Choseong::Pansios),
            Jongseong::SiosCieuc => JongseongToChoseong::Compose(Jongseong::Sios, Choseong::Cieuc),
            Jongseong::SiosChieuch => JongseongToChoseong::Compose(Jongseong::Sios, Choseong::Chieuch),
            Jongseong::SiosThieuth => JongseongToChoseong::Compose(Jongseong::Sios, Choseong::Thieuth),
            Jongseong::SiosHieuh => JongseongToChoseong::Compose(Jongseong::Sios, Choseong::Hieuh),
            Jongseong::PansiosPieup => JongseongToChoseong::Compose(Jongseong::Pansios, Choseong::Pieup),
            Jongseong::PansiosKapyeounPieup => JongseongToChoseong::Compose(Jongseong::PansiosPieup, Choseong::Ieung),
            Jongseong::YesieungMieum => JongseongToChoseong::Compose(Jongseong::Yesieung, Choseong::Mieum),
            Jongseong::YesieungHieuh => JongseongToChoseong::Compose(Jongseong::Yesieung, Choseong::Hieuh),
            Jongseong::CieucPieup => JongseongToChoseong::Compose(Jongseong::Cieuc, Choseong::Pieup),
            Jongseong::CieucSsangPieup => JongseongToChoseong::Compose(Jongseong::CieucPieup, Choseong::Pieup),
            Jongseong::SsangCieuc => JongseongToChoseong::Compose(Jongseong::Cieuc, Choseong::Cieuc),
            Jongseong::PhieuphSios => JongseongToChoseong::Compose(Jongseong::Phieuph, Choseong::Sios),
            Jongseong::PhieuphThieuth => JongseongToChoseong::Compose(Jongseong::Phieuph, Choseong::Thieuth),
        }
    }

    /// How the final consonant splits when a vowel follows: either it moves whole
    /// to the next syllable, or its last part moves and the rest stays.
    pub fn to_initial(self) -> (r: JongseongToChoseong)
        ensures
            r == self.spec_to_initial(),
    {
        proof {
            reveal(Jongseong::spec_to_initial);
        }
        match self {
            Jongseong::Kiyeok => JongseongToChoseong::Direct(Choseong::Kiyeok),
            Jongseong::SsangKiyeok => JongseongToChoseong::Direct(Choseong::SsangKiyeok),
            Jongseong::KiyeokSios => JongseongToChoseong::Compose(Jongseong::Kiyeok, Choseong::Sios),
            Jongseong::Nieun => JongseongToChoseong::Direct(Choseong::Nieun),
            Jongseong::NieunCieuc => JongseongToChoseong::Compose(Jongseong::Nieun, Choseong::Cieuc),
            Jongseong::NieunHieuh => JongseongToChoseong::Compose(Jongseong::Nieun, Choseong::Hieuh),
            Jongseong::Tikeut => JongseongToChoseong::Direct(Choseong::Tikeut),
            Jongseong::Rieul => JongseongToChoseong::Direct(Choseong::Rieul),
            Jongseong::RieulKiyeok => JongseongToChoseong::Compose(Jongseong::Rieul, Choseong::Kiyeok),
            Jongseong::RieulMieum => JongseongToChoseong::Compose(Jongseong::Rieul, Choseong::Mieum),
            Jongseong::RieulPieup => JongseongToChoseong::Compose(Jongseong::Rieul, Choseong::Pieup),
            Jongseong::RieulSios => JongseongToChoseong::Compose(Jongseong::Rieul, Choseong::Sios),
            Jongseong::RieulThieuth => JongseongToChoseong::Compose(Jongseong::Rieul, Choseong::Thieuth),
            Jongseong::RieulPhieuph => JongseongToChoseong::Compose(Jongseong::Rieul, Choseong::Phieuph),
            Jongseong::RieulHieuh => JongseongToChoseong::Compose(Jongseong::Rieul, Choseong::Hieuh),
            Jongseong::Mieum => JongseongToChoseong::Direct(Choseong::Mieum),
            Jongseong::Pieup => JongseongToChoseong::Direct(Choseong::Pieup),
            Jongseong::PieupSios => JongseongToChoseong::Compose(Jongseong::Pieup, Choseong::Sios),
            Jongseong::Sios => JongseongToChoseong::Direct(Choseong::Sios),
            Jongseong::SsangSios => JongseongToChoseong::Direct(Choseong::SsangSios),
            Jongseong::Ieung => JongseongToChoseong::Direct(Choseong::Ieung),
            Jongseong::Cieuc => JongseongToChoseong::Direct(Choseong::Cieuc),
            Jongseong::Chieuch => JongseongToChoseong::Direct(Choseong::Chieuch),
            Jongseong::Khieukh => JongseongToChoseong::Direct(Choseong::Khieukh),
            Jongseong::Thieuth => JongseongToChoseong::Direct(Choseong::Thieuth),
            Jongseong::Phieuph => JongseongToChoseong::Direct(Choseong::Phieuph),
            Jongseong::Hieuh => JongseongToChoseong::Direct(Choseong::Hieuh),
            Jongseong::KiyeokRieul => JongseongToChoseong::Compose(Jongseong::Kiyeok, Choseong::Rieul),
            Jongseong::KiyeokSiosKiyeok => JongseongToChoseong::Compose(Jongseong::KiyeokSios, Choseong::Kiyeok),
            Jongseong::NieunKiyeok => JongseongToChoseong::Compose(Jongseong::Nieun, Choseong::Kiyeok),
            Jongseong::NieunTikeut => JongseongToChoseong::Compose(Jongseong::Nieun, Choseong::Tikeut),
            Jongseong::NieunSios => JongseongToChoseong::Compose(Jongseong::Nieun, Choseong::Sios),
            Jongseong::NieunPansios => JongseongToChoseong::Compose(Jongseong::Nieun, Choseong::Pansios),
            Jongseong::NieunThieuth => JongseongToChoseong::Compose(Jongseong::Nieun, Choseong::Thieuth),
            Jongseong::TikeutKiyeok => JongseongToChoseong::Compose(Jongseong::Tikeut, Choseong::Kiyeok),
            Jongseong::TikeutRieul => JongseongToChoseong::Compose(Jongseong::Tikeut, Choseong::Rieul),
            Jongseong::RieulKiyeokSios => JongseongToChoseong::Compose(Jongseong::RieulKiyeok, Choseong::Sios),
            Jongseong::RieulNieun => JongseongToChoseong::Compose(Jongseong::Rieul, Choseong::Nieun),
            Jongseong::RieulTikeut => JongseongToChoseong::Compose(Jongseong::Rieul, Choseong::Tikeut),
            Jongseong::RieulTikeutHieuh => JongseongToChoseong::Compose(Jongseong::RieulTikeut, Choseong::Hieuh),
            Jongseong::SsangRieul => JongseongToChoseong::Compose(Jongseong::Rieul, Choseong::Rieul),
            Jongseong::RieulMieumKiyeok => JongseongToChoseong::Compose(Jongseong::RieulMieum, Choseong::Kiyeok),
            Jongseong::RieulMieumSios => JongseongToChoseong::Compose(Jongseong::RieulMieum, Choseong::Sios),
            Jongseong::RieulPieupSios => JongseongToChoseong::Compose(Jongseong::RieulPieup, Choseong::Sios),
            Jongseong::RieulPieupHieuh => JongseongToChoseong::Compose(Jongseong::RieulPieup, Choseong::Hieuh),
            Jongseong::RieulKapyeounPieup => JongseongToChoseong::Compose(Jongseong::RieulPieup, Choseong::Ieung),
            Jongseong::RieulSsangSios => JongseongToChoseong::Compose(Jongseong::RieulSios, Choseong::Sios),
            Jongseong::RieulPansios => JongseongToChoseong::Compose(Jongseong::Rieul, Choseong::Pansios),
            Jongseong::RieulKhieukh => JongseongToChoseong::Compose(Jongseong::Rieul, Choseong::Khieukh),
            Jongseong::RieulYeorinhieuh => JongseongToChoseong::Compose(Jongseong::Rieul, Choseong::Yeorinhieuh),
            Jongseong::MieumKiyeok => JongseongToChoseong::Compose(Jongseong::Mieum, Choseong::Kiyeok),
            Jongseong::MieumRieul => JongseongToChoseong::Compose(Jongseong::Mieum, Choseong::Rieul),
            Jongseong::MieumPieup => JongseongToChoseong::Compose(Jongseong::Mieum, Choseong::Pieup),
            Jongseong::MieumSios => JongseongToChoseong::Compose(Jongseong::Mieum, Choseong::Sios),
            Jongseong::MieumSsangSios => JongseongToChoseong::Compose(Jongseong::MieumSios, Choseong::Sios),
            Jongseong::MieumPansios => JongseongToChoseong::Compose(Jongseong::Mieum, Choseong::Pansios),
            Jongseong::MieumChieuch => JongseongToChoseong::Compose(Jongseong::Mieum, Choseong::Chieuch),
            Jongseong::MieumHieuh => JongseongToChoseong::Compose(Jongseong::Mieum, Choseong::Hieuh),
            Jongseong::KapyeounMieum => JongseongToChoseong::Compose(Jongseong::Mieum, Choseong::Ieung),
            Jongseong::PieupRieul => JongseongToChoseong::Compose(Jongseong::Pieup, Choseong::Rieul),
            Jongseong::PieupPhieuph => JongseongToChoseong::Compose(Jongseong::Pieup, Choseong::Phieuph),
            Jongseong::PieupHieuh => JongseongToChoseong::Compose(Jongseong::Pieup, Choseong::Hieuh),
            Jongseong::KapyeounPieup => JongseongToChoseong::Compose(Jongseong::Pieup, Choseong::Ieung),
            Jongseong::SiosKiyeok => JongseongToChoseong::Compose(Jongseong::Sios, Choseong::Kiyeok),
            Jongseong::SiosTikeut => JongseongToChoseong::Compose(Jongseong::Sios, Choseong::Tikeut),
            Jongseong::SiosRieul => JongseongToChoseong::Compose(Jongseong::Sios, Choseong::Rieul),
            Jongseong::SiosPieup => JongseongToChoseong::Compose(Jongseong::Sios, Choseong::Pieup),
            Jongseong::Pansios => JongseongToChoseong::Direct(Choseong::Pansios),
            Jongseong::IeungKiyeok => JongseongToChoseong::Compose(Jongseong::Yesieung, Choseong::Kiyeok),
            Jongseong::IeungSsangKiyeok => JongseongToChoseong::Compose(Jongseong::Yesieung, Choseong::SsangKiyeok),
            Jongseong::SsangIeung => JongseongToChoseong::Compose(Jongseong::Yesieung, Choseong::Yesieung),
            Jongseong::IeungKhieukh => JongseongToChoseong::Compose(Jongseong::Yesieung, Choseong::Khieukh),
            Jongseong::Yesieung => JongseongToChoseong::Direct(Choseong::Yesieung),
            Jongseong::YesieungSios => JongseongToChoseong::Compose(Jongseong::Yesieung, Choseong::Sios),
            Jongseong::YesieungPansios => JongseongToChoseong::Compose(Jongseong::Yesieung, Choseong::Pansios),
            Jongseong::PhieuphPieup => JongseongToChoseong::Compose(Jongseong::Phieuph, Choseong::Pieup),
            Jongseong::KapyeounPhieuph => JongseongToChoseong::Compose(Jongseong::Phieuph, Choseong::Ieung),
            Jongseong::HieuhNieun => JongseongToChoseong::Compose(Jongseong::Hieuh, Choseong::Nieun),
            Jongseong::HieuhRieul => JongseongToChoseong::Compose(Jongseong::Hieuh, Choseong::Rieul),
            Jongseong::HieuhMieum => JongseongToChoseong::Compose(Jongseong::Hieuh, Choseong::Mieum),
            Jongseong::HieuhPieup => JongseongToChoseong::Compose(Jongseong::Hieuh, Choseong::Pieup),
            Jongseong::Yeorinhieuh => JongseongToChoseong::Direct(Choseong::Yeorinhieuh),
            Jongseong::KiyeokNieun => JongseongToChoseong::Compose(Jongseong::Kiyeok, Choseong::Nieun),
            Jongseong::KiyeokPieup => JongseongToChoseong::Compose(Jongseong::Kiyeok, Choseong::Pieup),
            Jongseong::KiyeokChieuch => JongseongToChoseong::Compose(Jongseong::Kiyeok, Choseong::Chieuch),
            Jongseong::KiyeokKhieukh => JongseongToChoseong::Compose(Jongseong::Kiyeok, Choseong::Khieukh),
            Jongseong::KiyeokHieuh => JongseongToChoseong::Compose(Jongseong::Kiyeok, Choseong::Hieuh),
            Jongseong::SsangNieun => JongseongToChoseong::Compose(Jongseong::Nieun, Choseong::Nieun),
            Jongseong::NieunRieul => JongseongToChoseong::Compose(Jongseong::Nieun, Choseong::Rieul),
            Jongseong::NieunChieuch => JongseongToChoseong::Compose(Jongseong::Nieun, Choseong::Chieuch),
            Jongseong::SsangTikeut => JongseongToChoseong::Compose(Jongseong::Tikeut, Choseong::Tikeut),
            Jongseong::SsangTikeutPieup => JongseongToChoseong::Compose(Jongseong::SsangTikeut, Choseong::Pieup),
            Jongseong::TikeutPieup => JongseongToChoseong::Compose(Jongseong::Tikeut, Choseong::Pieup),
            Jongseong::TikeutSios => JongseongToChoseong::Compose(Jongseong::Tikeut, Choseong::Sios),
            Jongseong::TikeutSiosKiyeok => JongseongToChoseong::Compose(Jongseong::TikeutSios, Choseong::Kiyeok),
            Jongseong::TikeutCieuc => JongseongToChoseong::Compose(Jongseong::Tikeut, Choseong::Cieuc),
            Jongseong::TikeutChieuch => JongseongToChoseong::Compose(Jongseong::Tikeut, Choseong::Chieuch),
            Jongseong::TikeutThieuth => JongseongToChoseong::Compose(Jongseong::Tikeut, Choseong::Thieuth),
            Jongseong::RieulSsangKiyeok => JongseongToChoseong::Compose(Jongseong::RieulKiyeok, Choseong::Kiyeok),
            Jongseong::RieulKiyeokHieuh => JongseongToChoseong::Compose(Jongseong::RieulKiyeok, Choseong::Hieuh),
            Jongseong::SsangRieulKhieukh => JongseongToChoseong::Compose(Jongseong::SsangRieul, Choseong::Khieukh),
            Jongseong::RieulMieumHieuh => JongseongToChoseong::Compose(Jongseong::RieulMieum, Choseong::Hieuh),
            Jongseong::RieulPieupTikeut => JongseongToChoseong::Compose(Jongseong::RieulPieup, Choseong::Tikeut),
            Jongseong::RieulPieupPhieuph => JongseongToChoseong::Compose(Jongseong::RieulPieup, Choseong::Phieuph),
            Jongseong::RieulYesieung => JongseongToChoseong::Compose(Jongseong::Rieul, Choseong::Yesieung),
            Jongseong::RieulYeorinhieuhHieuh => JongseongToChoseong::Compose(Jongseong::RieulYeorinhieuh, Choseong::Hieuh),
            Jongseong::KapyeounRieul => JongseongToChoseong::Compose(Jongseong::Rieul, Choseong::Ieung),
            Jongseong::MieumNieun => JongseongToChoseong::Compose(Jongseong::Mieum, Choseong::Nieun),
            Jongseong::MieumSsangNieun => JongseongToChoseong::Compose(Jongseong::MieumNieun, Choseong::Nieun),
            Jongseong::SsangMieum => JongseongToChoseong::Compose(Jongseong::Mieum, Choseong::Mieum),
            Jongseong::MieumPieupSios => JongseongToChoseong::Compose(Jongseong::MieumPieup, Choseong::Sios),
            Jongseong::MieumCieuc => JongseongToChoseong::Compose(Jongseong::Mieum, Choseong::Cieuc),
            Jongseong::PieupTikeut => JongseongToChoseong::Compose(Jongseong::Pieup, Choseong::Tikeut),
            Jongseong::PieupRieulPhieuph => JongseongToChoseong::Compose(Jongseong::PieupRieul, Choseong::Phieuph),
            Jongseong::PieupMieum => JongseongToChoseong::Compose(Jongseong::Pieup, Choseong::Mieum),
            Jongseong::SsangPieup => JongseongToChoseong::Compose(Jongseong::Pieup, Choseong::Pieup),
            Jongseong::PieupSiosTikeut => JongseongToChoseong::Compose(Jongseong::PieupSios, Choseong::Tikeut),
            Jongseong::PieupCieuc => JongseongToChoseong::Compose(Jongseong::Pieup, Choseong::Cieuc),
            Jongseong::PieupChieuch => JongseongToChoseong::Compose(Jongseong::Pieup, Choseong::Chieuch),
            Jongseong::SiosMieum => JongseongToChoseong::Compose(Jongseong::Sios, Choseong::Mieum),
            Jongseong::SiosKapyeounPieup => JongseongToChoseong::Compose(Jongseong::SiosPieup, Choseong::Ieung),
            Jongseong::SsangSiosKiyeok => JongseongToChoseong::Compose(Jongseong::SsangSios, Choseong::Kiyeok),
            Jongseong::SsangSiosTikeut => JongseongToChoseong::Compose(Jongseong::SsangSios, Choseong::Tikeut),
            Jongseong::SiosPansios => JongseongToChoseong::Compose(Jongseong::Sios, Choseong::Pansios),
            Jongseong::SiosCieuc => JongseongToChoseong::Compose(Jongseong::Sios, Choseong::Cieuc),
            Jongseong::SiosChieuch => JongseongToChoseong::Compose(Jongseong::Sios, Choseong::Chieuch),
            Jongseong::SiosThieuth => JongseongToChoseong::Compose(Jongseong::Sios, Choseong::Thieuth),
            Jongseong::SiosHieuh => JongseongToChoseong::Compose(Jongseong::Sios, Choseong::Hieuh),
            Jongseong::PansiosPieup => JongseongToChoseong::Compose(Jongseong::Pansios, Choseong::Pieup),
            Jongseong::PansiosKapyeounPieup => JongseongToChoseong::Compose(Jongseong::PansiosPieup, Choseong::Ieung),
            Jongseong::YesieungMieum => JongseongToChoseong::Compose(Jongseong::Yesieung, Choseong::Mieum),
            Jongseong::YesieungHieuh => JongseongToChoseong::Compose(Jongseong::Yesieung, Choseong::Hieuh),
            Jongseong::CieucPieup => JongseongToChoseong::Compose(Jongseong::Cieuc, Choseong::Pieup),
            Jongseong::CieucSsangPieup => JongseongToChoseong::Compose(Jongseong::CieucPieup, Choseong::Pieup),
            Jongseong::SsangCieuc => JongseongToChoseong::Compose(Jongseong::Cieuc, Choseong::Cieuc),
            Jongseong::PhieuphSios => JongseongToChoseong::Compose(Jongseong::Phieuph, Choseong::Sios),
            Jongseong::PhieuphThieuth => JongseongToChoseong::Compose(Jongseong::Phieuph, Choseong::Thieuth),
        }
    }

}

/// The consonant is a single letter: one of the fourteen basic consonants, or one
/// of the three single archaic letters (ㅿ, ㆁ, ㆆ); not a tense or compound one.
pub open spec fn is_single_consonant(c: Choseong) -> bool {
    c == Choseong::Kiyeok || c == Choseong::Nieun || c == Choseong::Tikeut || c
        == Choseong::Rieul || c == Choseong::Mieum || c == Choseong::Pieup || c
        == Choseong::Sios || c == Choseong::Ieung || c == Choseong::Cieuc || c
        == Choseong::Chieuch || c == Choseong::Khieukh || c == Choseong::Thieuth || c
        == Choseong::Phieuph || c == Choseong::Hieuh || c == Choseong::Pansios || c
        == Choseong::Yesieung || c == Choseong::Yeorinhieuh
}

/// Splitting a final before a vowel undoes the stroke that built it: when the final
/// `a` followed by the single consonant `b` forms the final `r`, and `b` sounds as
/// the initial `c`, then `r` leaves `a` behind and hands `c` to the next syllable.
/// The exceptions: a tense final made by a doubled stroke (ㄲ, ㅆ), which is itself
/// an initial and moves whole; and the archaic ㆁㄱ followed by ㄱ, whose result
/// splits as ㆁ and ㄲ.
pub proof fn lemma_split_undoes_final_cluster(
    a: Jongseong,
    b: Jongseong,
    c: Choseong,
    opts: InputOptions,
)
    requires
        a != Jongseong::IeungKiyeok,
        is_single_consonant(c),
        spec_choseong_to_jongseong(c) == Some(b),
    ensures
        a.spec_try_add(b, opts) matches Some(r) ==> if a == b && (a == Jongseong::Kiyeok || a
            == Jongseong::Sios) {
            r.spec_to_initial() is Direct && spec_choseong_to_jongseong(
                r.spec_to_initial()->Direct_0,
            ) == Some(r)
        } else {
            r.spec_to_initial() == JongseongToChoseong::Compose(a, c)
        },
{
    reveal(Jongseong::spec_doubled);
    reveal(Jongseong::spec_modern_cluster);
    reveal(Jongseong::spec_old_cluster);
    reveal(Jongseong::spec_to_initial);
    reveal(spec_choseong_to_jongseong);
}

/// The simple vowels that a vowel is written with, in stroke order: ㅏ ㅑ ㅓ ㅕ ㅗ ㅛ ㅜ
/// ㅠ ㅡ ㅣ stand alone, and each compound is its parts (ㅙ is ㅗ ㅏ ㅣ). An archaic
/// vowel counts as one part.
pub open spec fn vowel_parts(v: Jungseong) -> Seq<Jungseong> {
    match v {
        Jungseong::Ae => seq![Jungseong::A, Jungseong::I],
        Jungseong::Yae => seq![Jungseong::Ya, Jungseong::I],
        Jungseong::E => seq![Jungseong::Eo, Jungseong::I],
        Jungseong::Ye => seq![Jungseong::Yeo, Jungseong::I],
        Jungseong::Wa => seq![Jungseong::O, Jungseong::A],
        Jungseong::Wae => seq![Jungseong::O, Jungseong::A, Jungseong::I],
        Jungseong::Oe => seq![Jungseong::O, Jungseong::I],
        Jungseong::Weo => seq![Jungseong::U, Jungseong::Eo],
        Jungseong::We => seq![Jungseong::U, Jungseong::Eo, Jungseong::I],
        Jungseong::Wi => seq![Jungseong::U, Jungseong::I],
        Jungseong::Yi => seq![Jungseong::Eu, Jungseong::I],
        _ => seq![v],
    }
}

/// A modern compound vowel is the one written with the parts of the two vowels typed:
/// two modern vowels combine exactly when some modern vowel is made of the parts of
/// the first followed by those of the second, and then they give that vowel.
pub proof fn lemma_compound_vowel_is_its_parts(a: Jungseong, b: Jungseong, r: Jungseong)
    ensures
        Jungseong::spec_modern_cluster(a, b) == Some(r) ==> !a.spec_is_old() && !b.spec_is_old()
            && !r.spec_is_old() && vowel_parts(r) == vowel_parts(a) + vowel_parts(b),
        (!a.spec_is_old() && !b.spec_is_old() && !r.spec_is_old() && vowel_parts(r)
            == vowel_parts(a) + vowel_parts(b)) ==> Jungseong::spec_modern_cluster(a, b)
            == Some(r),
{
    reveal(Jungseong::spec_modern_cluster);
    if let Some(x) = Jungseong::spec_modern_cluster(a, b) {
        assert(vowel_parts(x) =~= vowel_parts(a) + vowel_parts(b));
    }
    let pa = vowel_parts(a);
    let pb = vowel_parts(b);
    let pr = vowel_parts(r);
    if !a.spec_is_old() && !b.spec_is_old() && !r.spec_is_old() && pr == pa + pb {
        assert(pr.len() == pa.len() + pb.len());
        assert(pr[0] == pa[0]);
        if pa.len() == 1 {
            assert(pr[1] == pb[0]);
            if pb.len() > 1 {
                assert(pr[2] == pb[1]);
            }
        } else {
            assert(pr[1] == pa[1]);
            assert(pr[2] == pb[0]);
        }
    }
}

/// A final that is itself the final form of a modern initial, or of a single
/// archaic letter, moves whole to the next syllable as that initial.
pub proof fn lemma_simple_final_moves_whole(r: Jongseong, d: Choseong)
    requires
        !d.spec_is_old() || is_single_consonant(d),
        spec_choseong_to_jongseong(d) == Some(r),
    ensures
        r.spec_to_initial() == JongseongToChoseong::Direct(d),
{
    reveal(Jongseong::spec_to_initial);
    reveal(spec_choseong_to_jongseong);
}

impl Jungseong {
    /// The vowel is archaic: it is not one of the 21 modern vowels.
    pub open spec fn spec_is_old(self) -> bool {
        self.index() > 20
    }

    /// The vowel is archaic: it is not one of the 21 modern vowels.
    pub fn is_old(self) -> (r: bool)
        ensures
            r == self.spec_is_old(),
    {
        self.ordinal() > 20
    }

    /// The vowel that `self` followed by `other` forms: a modern compound vowel,
    /// or an archaic one in old Hangul mode.
    pub open spec fn spec_try_add(self, other: Jungseong, opts: InputOptions) -> Option<Jungseong> {
        if Jungseong::spec_modern_cluster(self, other) is Some {
            Jungseong::spec_modern_cluster(self, other)
        } else if opts.old_jamo {
            Jungseong::spec_old_cluster(self, other)
        } else {
            None
        }
    }

    /// The vowel that `self` followed by `other` forms, if any.
    pub fn try_add(self, other: Jungseong, opts: InputOptions) -> (r: Option<Jungseong>)
        ensures
            r == self.spec_try_add(other, opts),
    {
        if let Some(r) = Jungseong::modern_cluster(self, other) {
            return Some(r);
        }
        if opts.old_jamo {
            Jungseong::old_cluster(self, other)
        } else {
            None
        }
    }
}

impl Jongseong {
    /// The consonant is archaic: it is not one of the 27 modern finals.
    pub open spec fn spec_is_old(self) -> bool {
        self.index() > 26
    }

    /// The consonant is archaic: it is not one of the 27 modern finals.
    pub fn is_old(self) -> (r: bool)
        ensures
            r == self.spec_is_old(),
    {
        self.ordinal() > 26
    }

    /// The final consonant that `self` followed by `other` forms: the tense
    /// consonant of a doubled stroke when that option is on, a modern cluster, or an
    /// archaic one in old Hangul mode.
    pub open spec fn spec_try_add(self, other: Jongseong, opts: InputOptions) -> Option<Jongseong> {
        if opts.combi_on_double_stroke && Jongseong::spec_doubled(self, other) is Some {
            Jongseong::spec_doubled(self, other)
        } else if Jongseong::spec_modern_cluster(self, other) is Some {
            Jongseong::spec_modern_cluster(self, other)
        } else if opts.old_jamo {
            Jongseong::spec_old_cluster(self, other)
        } else {
            None
        }
    }

    /// The final consonant that `self` followed by `other` forms, if any.
    pub fn try_add(self, other: Jongseong, opts: InputOptions) -> (r: Option<Jongseong>)
        ensures
            r == self.spec_try_add(other, opts),
    {
        if opts.combi_on_double_stroke {
            if let Some(r) = Jongseong::doubled(self, other) {
                return Some(r);
            }
        }
        if let Some(r) = Jongseong::modern_cluster(self, other) {
            return Some(r);
        }
        if opts.old_jamo {
            Jongseong::old_cluster(self, other)
        } else {
            None
        }
    }
}


/// What a key of a keyboard layout stands for.
#[derive(Clone, Copy, Debug, PartialEq, Eq, Structural)]
pub enum KeyValue {
    /// An initial consonant.
    Choseong { choseong: Choseong },
    /// A medial vowel; `compose` tells whether it combines with a vowel before it.
    Jungseong { jungseong: Jungseong, compose: bool },
    /// A final consonant.
    Jongseong { jongseong: Jongseong },
    /// A consonant that is an initial, or a final where a final is expected.
    Both { choseong: Choseong, jongseong: Jongseong },
    /// An initial and a final consonant typed by one key.
    ChoJong { choseong: Choseong, jongseong: Jongseong, first: bool },
    /// An initial consonant and a vowel typed by one key; `first` tells whether
    /// the consonant comes first.
    ChoJung { choseong: Choseong, jungseong: Jungseong, first: bool, compose: bool },
    /// A vowel and a final consonant typed by one key; `first` tells whether the
    /// vowel comes first.
    JungJong { jungseong: Jungseong, jongseong: Jongseong, first: bool, compose: bool },
    /// A character that passes through without composing.
    Pass(char),
}

impl KeyValue {
    /// The key value holds an archaic jamo.
    pub open spec fn spec_has_old_jamo(&self) -> bool {
        match *self {
            KeyValue::Choseong { choseong } => choseong.spec_is_old(),
            KeyValue::Jungseong { jungseong, .. } => jungseong.spec_is_old(),
            KeyValue::Jongseong { jongseong } => jongseong.spec_is_old(),
            KeyValue::Both { choseong, jongseong } => choseong.spec_is_old()
                || jongseong.spec_is_old(),
            KeyValue::ChoJong { choseong, jongseong, .. } => choseong.spec_is_old()
                || jongseong.spec_is_old(),
            KeyValue::ChoJung { choseong, jungseong, .. } => choseong.spec_is_old()
                || jungseong.spec_is_old(),
            KeyValue::JungJong { jungseong, jongseong, .. } => jungseong.spec_is_old()
                || jongseong.spec_is_old(),
            KeyValue::Pass(_) => false,
        }
    }

    /// The key value holds an archaic jamo.
    pub fn has_old_jamo(&self) -> (r: bool)
        ensures
            r == self.spec_has_old_jamo(),
    {
        match *self {
            KeyValue::Choseong { choseong } => choseong.is_old(),
            KeyValue::Jungseong { jungseong, .. } => jungseong.is_old(),
            KeyValue::Jongseong { jongseong } => jongseong.is_old(),
            KeyValue::Both { choseong, jongseong } => choseong.is_old() || jongseong.is_old(),
            KeyValue::ChoJong { choseong, jongseong, .. } => choseong.is_old()
                || jongseong.is_old(),
            KeyValue::ChoJung { choseong, jungseong, .. } => choseong.is_old()
                || jungseong.is_old(),
            KeyValue::JungJong { jungseong, jongseong, .. } => jungseong.is_old()
                || jongseong.is_old(),
            KeyValue::Pass(_) => false,
        }
    }
}

/// One jamo of the text of a key value.
#[derive(Clone, Copy, Debug, PartialEq, Eq, Structural)]
pub enum KeyValuePart {
    /// An initial consonant.
    Cho { choseong: Choseong },
    /// A vowel, which combines with a vowel before it unless it was marked by `$`.
    Jung { jungseong: Jungseong, compose: bool },
    /// A final consonant, marked by `$`.
    Jong { jongseong: Jongseong },
}

/// The initial consonant that the character `c` of a key value names: a
/// conjoining initial, or a compatibility jamo that stands for one.
pub open spec fn key_initial(c: char) -> Option<Choseong> {
    match Choseong::spec_from_char(c) {
        Some(x) => Some(x),
        None => Choseong::spec_from_char(spec_cjamo_to_jamo(c)),
    }
}

/// The vowel that the character `c` of a key value names: a conjoining vowel,
/// or a compatibility jamo that stands for one.
pub open spec fn key_medial(c: char) -> Option<Jungseong> {
    match Jungseong::spec_from_char(c) {
        Some(x) => Some(x),
        None => Jungseong::spec_from_char(spec_cjamo_to_jamo(c)),
    }
}

/// The final consonant of a conjoining final, or of the final that sounds as a
/// conjoining initial.
pub open spec fn final_from_char(c: char) -> Option<Jongseong> {
    match Jongseong::spec_from_char(c) {
        Some(x) => Some(x),
        None => match Choseong::spec_from_char(c) {
            Some(y) => spec_choseong_to_jongseong(y),
            None => None,
        },
    }
}

/// The final consonant that the character `c` of a key value names.
pub open spec fn key_final(c: char) -> Option<Jongseong> {
    match final_from_char(c) {
        Some(x) => Some(x),
        None => final_from_char(spec_cjamo_to_jamo(c)),
    }
}

/// The part of a key value that starts at position `i` of `s`, with the
/// position after it: `$` marks a vowel that does not combine, or a final
/// consonant; otherwise an initial consonant, or else a vowel.
pub open spec fn spec_parse_part(s: Seq<char>, i: int) -> Option<(KeyValuePart, int)> {
    if i < 0 || i >= s.len() {
        None
    } else if s[i] == '$' {
        if i + 1 >= s.len() {
            None
        } else {
            match key_medial(s[i + 1]) {
                Some(j) => Some((KeyValuePart::Jung { jungseong: j, compose: false }, i + 2)),
                None => match key_final(s[i + 1]) {
                    Some(f) => Some((KeyValuePart::Jong { jongseong: f }, i + 2)),
                    None => None,
                },
            }
        }
    } else {
        match key_initial(s[i]) {
            Some(c) => Some((KeyValuePart::Cho { choseong: c }, i + 1)),
            None => match key_medial(s[i]) {
                Some(j) => Some((KeyValuePart::Jung { jungseong: j, compose: true }, i + 1)),
                None => None,
            },
        }
    }
}

/// The key value that the text `s` of a keyboard layout describes: one or two
/// jamo, or a single character that passes through.
pub open spec fn spec_parse_key_value(s: Seq<char>) -> Result<KeyValue, ()> {
    match spec_parse_part(s, 0) {
        None => if s.len() == 0 {
            Err(())
        } else {
            Ok(KeyValue::Pass(s[0]))
        },
        Some((first, i)) => {
            let second = match spec_parse_part(s, i) {
                Some((p, _)) => Some(p),
                None => None,
            };
            match first {
                KeyValuePart::Cho { choseong } => match second {
                    Some(KeyValuePart::Jong { jongseong }) => Ok(KeyValue::Both { choseong, jongseong }),
                    Some(KeyValuePart::Jung { jungseong, compose }) => Ok(
                        KeyValue::ChoJung { choseong, jungseong, first: true, compose },
                    ),
                    None => match spec_choseong_to_jongseong(choseong) {
                        Some(jongseong) => Ok(KeyValue::Both { choseong, jongseong }),
                        None => Ok(KeyValue::Choseong { choseong }),
                    },
                    Some(KeyValuePart::Cho { .. }) => Err(()),
                },
                KeyValuePart::Jung { jungseong, compose } => match second {
                    Some(KeyValuePart::Cho { choseong }) => Ok(
                        KeyValue::ChoJung { choseong, jungseong, first: false, compose },
                    ),
                    Some(KeyValuePart::Jong { jongseong }) => Ok(
                        KeyValue::JungJong { jungseong, jongseong, first: true, compose },
                    ),
                    None => Ok(KeyValue::Jungseong { jungseong, compose }),
                    Some(KeyValuePart::Jung { .. }) => Err(()),
                },
                KeyValuePart::Jong { jongseong } => match second {
                    Some(KeyValuePart::Cho { choseong }) => Ok(KeyValue::Both { choseong, jongseong }),
                    Some(KeyValuePart::Jung { jungseong, compose }) => Ok(
                        KeyValue::JungJong { jungseong, jongseong, first: false, compose },
                    ),
                    None => Ok(KeyValue::Jongseong { jongseong }),
                    Some(KeyValuePart::Jong { .. }) => Err(()),
                },
            }
        },
    }
}

/// The initial consonant that the character `c` of a key value names.
fn initial_of(c: char) -> (r: Option<Choseong>)
    ensures
        r == key_initial(c),
{
    match Choseong::from_char(c) {
        Some(x) => Some(x),
        None => Choseong::from_char(cjamo_to_jamo(c)),
    }
}

/// The vowel that the character `c` of a key value names.
fn medial_of(c: char) -> (r: Option<Jungseong>)
    ensures
        r == key_medial(c),
{
    match Jungseong::from_char(c) {
        Some(x) => Some(x),
        None => Jungseong::from_char(cjamo_to_jamo(c)),
    }
}

/// The final consonant of a conjoining final, or of the final that sounds as a
/// conjoining initial.
fn final_of_jamo(c: char) -> (r: Option<Jongseong>)
    ensures
        r == final_from_char(c),
{
    match Jongseong::from_char(c) {
        Some(x) => Some(x),
        None => match Choseong::from_char(c) {
            Some(y) => choseong_to_jongseong(y),
            None => None,
        },
    }
}

/// The final consonant that the character `c` of a key value names.
fn final_of(c: char) -> (r: Option<Jongseong>)
    ensures
        r == key_final(c),
{
    match final_of_jamo(c) {
        Some(x) => Some(x),
        None => final_of_jamo(cjamo_to_jamo(c)),
    }
}

impl KeyValuePart {
    /// The part of a key value that starts at position `i` of `chars`, with the
    /// position after it.
    pub fn parse(chars: &Vec<char>, i: usize) -> (r: Option<(KeyValuePart, usize)>)
        ensures
            match spec_parse_part(chars@, i as int) {
                Some((p, k)) => r == Some((p, k as usize)) && k <= chars@.len(),
                None => r is None,
            },
    {
        if i >= chars.len() {
            return None;
        }
        if chars[i] == '$' {
            if i + 1 >= chars.len() {
                return None;
            }
            let c = chars[i + 1];
            match medial_of(c) {
                Some(j) => Some((KeyValuePart::Jung { jungseong: j, compose: false }, i + 2)),
                None => match final_of(c) {
                    Some(f) => Some((KeyValuePart::Jong { jongseong: f }, i + 2)),
                    None => None,
                },
            }
        } else {
            let c = chars[i];
            match initial_of(c) {
                Some(x) => Some((KeyValuePart::Cho { choseong: x }, i + 1)),
                None => match medial_of(c) {
                    Some(j) => Some((KeyValuePart::Jung { jungseong: j, compose: true }, i + 1)),
                    None => None,
                },
            }
        }
    }
}

impl KeyValue {
    /// The key value that the text `s` of a keyboard layout describes.
    pub fn parse(s: &str) -> (r: Result<KeyValue, ()>)
        ensures
            r == spec_parse_key_value(s@),
    {
        KeyValue::parse_chars(&chars_of(s))
    }

    /// The key value that the characters `chars` of a keyboard layout describe.
    pub fn parse_chars(chars: &Vec<char>) -> (r: Result<KeyValue, ()>)
        ensures
            r == spec_parse_key_value(chars@),
    {
        let (first, i) = match KeyValuePart::parse(chars, 0) {
            None => {
                if chars.len() == 0 {
                    return Err(());
                } else {
                    return Ok(KeyValue::Pass(chars[0]));
                }
            },
            Some(p) => p,
        };
        let second = match KeyValuePart::parse(chars, i) {
            Some((p, _)) => Some(p),
            None => None,
        };
        match first {
            KeyValuePart::Cho { choseong } => match second {
                Some(KeyValuePart::Jong { jongseong }) => Ok(KeyValue::Both { choseong, jongseong }),
                Some(KeyValuePart::Jung { jungseong, compose }) => Ok(
                    KeyValue::ChoJung { choseong, jungseong, first: true, compose },
                ),
                None => match choseong_to_jongseong(choseong) {
                    Some(jongseong) => Ok(KeyValue::Both { choseong, jongseong }),
                    None => Ok(KeyValue::Choseong { choseong }),
                },
                Some(KeyValuePart::Cho { .. }) => Err(()),
            },
            KeyValuePart::Jung { jungseong, compose } => match second {
                Some(KeyValuePart::Cho { choseong }) => Ok(
                    KeyValue::ChoJung { choseong, jungseong, first: false, compose },
                ),
                Some(KeyValuePart::Jong { jongseong }) => Ok(
                    KeyValue::JungJong { jungseong, jongseong, first: true, compose },
                ),
                None => Ok(KeyValue::Jungseong { jungseong, compose }),
                Some(KeyValuePart::Jung { .. }) => Err(()),
            },
            KeyValuePart::Jong { jongseong } => match second {
                Some(KeyValuePart::Cho { choseong }) => Ok(KeyValue::Both { choseong, jongseong }),
                Some(KeyValuePart::Jung { jungseong, compose }) => Ok(
                    KeyValue::JungJong { jungseong, jongseong, first: false, compose },
                ),
                None => Ok(KeyValue::Jongseong { jongseong }),
                Some(KeyValuePart::Jong { .. }) => Err(()),
            },
        }
    }
}

impl std::str::FromStr for KeyValue {
    type Err = ();

    fn from_str(s: &str) -> (r: Result<KeyValue, ()>)
        ensures
            r == spec_parse_key_value(s@),
    {
        KeyValue::parse(s)
    }
}

} // verus!
