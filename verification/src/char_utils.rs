//! Classification of Hangul characters and conversions between precomposed
//! syllables, conjoining jamo and compatibility jamo.

use vstd::prelude::*;

use crate::engine::compose::{spec_compose, spec_decompose};
use crate::engine::jamo::{
    char_from_u32, cjamo_to_jamo_code, group_jamo_index, spec_cjamo_to_jamo_code, Choseong,
    Jongseong, Jungseong,
};

verus! {

broadcast use {group_jamo_index, vstd::utf8::char_u32_cast};

/// `c` is a conjoining initial consonant or the initial filler.
pub open spec fn spec_is_choseong(c: char) -> bool {
    (0x1100 <= c as u32 <= 0x115F) || (0xA960 <= c as u32 <= 0xA97C)
}

/// `c` is a conjoining medial vowel or the medial filler.
pub open spec fn spec_is_jungseong(c: char) -> bool {
    (0x1160 <= c as u32 <= 0x11A7) || (0xD7B0 <= c as u32 <= 0xD7C6)
}

/// `c` is a conjoining final consonant.
pub open spec fn spec_is_jongseong(c: char) -> bool {
    (0x11A8 <= c as u32 <= 0x11FF) || (0xD7CB <= c as u32 <= 0xD7FB)
}

/// `c` is a precomposed Hangul syllable.
pub open spec fn spec_is_syllable(c: char) -> bool {
    0xAC00 <= c as u32 <= 0xD7A3
}

/// `c` is a Hangul compatibility jamo.
pub open spec fn spec_is_cjamo(c: char) -> bool {
    0x3131 <= c as u32 <= 0x318E
}

/// `c` is a conjoining initial consonant or the initial filler.
pub fn is_choseong(c: char) -> (r: bool)
    ensures
        r == spec_is_choseong(c),
{
    let n = c as u32;
    (0x1100 <= n && n <= 0x115F) || (0xA960 <= n && n <= 0xA97C)
}

/// `c` is a conjoining medial vowel or the medial filler.
pub fn is_jungseong(c: char) -> (r: bool)
    ensures
        r == spec_is_jungseong(c),
{
    let n = c as u32;
    (0x1160 <= n && n <= 0x11A7) || (0xD7B0 <= n && n <= 0xD7C6)
}

/// `c` is a conjoining final consonant.
pub fn is_jongseong(c: char) -> (r: bool)
    ensures
        r == spec_is_jongseong(c),
{
    let n = c as u32;
    (0x11A8 <= n && n <= 0x11FF) || (0xD7CB <= n && n <= 0xD7FB)
}

/// `c` is a precomposed Hangul syllable.
pub fn is_syllable(c: char) -> (r: bool)
    ensures
        r == spec_is_syllable(c),
{
    let n = c as u32;
    0xAC00 <= n && n <= 0xD7A3
}

/// `c` is a Hangul compatibility jamo.
pub fn is_cjamo(c: char) -> (r: bool)
    ensures
        r == spec_is_cjamo(c),
{
    let n = c as u32;
    0x3131 <= n && n <= 0x318E
}

/// The character that shows the conjoining jamo `c` on its own: its
/// compatibility jamo where there is one, the Hangul filler for the two fillers,
/// and `c` itself otherwise.
pub open spec fn spec_jamo_to_cjamo(c: char) -> char {
    let n = c as u32;
    if n == 0x115F || n == 0x1160 {
        '\u{3164}'
    } else {
        let compat = match Choseong::from_code(n) {
            Some(x) => x.compat_code(),
            None => match Jungseong::from_code(n) {
                Some(x) => x.compat_code(),
                None => match Jongseong::from_code(n) {
                    Some(x) => x.compat_code(),
                    None => None,
                },
            },
        };
        match compat {
            Some(k) => k as char,
            None => c,
        }
    }
}

/// Compatibility jamo all lie in the block U+3131–U+318E.
proof fn lemma_compat_codes()
    ensures
        forall|x: Choseong| #[trigger] x.compat_code() matches Some(k) ==> 0x3131 <= k <= 0x318E,
        forall|x: Jungseong| #[trigger] x.compat_code() matches Some(k) ==> 0x3131 <= k <= 0x318E,
        forall|x: Jongseong| #[trigger] x.compat_code() matches Some(k) ==> 0x3131 <= k <= 0x318E,
{
}

/// The character that shows the conjoining jamo `c` on its own.
pub fn jamo_to_cjamo(c: char) -> (r: char)
    ensures
        r == spec_jamo_to_cjamo(c),
{
    proof {
        lemma_compat_codes();
    }
    let n = c as u32;
    if n == 0x115F || n == 0x1160 {
        return '\u{3164}';
    }
    let compat = if let Some(x) = Choseong::from_char(c) {
        x.compat()
    } else if let Some(x) = Jungseong::from_char(c) {
        x.compat()
    } else if let Some(x) = Jongseong::from_char(c) {
        x.compat()
    } else {
        None
    };
    match compat {
        Some(k) => match char_from_u32(k) {
            Some(r) => {
                proof {
                    vstd::utf8::char_u32_cast(r, k);
                }
                r
            },
            None => c,
        },
        None => c,
    }
}

/// The compatibility jamo stand for conjoining jamo, which lie below the surrogates.
proof fn lemma_jamo_codes()
    ensures
        forall|n: u32| #[trigger] spec_cjamo_to_jamo_code(n) matches Some(k) ==> 0x1100 <= k < 0xD800,
{
}

/// The conjoining jamo that the compatibility jamo `c` stands for, and any
/// other character unchanged.
pub open spec fn spec_cjamo_to_jamo(c: char) -> char {
    match spec_cjamo_to_jamo_code(c as u32) {
        Some(k) => k as char,
        None => c,
    }
}

/// The conjoining jamo that the compatibility jamo `c` stands for, and any
/// other character unchanged.
pub fn cjamo_to_jamo(c: char) -> (r: char)
    ensures
        r == spec_cjamo_to_jamo(c),
{
    proof {
        lemma_jamo_codes();
    }
    match cjamo_to_jamo_code(c as u32) {
        Some(k) => match char_from_u32(k) {
            Some(r) => {
                proof {
                    vstd::utf8::char_u32_cast(r, k);
                }
                r
            },
            None => c,
        },
        None => c,
    }
}

/// The conjoining jamo of the precomposed syllable `c`.
pub open spec fn spec_syllable_to_jamo(c: char) -> Option<(char, char, Option<char>)> {
    if spec_is_syllable(c) {
        match spec_decompose(c) {
            Some((x, y, z)) => Some(
                (
                    x.code() as char,
                    y.code() as char,
                    match z {
                        Some(w) => Some(w.code() as char),
                        None => None,
                    },
                ),
            ),
            None => None,
        }
    } else {
        None
    }
}

/// The conjoining jamo of the precomposed syllable `c`.
pub fn syllable_to_jamo(c: char) -> (r: Option<(char, char, Option<char>)>)
    ensures
        r == spec_syllable_to_jamo(c),
{
    if !is_syllable(c) {
        return None;
    }
    match Choseong::decompose(c) {
        Some((x, y, z)) => {
            let f = match z {
                Some(w) => Some(w.to_char()),
                None => None,
            };
            Some((x.to_char(), y.to_char(), f))
        },
        None => None,
    }
}

/// The syllable that the conjoining jamo `c`, `j` and `f` compose.
pub open spec fn spec_jamo_to_syllable(c: char, j: char, f: Option<char>) -> Option<Seq<char>> {
    match (Choseong::spec_from_char(c), Jungseong::spec_from_char(j)) {
        (Some(x), Some(y)) => match f {
            None => Some(spec_compose(x, y, None)),
            Some(fc) => match Jongseong::spec_from_char(fc) {
                Some(z) => Some(spec_compose(x, y, Some(z))),
                None => None,
            },
        },
        _ => None,
    }
}

/// The syllable that the conjoining jamo `c`, `j` and `f` compose: the
/// precomposed syllable where one exists, the jamo themselves otherwise.
pub fn jamo_to_syllable(c: char, j: char, f: Option<char>) -> (r: Option<String>)
    ensures
        match spec_jamo_to_syllable(c, j, f) {
            Some(s) => r matches Some(t) && t@ == s,
            None => r is None,
        },
{
    let x = match Choseong::from_char(c) {
        Some(x) => x,
        None => return None,
    };
    let y = match Jungseong::from_char(j) {
        Some(y) => y,
        None => return None,
    };
    match f {
        None => Some(x.compose(y, None)),
        Some(fc) => match Jongseong::from_char(fc) {
            Some(z) => Some(x.compose(y, Some(z))),
            None => None,
        },
    }
}


/// A precomposed syllable split into its jamo composes back into itself.
pub proof fn lemma_syllable_roundtrip(ch: char)
    requires
        spec_is_syllable(ch),
    ensures
        spec_syllable_to_jamo(ch) matches Some((c, j, f)) && spec_jamo_to_syllable(c, j, f) == Some(
            seq![ch],
        ),
{
    crate::engine::compose::lemma_compose_decompose(ch);
    let (x, y, z) = spec_decompose(ch)->0;
    vstd::utf8::char_u32_cast(x.code() as char, x.code());
    vstd::utf8::char_u32_cast(y.code() as char, y.code());
    Choseong::lemma_from_code(x.code(), x);
    Jungseong::lemma_from_code(y.code(), y);
    match z {
        Some(w) => {
            vstd::utf8::char_u32_cast(w.code() as char, w.code());
            Jongseong::lemma_from_code(w.code(), w);
        },
        None => {},
    }
}

} // verus!
