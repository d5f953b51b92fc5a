//! The computations behind the C interface: classification and conversion of
//! code points handed over as integers. The C functions themselves, which take
//! and return raw pointers, are thin shims over these.

use vstd::prelude::*;

use crate::char_utils::{
    is_choseong, is_cjamo, is_jongseong, is_jungseong, is_syllable, jamo_to_cjamo,
    jamo_to_syllable, spec_is_choseong, spec_is_cjamo, spec_is_jongseong, spec_is_jungseong,
    spec_is_syllable, spec_jamo_to_cjamo, spec_jamo_to_syllable, spec_syllable_to_jamo,
    syllable_to_jamo,
};
use crate::engine::jamo::{char_from_u32, is_scalar_value};
use crate::input_context::{InputOption, OutputMode};

verus! {

broadcast use vstd::utf8::char_u32_cast;

/// The opaque handle under which C callers hold an input context.
pub struct KoreanInputContext {
    _private: (),
}

/// The character with code `c`, if `c` is a Unicode scalar value.
pub open spec fn code_char(c: u32) -> Option<char> {
    if is_scalar_value(c) {
        Some(c as char)
    } else {
        None
    }
}

/// The character with code `c`, if `c` is a Unicode scalar value.
fn to_char(c: u32) -> (r: Option<char>)
    ensures
        r == code_char(c),
{
    match char_from_u32(c) {
        Some(ch) => {
            proof {
                vstd::utf8::char_u32_cast(ch, c);
            }
            Some(ch)
        },
        None => None,
    }
}

/// `c` is the code of a conjoining initial consonant or the initial filler.
pub fn korean_is_initial(c: u32) -> (r: bool)
    ensures
        r == (code_char(c) matches Some(ch) && spec_is_choseong(ch)),
{
    match to_char(c) {
        Some(ch) => is_choseong(ch),
        None => false,
    }
}

/// `c` is the code of a conjoining medial vowel or the medial filler.
pub fn korean_is_medial(c: u32) -> (r: bool)
    ensures
        r == (code_char(c) matches Some(ch) && spec_is_jungseong(ch)),
{
    match to_char(c) {
        Some(ch) => is_jungseong(ch),
        None => false,
    }
}

/// `c` is the code of a conjoining final consonant.
pub fn korean_is_final(c: u32) -> (r: bool)
    ensures
        r == (code_char(c) matches Some(ch) && spec_is_jongseong(ch)),
{
    match to_char(c) {
        Some(ch) => is_jongseong(ch),
        None => false,
    }
}

/// `c` is the code of an initial that can be part of a syllable.
pub fn korean_is_initial_conjoinable(c: u32) -> (r: bool)
    ensures
        r == (code_char(c) matches Some(ch) && spec_is_choseong(ch)),
{
    korean_is_initial(c)
}

/// `c` is the code of a vowel that can be part of a syllable.
pub fn korean_is_medial_conjoinable(c: u32) -> (r: bool)
    ensures
        r == (code_char(c) matches Some(ch) && spec_is_jungseong(ch)),
{
    korean_is_medial(c)
}

/// `c` is the code of a final that can be part of a syllable.
pub fn korean_is_final_conjoinable(c: u32) -> (r: bool)
    ensures
        r == (code_char(c) matches Some(ch) && spec_is_jongseong(ch)),
{
    korean_is_final(c)
}

/// `c` is the code of a conjoining jamo of any position.
pub fn korean_is_initial_sound_conjoinable(c: u32) -> (r: bool)
    ensures
        r == (code_char(c) matches Some(ch) && (spec_is_choseong(ch) || spec_is_jungseong(ch)
            || spec_is_jongseong(ch))),
{
    korean_is_initial(c) || korean_is_medial(c) || korean_is_final(c)
}

/// `c` is the code of a precomposed syllable.
pub fn korean_is_syllable(c: u32) -> (r: bool)
    ensures
        r == (code_char(c) matches Some(ch) && spec_is_syllable(ch)),
{
    match to_char(c) {
        Some(ch) => is_syllable(ch),
        None => false,
    }
}

/// `c` is the code of a jamo: conjoining or compatibility.
pub fn korean_is_initial_sound(c: u32) -> (r: bool)
    ensures
        r == (code_char(c) matches Some(ch) && (spec_is_choseong(ch) || spec_is_jungseong(ch)
            || spec_is_jongseong(ch) || spec_is_cjamo(ch))),
{
    korean_is_initial_sound_conjoinable(c) || korean_is_cjamo(c)
}

/// `c` is the code of a compatibility jamo.
pub fn korean_is_cjamo(c: u32) -> (r: bool)
    ensures
        r == (code_char(c) matches Some(ch) && spec_is_cjamo(ch)),
{
    match to_char(c) {
        Some(ch) => is_cjamo(ch),
        None => false,
    }
}

/// The code of the compatibility jamo that shows the jamo `c`; `c` itself when
/// there is none or `c` is no scalar value.
pub fn korean_initial_sound_to_compat_initial(c: u32) -> (r: u32)
    ensures
        r == match code_char(c) {
            Some(ch) => spec_jamo_to_cjamo(ch) as u32,
            None => c,
        },
{
    match to_char(c) {
        Some(ch) => jamo_to_cjamo(ch) as u32,
        None => c,
    }
}

/// The code of the syllable of the jamo `initial`, `medial` and `fin` (0 for
/// none), or 0 where they make no single precomposed character.
pub fn korean_initial_sound_to_syllable(initial: u32, medial: u32, fin: u32) -> (r: u32)
    ensures
        r == match (code_char(initial), code_char(medial)) {
            (Some(c), Some(j)) => {
                let f = if fin == 0 { None } else { code_char(fin) };
                match spec_jamo_to_syllable(c, j, f) {
                    Some(s) => if s.len() == 1 { s[0] as u32 } else { 0 },
                    None => 0,
                }
            },
            _ => 0,
        },
{
    let c = to_char(initial);
    let j = to_char(medial);
    let f = if fin == 0 { None } else { to_char(fin) };
    match (c, j) {
        (Some(c), Some(j)) => {
            if let Some(syl) = jamo_to_syllable(c, j, f) {
                let chars = crate::text::chars_of(syl.as_str());
                if chars.len() == 1 {
                    return chars[0] as u32;
                }
            }
            0
        },
        _ => 0,
    }
}

/// The codes of the initial, medial and final jamo (0 for none) of the
/// syllable `syl`, or `None` when `syl` is no syllable.
pub fn korean_syllable_to_initial_sound(syl: u32) -> (r: Option<(u32, u32, u32)>)
    ensures
        r == match code_char(syl) {
            Some(ch) => match spec_syllable_to_jamo(ch) {
                Some((c, j, f)) => Some(
                    (
                        c as u32,
                        j as u32,
                        match f {
                            Some(x) => x as u32,
                            None => 0,
                        },
                    ),
                ),
                None => None,
            },
            None => None,
        },
{
    match to_char(syl) {
        Some(ch) => match syllable_to_jamo(ch) {
            Some((c, j, f)) => {
                let fc = match f {
                    Some(x) => x as u32,
                    None => 0,
                };
                Some((c as u32, j as u32, fc))
            },
            None => None,
        },
        None => None,
    }
}


/// The option that a C caller names by the number `code`, if any: the options
/// in the order auto reorder, combination on double stroke, non-initial
/// combination, archaic jamo, names of the leaders, commit by word.
pub open spec fn spec_option_from_code(code: i32) -> Option<InputOption> {
    if code == 0 {
        Some(InputOption::AutoReorder)
    } else if code == 1 {
        Some(InputOption::CombiOnDoubleStroke)
    } else if code == 2 {
        Some(InputOption::NonInitialCombi)
    } else if code == 3 {
        Some(InputOption::OldJamo)
    } else if code == 4 {
        Some(InputOption::NobleName)
    } else if code == 5 {
        Some(InputOption::WordUnitCommit)
    } else {
        None
    }
}

/// The option that a C caller names by the number `code`, if any.
pub fn option_from_code(code: i32) -> (r: Option<InputOption>)
    ensures
        r == spec_option_from_code(code),
{
    if code == 0 {
        Some(InputOption::AutoReorder)
    } else if code == 1 {
        Some(InputOption::CombiOnDoubleStroke)
    } else if code == 2 {
        Some(InputOption::NonInitialCombi)
    } else if code == 3 {
        Some(InputOption::OldJamo)
    } else if code == 4 {
        Some(InputOption::NobleName)
    } else if code == 5 {
        Some(InputOption::WordUnitCommit)
    } else {
        None
    }
}

/// The output mode that a C caller names by the number `mode`: jamo for 1,
/// syllables for any other number.
pub fn output_mode_from_code(mode: i32) -> (r: OutputMode)
    ensures
        r == (if mode == 1 {
            OutputMode::Jamo
        } else {
            OutputMode::Syllable
        }),
{
    if mode == 1 {
        OutputMode::Jamo
    } else {
        OutputMode::Syllable
    }
}

/// The keystroke that a C caller hands over as the number `code`: an ASCII
/// character, or none for a number outside ASCII.
pub fn key_from_code(code: i32) -> (r: Option<char>)
    ensures
        r == (if 0 <= code <= 0x7f {
            Some((code as u32) as char)
        } else {
            None::<char>
        }),
{
    if 0 <= code && code <= 0x7f {
        let b = code as u8;
        let c = b as char;
        proof {
            vstd::utf8::char_u32_cast(c, code as u32);
        }
        Some(c)
    } else {
        None
    }
}

} // verus!
