//! A Hangul input method: the composition of keystrokes into syllables,
//! keyboard layouts, input contexts and a hanja dictionary.

pub mod char_utils;
pub mod engine;
pub mod ffi;
pub mod hanja;
pub mod input_context;
pub mod keyboard;
pub mod text;

use vstd::prelude::*;

verus! {

/// The conjoining jamo that a compatibility jamo stands for as a token.
pub open spec fn spec_char_to_jamo(c: char) -> Option<u16> {
    match c {
        'ㄱ' => Some(0x1100u16),
        'ㄲ' => Some(0x1101u16),
        'ㄴ' => Some(0x1102u16),
        'ㄷ' => Some(0x1103u16),
        'ㄸ' => Some(0x1104u16),
        'ㄹ' => Some(0x1105u16),
        'ㅁ' => Some(0x1106u16),
        'ㅂ' => Some(0x1107u16),
        'ㅃ' => Some(0x1108u16),
        'ㅅ' => Some(0x1109u16),
        'ㅆ' => Some(0x110Au16),
        'ㅇ' => Some(0x110Bu16),
        'ㅈ' => Some(0x110Cu16),
        'ㅉ' => Some(0x110Du16),
        'ㅊ' => Some(0x110Eu16),
        'ㅋ' => Some(0x110Fu16),
        'ㅌ' => Some(0x1110u16),
        'ㅍ' => Some(0x1111u16),
        'ㅎ' => Some(0x1112u16),
        'ㅏ' => Some(0x1161u16),
        'ㅐ' => Some(0x1162u16),
        'ㅑ' => Some(0x1163u16),
        'ㅒ' => Some(0x1164u16),
        'ㅓ' => Some(0x1165u16),
        'ㅔ' => Some(0x1166u16),
        'ㅕ' => Some(0x1167u16),
        'ㅖ' => Some(0x1168u16),
        'ㅗ' => Some(0x1169u16),
        'ㅘ' => Some(0x116Au16),
        'ㅙ' => Some(0x116Bu16),
        'ㅚ' => Some(0x116Cu16),
        'ㅛ' => Some(0x116Du16),
        'ㅜ' => Some(0x116Eu16),
        'ㅝ' => Some(0x116Fu16),
        'ㅞ' => Some(0x1170u16),
        'ㅟ' => Some(0x1171u16),
        'ㅠ' => Some(0x1172u16),
        'ㅡ' => Some(0x1173u16),
        'ㅢ' => Some(0x1174u16),
        'ㅣ' => Some(0x1175u16),
        'ㄳ' => Some(0x11AAu16),
        'ㄵ' => Some(0x11ACu16),
        'ㄶ' => Some(0x11ADu16),
        'ㄺ' => Some(0x11B0u16),
        'ㄻ' => Some(0x11B1u16),
        'ㄼ' => Some(0x11B2u16),
        'ㄽ' => Some(0x11B3u16),
        'ㄾ' => Some(0x11B4u16),
        'ㄿ' => Some(0x11B5u16),
        'ㅀ' => Some(0x11B6u16),
        'ㅄ' => Some(0x11B9u16),
        _ => None,
    }
}

/// The conjoining jamo that a compatibility jamo stands for as a token.
pub fn char_to_jamo(c: char) -> (r: Option<u16>)
    ensures
        r == spec_char_to_jamo(c),
{
    match c {
        'ㄱ' => Some(0x1100),
        'ㄲ' => Some(0x1101),
        'ㄴ' => Some(0x1102),
        'ㄷ' => Some(0x1103),
        'ㄸ' => Some(0x1104),
        'ㄹ' => Some(0x1105),
        'ㅁ' => Some(0x1106),
        'ㅂ' => Some(0x1107),
        'ㅃ' => Some(0x1108),
        'ㅅ' => Some(0x1109),
        'ㅆ' => Some(0x110A),
        'ㅇ' => Some(0x110B),
        'ㅈ' => Some(0x110C),
        'ㅉ' => Some(0x110D),
        'ㅊ' => Some(0x110E),
        'ㅋ' => Some(0x110F),
        'ㅌ' => Some(0x1110),
        'ㅍ' => Some(0x1111),
        'ㅎ' => Some(0x1112),
        'ㅏ' => Some(0x1161),
        'ㅐ' => Some(0x1162),
        'ㅑ' => Some(0x1163),
        'ㅒ' => Some(0x1164),
        'ㅓ' => Some(0x1165),
        'ㅔ' => Some(0x1166),
        'ㅕ' => Some(0x1167),
        'ㅖ' => Some(0x1168),
        'ㅗ' => Some(0x1169),
        'ㅘ' => Some(0x116A),
        'ㅙ' => Some(0x116B),
        'ㅚ' => Some(0x116C),
        'ㅛ' => Some(0x116D),
        'ㅜ' => Some(0x116E),
        'ㅝ' => Some(0x116F),
        'ㅞ' => Some(0x1170),
        'ㅟ' => Some(0x1171),
        'ㅠ' => Some(0x1172),
        'ㅡ' => Some(0x1173),
        'ㅢ' => Some(0x1174),
        'ㅣ' => Some(0x1175),
        'ㄳ' => Some(0x11AA),
        'ㄵ' => Some(0x11AC),
        'ㄶ' => Some(0x11AD),
        'ㄺ' => Some(0x11B0),
        'ㄻ' => Some(0x11B1),
        'ㄼ' => Some(0x11B2),
        'ㄽ' => Some(0x11B3),
        'ㄾ' => Some(0x11B4),
        'ㄿ' => Some(0x11B5),
        'ㅀ' => Some(0x11B6),
        'ㅄ' => Some(0x11B9),
        _ => None,
    }
}

/// The values of the `Some` entries of `outs`, in order.
pub open spec fn somes(outs: Seq<Option<u16>>) -> Seq<u16>
    decreases outs.len(),
{
    if outs.len() == 0 {
        Seq::empty()
    } else {
        somes(outs.drop_last()) + match outs.last() {
            Some(t) => seq![t],
            None => Seq::empty(),
        }
    }
}

/// The tokens of the characters `s` that are compatibility jamo, in order.
pub open spec fn tokens(s: Seq<char>) -> Seq<u16> {
    somes(s.map_values(|c: char| spec_char_to_jamo(c)))
}

/// The jamo tokens of the compatibility jamo in `text`; other characters are
/// skipped.
pub fn tokenize(text: &str) -> (r: Vec<u16>)
    ensures
        r@ == tokens(text@),
{
    let mut v: Vec<u16> = Vec::new();
    for c in it: text.chars()
        invariant
            it.seq() == text@,
            v@ == tokens(it.seq().take(it.index() as int)),
    {
        let ghost done = it.seq().take(it.index() as int);
        if let Some(token) = char_to_jamo(c) {
            v.push(token);
        }
        proof {
            let next = it.seq().take(it.index() + 1);
            assert(next.drop_last() =~= done);
            assert(next.map_values(|c: char| spec_char_to_jamo(c)).drop_last() =~= done.map_values(
                |c: char| spec_char_to_jamo(c),
            ));
        }
    }
    assert(text@.take(text@.len() as int) =~= text@);
    v
}

/// The values that `f` gives for the characters of `text`, where it gives one.
pub fn tokenize_with_mapping<F>(text: &str, mapping_func: F) -> (r: Vec<u16>) where
    F: Fn(char) -> Option<u16>,

    requires
        forall|i: int| 0 <= i < text@.len() ==> call_requires(mapping_func, (text@[i],)),
    ensures
        exists|outs: Seq<Option<u16>>|
            {
                &&& outs.len() == text@.len()
                &&& forall|i: int|
                    0 <= i < outs.len() ==> call_ensures(mapping_func, (text@[i],), #[trigger] outs[i])
                &&& r@ == somes(outs)
            },
{
    let mut v: Vec<u16> = Vec::new();
    let ghost mut outs: Seq<Option<u16>> = Seq::empty();
    for c in it: text.chars()
        invariant
            it.seq() == text@,
            forall|i: int| 0 <= i < text@.len() ==> call_requires(mapping_func, (text@[i],)),
            outs.len() == it.index(),
            forall|i: int|
                0 <= i < outs.len() ==> call_ensures(mapping_func, (text@[i],), #[trigger] outs[i]),
            v@ == somes(outs),
    {
        let out = mapping_func(c);
        if let Some(token) = out {
            v.push(token);
        }
        proof {
            let prev = outs;
            outs = outs.push(out);
            assert(outs.drop_last() =~= prev);
        }
    }
    v
}

/// The jamo tokens of the compatibility jamo among `chars`.
pub fn tokenize_from_chars(chars: Vec<char>) -> (r: Vec<u16>)
    ensures
        r@ == tokens(chars@),
{
    let mut v: Vec<u16> = Vec::new();
    let n = chars.len();
    for i in 0..n
        invariant
            n == chars@.len(),
            v@ == tokens(chars@.take(i as int)),
    {
        if let Some(token) = char_to_jamo(chars[i]) {
            v.push(token);
        }
        proof {
            let next = chars@.take(i + 1);
            assert(next.drop_last() =~= chars@.take(i as int));
            assert(next.map_values(|c: char| spec_char_to_jamo(c)).drop_last() =~= chars@.take(
                i as int,
            ).map_values(|c: char| spec_char_to_jamo(c)));
        }
    }
    assert(chars@.take(n as int) =~= chars@);
    v
}

/// Tokenizing with `char_to_jamo` as the mapping gives the same tokens as
/// `tokenize`: whatever values satisfy the contract of `char_to_jamo` for each
/// character are exactly its tokens.
pub proof fn lemma_tokenize_with_char_to_jamo(s: Seq<char>, outs: Seq<Option<u16>>)
    requires
        outs.len() == s.len(),
        forall|i: int| 0 <= i < outs.len() ==> call_ensures(char_to_jamo, (s[i],), #[trigger] outs[i]),
    ensures
        somes(outs) == tokens(s),
    decreases s.len(),
{
    if s.len() > 0 {
        let k = s.len() - 1;
        assert(call_ensures(char_to_jamo, (s[k],), outs[k]));
        lemma_tokenize_with_char_to_jamo(s.drop_last(), outs.drop_last());
        assert(s.map_values(|c: char| spec_char_to_jamo(c)).drop_last() =~= s.drop_last().map_values(
            |c: char| spec_char_to_jamo(c),
        ));
        assert(outs =~= s.map_values(|c: char| spec_char_to_jamo(c)));
    } else {
        assert(outs =~= s.map_values(|c: char| spec_char_to_jamo(c)));
    }
}


/// The token of a compatibility jamo is the conjoining jamo of the same letter:
/// the conjoining jamo that shows it on its own is the character tokenized, it
/// is the modern initial of that letter where the letter has one, and it is an
/// initial, a medial or a final jamo. Exactly the modern compatibility jamo
/// have a token.
pub proof fn lemma_token_is_same_letter(c: char)
    ensures
        spec_char_to_jamo(c) is Some <==> 0x3131 <= c as u32 <= 0x3163,
        spec_char_to_jamo(c) matches Some(t) ==> {
            &&& crate::char_utils::spec_jamo_to_cjamo(t as char) == c
            &&& forall|x: crate::engine::jamo::Choseong|
                !x.spec_is_old() && #[trigger] x.compat_code() == Some(c as u32) ==> t == x.code()
            &&& (crate::char_utils::spec_is_choseong(t as char) || crate::char_utils::spec_is_jungseong(
                t as char,
            ) || crate::char_utils::spec_is_jongseong(t as char))
        },
{
}

} // verus!
