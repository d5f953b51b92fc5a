use korean::char_utils::{
    is_choseong, is_cjamo, is_jongseong, is_jungseong, is_syllable, jamo_to_cjamo,
    syllable_to_jamo,
};

#[test]
fn test_korean_jamo_to_cjamo() {
    assert_eq!(jamo_to_cjamo('\u{11F2}'), '\u{3183}');
    assert_eq!(jamo_to_cjamo('\u{A971}'), '\u{316F}');
    assert_eq!(jamo_to_cjamo('\u{D7F9}'), '\u{3149}');
}

#[test]
fn test_syllable_decomposition() {
    let tests = vec![
        ('가', ('\u{1100}', '\u{1161}', None)),
        ('각', ('\u{1100}', '\u{1161}', Some('\u{11A8}'))),
        ('핵', ('\u{1112}', '\u{1162}', Some('\u{11A8}'))),
        ('힣', ('\u{1112}', '\u{1175}', Some('\u{11C2}'))),
    ];

    for (syl, expected) in tests {
        let result = syllable_to_jamo(syl).unwrap();
        assert_eq!(result, expected, "Failed for {}", syl);
    }
}

#[test]
fn test_character_classification() {
    assert!(is_choseong('\u{1100}'));
    assert!(is_choseong('\u{1112}'));
    assert!(is_choseong('\u{A960}'));
    assert!(!is_choseong('\u{1161}'));

    assert!(is_jungseong('\u{1161}'));
    assert!(is_jungseong('\u{1175}'));
    assert!(is_jungseong('\u{D7B0}'));
    assert!(!is_jungseong('\u{1100}'));

    assert!(is_jongseong('\u{11A8}'));
    assert!(is_jongseong('\u{11C2}'));
    assert!(is_jongseong('\u{D7CB}'));
    assert!(!is_jongseong('\u{1100}'));

    assert!(is_syllable('가'));
    assert!(is_syllable('힣'));
    assert!(!is_syllable('\u{1100}'));
    assert!(!is_syllable('a'));

    assert!(is_cjamo('\u{3131}'));
    assert!(is_cjamo('\u{318E}'));
    assert!(!is_cjamo('\u{1100}'));
}
