use korean::{char_to_jamo, tokenize, tokenize_from_chars, tokenize_with_mapping};

#[test]
fn test_char_to_jamo() {
    assert_eq!(char_to_jamo('ㄱ'), Some(0x1100));
    assert_eq!(char_to_jamo('ㅏ'), Some(0x1161));
    assert_eq!(char_to_jamo('ㅂ'), Some(0x1107));
    assert_eq!(char_to_jamo('ㄳ'), Some(0x11AA));
    assert_eq!(char_to_jamo('Z'), None);
}

#[test]
fn test_tokenize() {
    let result = tokenize("ㅇㅏㄴㄴㅕㅇㅎㅏㅅㅣㅂㄴㅣㄲㅏ");
    assert!(!result.is_empty());
}

#[test]
fn test_tokenize_with_mapping() {
    let result = tokenize_with_mapping("ㅇㅏㄴㄴㅕㅇㅎㅏㅅㅣㅂㄴㅣㄲㅏ", char_to_jamo);
    assert!(!result.is_empty());
}

#[test]
fn test_tokenize_from_chars() {
    let chars = vec!['ㅇ', 'ㅏ', 'ㄴ', 'ㄴ', 'ㅕ', 'ㅇ', 'ㅎ', 'ㅏ', 'ㅅ', 'ㅣ', 'ㅂ', 'ㄴ', 'ㅣ', 'ㄲ', 'ㅏ'];
    let result = tokenize_from_chars(chars);
    assert!(!result.is_empty());
}
