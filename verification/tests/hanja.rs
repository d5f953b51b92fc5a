use korean::hanja::{HanjaError, HanjaTable};

const DICTIONARY: &str = "# a small dictionary
가:家:집 가
가:價:값 가

가나:假:거짓 가: 가
나:羅
  # an indented comment
다:多
";

fn values(v: &[korean::hanja::Hanja]) -> Vec<String> {
    v.iter().map(|h| h.value.clone()).collect()
}

#[test]
fn test_match_prefix_shortening() {
    let key = "abc";
    let chars: Vec<char> = key.chars().collect();
    let expected_lengths = vec![3, 2, 1];

    for &len in &expected_lengths {
        let sub: String = chars[..len].iter().collect();
        assert_eq!(sub.len(), len);
    }
}

#[test]
fn test_load_and_search() {
    let dict = HanjaTable::from_content(DICTIONARY).expect("the dictionary is indexed");
    let results = dict.match_prefix("가");
    assert_eq!(values(&results), vec!["家", "價"]);
}

#[test]
fn test_match_exact_reads_all_lines_of_a_key() {
    let dict = HanjaTable::from_content(DICTIONARY).unwrap();
    let found = dict.match_exact("가").expect("entries of 가");
    assert_eq!(found.len(), 2);
    assert_eq!(found[0].key, "가");
    assert_eq!(found[0].value, "家");
    assert_eq!(found[0].comment.as_deref(), Some("집 가"));
    assert_eq!(found[1].value, "價");
    assert!(dict.match_exact("라").is_none());
    assert!(dict.match_exact("").is_none());
}

#[test]
fn test_comment_keeps_later_colons() {
    let dict = HanjaTable::from_content(DICTIONARY).unwrap();
    let found = dict.match_exact("가나").unwrap();
    assert_eq!(found.len(), 1);
    assert_eq!(found[0].value, "假");
    assert_eq!(found[0].comment.as_deref(), Some("거짓 가: 가"));
    let found = dict.match_exact("나").unwrap();
    assert_eq!(found[0].comment, None);
}

#[test]
fn test_match_prefix_longest_first() {
    let dict = HanjaTable::from_content(DICTIONARY).unwrap();
    assert_eq!(values(&dict.match_prefix("가나다")), vec!["假", "家", "價"]);
    assert!(dict.match_prefix("").is_empty());
}

#[test]
fn test_match_suffix_longest_first() {
    let dict = HanjaTable::from_content(DICTIONARY).unwrap();
    assert_eq!(values(&dict.match_suffix("가나")), vec!["假", "羅"]);
    assert_eq!(values(&dict.match_suffix("나다")), vec!["多"]);
}

#[test]
fn test_key_indexed_twice_is_refused() {
    let text = "가:家\n나:羅\n가:價\n";
    assert!(matches!(HanjaTable::from_content(text), Err(HanjaError::Index)));
}

#[test]
fn test_empty_dictionary() {
    let dict = HanjaTable::from_content("").unwrap();
    assert!(dict.match_exact("가").is_none());
    assert!(dict.match_suffix("가").is_empty());
}

#[test]
fn test_matches_carry_the_key_asked_for() {
    let dict = HanjaTable::from_content(DICTIONARY).unwrap();
    let key = "가나다";
    for h in dict.match_prefix(key) {
        assert!(key.starts_with(h.key.as_str()));
    }
    for h in dict.match_suffix("가나") {
        assert!("가나".ends_with(h.key.as_str()));
    }
    for h in dict.match_exact("가").unwrap() {
        assert_eq!(h.key, "가");
    }
}

#[test]
fn test_entry_line() {
    let dict = HanjaTable::from_content(DICTIONARY).unwrap();
    let found = dict.match_exact("가").unwrap();
    assert_eq!(korean::hanja::entry_line(&found[0]), "가:家:집 가");
    let found = dict.match_exact("나").unwrap();
    assert_eq!(korean::hanja::entry_line(&found[0]), "나:羅:");
}
