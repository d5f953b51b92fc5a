use korean::engine::layout::KeyboardLayout;
use korean::engine::{Choseong, Jongseong, Jungseong, KeyValue};

const LAYOUT: &str = "# name: Test
# a comment line
r: ㄱ
k: ㅏ
'S-r': \"ㄲ\"
S-1: !
Minus: ㅡ
S-Minus: _
eo: ㅓ
ng: $ㅇ
x:
no colon here
";

#[test]
fn test_from_yaml_entries() {
    let layout = KeyboardLayout::from_yaml(LAYOUT).unwrap();
    assert_eq!(
        layout.lookup("r", false),
        Some(KeyValue::Both {
            choseong: Choseong::Kiyeok,
            jongseong: Jongseong::Kiyeok
        })
    );
    assert_eq!(
        layout.lookup("k", false),
        Some(KeyValue::Jungseong {
            jungseong: Jungseong::A,
            compose: true
        })
    );
    assert_eq!(
        layout.lookup("R", false),
        Some(KeyValue::Both {
            choseong: Choseong::SsangKiyeok,
            jongseong: Jongseong::SsangKiyeok
        })
    );
    assert_eq!(layout.lookup("!", false), Some(KeyValue::Pass('!')));
    assert_eq!(
        layout.lookup("-", false),
        Some(KeyValue::Jungseong {
            jungseong: Jungseong::Eu,
            compose: true
        })
    );
    assert_eq!(layout.lookup("_", false), Some(KeyValue::Pass('_')));
    assert_eq!(
        layout.lookup("ng", false),
        Some(KeyValue::Jongseong {
            jongseong: Jongseong::Ieung
        })
    );
    assert_eq!(layout.lookup("x", false), None);
    assert_eq!(layout.lookup("no colon here", false), None);
}

#[test]
fn test_lookup_case_insensitive() {
    let layout = KeyboardLayout::from_yaml(LAYOUT).unwrap();
    assert_eq!(layout.lookup("EO", false), None);
    assert_eq!(
        layout.lookup("EO", true),
        Some(KeyValue::Jungseong {
            jungseong: Jungseong::Eo,
            compose: true
        })
    );
}

#[test]
fn test_is_prefix() {
    let layout = KeyboardLayout::from_yaml(LAYOUT).unwrap();
    assert!(layout.is_prefix("e", false));
    assert!(layout.is_prefix("n", false));
    assert!(!layout.is_prefix("eo", false));
    assert!(!layout.is_prefix("E", false));
    assert!(layout.is_prefix("E", true));
    assert!(!layout.is_prefix("q", true));
}

#[test]
fn test_layout_kinds() {
    let layout = KeyboardLayout::from_yaml(LAYOUT).unwrap();
    assert!(layout.has_multi_char_keys());
    assert!(!layout.has_old_jamo());
    let plain = KeyboardLayout::from_yaml("r: ㄱ\nk: ㅏ\n").unwrap();
    assert!(!plain.has_multi_char_keys());
    let old = KeyboardLayout::from_yaml("W: ㅿ\n").unwrap();
    assert!(old.has_old_jamo());
}

#[test]
fn test_later_line_overrides_earlier() {
    let layout = KeyboardLayout::from_yaml("r: ㄱ\nr: ㅏ\n").unwrap();
    assert_eq!(
        layout.lookup("r", false),
        Some(KeyValue::Jungseong {
            jungseong: Jungseong::A,
            compose: true
        })
    );
}
