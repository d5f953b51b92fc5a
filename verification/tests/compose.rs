use korean::engine::{Choseong, InputOptions, Jongseong, Jungseong, KeyValue};

#[test]
fn test_compose_decompose() {
    let (choseong, jungseong, jongseong) = Choseong::decompose('앙').unwrap();
    assert_eq!(choseong, Choseong::Ieung);
    assert_eq!(jungseong, Jungseong::A);
    assert_eq!(jongseong, Some(Jongseong::Ieung));
    assert_eq!(choseong.compose(jungseong, jongseong), "앙");
}

#[test]
fn test_parse_keyvalue() {
    assert_eq!(
        "ㅇ".parse::<KeyValue>().unwrap(),
        KeyValue::Both {
            choseong: Choseong::Ieung,
            jongseong: Jongseong::Ieung
        }
    );
    assert_eq!(
        "ㅏ".parse::<KeyValue>().unwrap(),
        KeyValue::Jungseong {
            jungseong: Jungseong::A,
            compose: true
        }
    );
    assert_eq!(
        "ㅋ$ㄱ".parse::<KeyValue>().unwrap(),
        KeyValue::Both {
            choseong: Choseong::Khieukh,
            jongseong: Jongseong::Kiyeok,
        }
    );
}

#[test]
fn test_old_jamo_initial() {
    assert_eq!(char::from(Choseong::Yeorinhieuh), 'ᅙ');
    assert_eq!(char::from(Choseong::NieunHieuh), 'ᅝ');
    assert_eq!(char::from(Choseong::ChitueumSios), 'ᄼ');
}

#[test]
fn test_old_jamo_medial() {
    // Araea is U+119E (Conjoining Jamo), not U+3152 (Compatibility Jamo)
    assert_eq!(char::from(Jungseong::Araea), 'ᆞ');
}

#[test]
fn test_old_jamo_final() {
    assert_eq!(char::from(Jongseong::Yeorinhieuh), 'ᇹ');
}

#[test]
fn test_old_jamo_mode_combinations() {
    let mut opts = InputOptions {
        old_jamo: false,
        combi_on_double_stroke: true,
        ..Default::default()
    };
    assert!(Choseong::Kiyeok.try_add(Choseong::Kiyeok, opts).is_some());

    opts.old_jamo = true;
    // Old initial combination: ᄂ + ᄒ → ᅝ
    assert_eq!(
        Choseong::Nieun.try_add(Choseong::Hieuh, opts),
        Some(Choseong::NieunHieuh)
    );
}
