use korean::engine::layout::KeyboardLayout;
use korean::input_context::{InputContext, InputOption};

/// The keys of the KPS 9256 layout that these tests type.
const KPS9256: &str = "# name: KPS 9256
q: ㅂ
w: ㅁ
e: ㄷ
r: ㄹ
t: ㅎ
y: ㅕ
u: ㅜ
i: ㅓ
o: ㅐ
p: ㅔ
a: ㅈ
s: ㄱ
d: ㅇ
f: ㄴ
g: ㅅ
h: ㅗ
j: ㅏ
k: ㅣ
l: ㅡ
z: ㅊ
x: ㅌ
c: ㅋ
v: ㅍ
b: ㅠ
n: ㅑ
m: ㅛ
S-q: ㅃ
S-e: ㄸ
S-s: ㄲ
S-a: ㅉ
S-g: ㅆ
S-o: ㅒ
S-p: ㅖ
S-Slash: ?
";

/// The keys of the KPS 9256 layout with archaic jamo that these tests type.
const KPS9256_YETGULJA: &str = "# name: KPS 9256 with archaic jamo
s: ㄱ
f: ㄴ
j: ㅏ
S-f: \u{115D}
S-k: \u{1F135}
S-w: ㅿ
";

fn create_context(layout: &str) -> InputContext {
    let text = match layout {
        "kps9256" => KPS9256,
        "kps9256_yetgulja" => KPS9256_YETGULJA,
        _ => panic!("unknown layout {}", layout),
    };
    let keyboard = KeyboardLayout::from_yaml(text).expect("valid layout");
    InputContext::new(layout, keyboard)
}

#[test]
fn test_automatic_old_jamo_mode() {
    let ic_modern = create_context("kps9256");
    assert!(!ic_modern.get_option(InputOption::OldJamo));

    let ic_yetgulja = create_context("kps9256_yetgulja");
    assert!(ic_yetgulja.get_option(InputOption::OldJamo));
}

#[test]
fn test_yetgulja_combinations() {
    let mut ic = create_context("kps9256_yetgulja");
    ic.process('f');
    assert_eq!(ic.preedit_string(), "ㄴ");
    ic.process('s');
    assert_eq!(ic.preedit_string(), "ᄓ");
}

#[test]
fn test_modern_no_yetgulja_combinations() {
    let mut ic = create_context("kps9256");
    ic.process('f');
    assert_eq!(ic.preedit_string(), "ㄴ");
    ic.process('s');
    assert_eq!(ic.get_commit_string(), "ㄴ");
    assert_eq!(ic.preedit_string(), "ㄱ");
}

#[test]
fn test_yetgulja_syllable_break_marker() {
    let mut ic = create_context("kps9256_yetgulja");
    ic.process('j');
    assert_eq!(ic.preedit_string(), "ㅏ");

    ic.process('K');
    assert_eq!(ic.get_commit_string(), "ㅏ");
    assert_eq!(ic.preedit_string(), "");
}

#[test]
fn test_old_jamo_with_final_variant_works_as_final() {
    let mut ic = create_context("kps9256_yetgulja");
    ic.process('s');
    ic.process('j');
    ic.process('W');
    assert!(ic.preedit_string().contains('ᇫ'));
}

#[test]
fn test_old_jamo_standalone_prefers_compat_display() {
    let mut ic = create_context("kps9256_yetgulja");
    ic.process('W');
    assert_eq!(ic.preedit_string(), "ㅿ");
}
