use korean::engine::layout::KeyboardLayout;
use korean::input_context::{InputContext, InputOption};

/// The keys of the KPS 9256 layout that these tests type.
const KPS9256: &str = "# name: KPS 9256
q: ㅂ
w: ㅁ
e: ㄷ
r: ㄹ
t: ㅎ
y: ㅕ
u: ㅜ
i: ㅓ
o: ㅐ
p: ㅔ
a: ㅈ
s: ㄱ
d: ㅇ
f: ㄴ
g: ㅅ
h: ㅗ
j: ㅏ
k: ㅣ
l: ㅡ
z: ㅊ
x: ㅌ
c: ㅋ
v: ㅍ
b: ㅠ
n: ㅑ
m: ㅛ
S-q: ㅃ
S-e: ㄸ
S-s: ㄲ
S-a: ㅉ
S-g: ㅆ
S-o: ㅒ
S-p: ㅖ
S-Slash: ?
";

fn create_context(layout: &str) -> InputContext {
    assert_eq!(layout, "kps9256");
    let keyboard = KeyboardLayout::from_yaml(KPS9256).expect("valid layout");
    InputContext::new(layout, keyboard)
}

#[test]
fn test_backspace_input_order_kps9256() {
    // ㅅ + ㅐ
    let mut ic = create_context("kps9256");
    ic.process('g');
    ic.process('o');
    assert_eq!(ic.preedit_string(), "새");
    ic.backspace();
    assert_eq!(ic.preedit_string(), "ㅅ");
    ic.backspace();
    assert_eq!(ic.preedit_string(), "");

    // ㅅ + ㅏ + ㅣ
    let mut ic = create_context("kps9256");
    ic.process('g');
    ic.process('j');
    ic.process('k');
    assert_eq!(ic.preedit_string(), "새");
    ic.backspace();
    assert_eq!(ic.preedit_string(), "사");
    ic.backspace();
    assert_eq!(ic.preedit_string(), "ㅅ");
    ic.backspace();
    assert_eq!(ic.preedit_string(), "");

    // ㅆ + ㅐ
    let mut ic = create_context("kps9256");
    ic.process('G');
    ic.process('o');
    assert_eq!(ic.preedit_string(), "쌔");
    ic.backspace();
    assert_eq!(ic.preedit_string(), "ㅆ");
    ic.backspace();
    assert_eq!(ic.preedit_string(), "");

    // ㅆ + ㅏ + ㅣ
    let mut ic = create_context("kps9256");
    ic.process('G');
    ic.process('j');
    ic.process('k');
    assert_eq!(ic.preedit_string(), "쌔");
    ic.backspace();
    assert_eq!(ic.preedit_string(), "싸");
    ic.backspace();
    assert_eq!(ic.preedit_string(), "ㅆ");
    ic.backspace();
    assert_eq!(ic.preedit_string(), "");

    // ㅅ + ㅅ + ㅐ, pressing a consonant twice giving its tense form
    let mut ic = create_context("kps9256");
    ic.set_option(InputOption::CombiOnDoubleStroke, true);
    ic.process('g');
    ic.process('g');
    ic.process('o');
    assert_eq!(ic.preedit_string(), "쌔");
    ic.backspace();
    assert_eq!(ic.preedit_string(), "ㅆ");
    ic.backspace();
    assert_eq!(ic.preedit_string(), "ㅅ");
    ic.backspace();
    assert_eq!(ic.preedit_string(), "");
}
