use korean::engine::layout::KeyboardLayout;
use korean::input_context::{InputContext, InputOption};

/// The keys of the KPS 9256 layout that these tests type.
const KPS9256: &str = "# name: KPS 9256
q: ㅂ
w: ㅁ
e: ㄷ
r: ㄹ
t: ㅎ
y: ㅕ
u: ㅜ
i: ㅓ
o: ㅐ
p: ㅔ
a: ㅈ
s: ㄱ
d: ㅇ
f: ㄴ
g: ㅅ
h: ㅗ
j: ㅏ
k: ㅣ
l: ㅡ
z: ㅊ
x: ㅌ
c: ㅋ
v: ㅍ
b: ㅠ
n: ㅑ
m: ㅛ
S-q: ㅃ
S-e: ㄸ
S-s: ㄲ
S-a: ㅉ
S-g: ㅆ
S-o: ㅒ
S-p: ㅖ
S-Slash: ?
";

fn create_context(layout: &str) -> InputContext {
    assert_eq!(layout, "kps9256");
    let keyboard = KeyboardLayout::from_yaml(KPS9256).expect("valid layout");
    InputContext::new(layout, keyboard)
}

#[test]
fn test_word_unit_commit_backspace() {
    let mut ic = create_context("kps9256");
    ic.set_option(InputOption::WordUnitCommit, true);

    ic.process('g');
    assert_eq!(ic.preedit_string(), "ㅅ");
    ic.process('u');
    assert_eq!(ic.preedit_string(), "수");
    ic.process('r');
    assert_eq!(ic.preedit_string(), "술");
    ic.process('y');
    assert_eq!(ic.preedit_string(), "수려");
    ic.process('d');
    assert_eq!(ic.preedit_string(), "수령");

    ic.backspace();
    assert_eq!(ic.preedit_string(), "수려");
    ic.backspace();
    assert_eq!(ic.preedit_string(), "술");
    ic.backspace();
    assert_eq!(ic.preedit_string(), "수");
    ic.backspace();
    assert_eq!(ic.preedit_string(), "ㅅ");
    ic.backspace();
    assert_eq!(ic.preedit_string(), "");
}
