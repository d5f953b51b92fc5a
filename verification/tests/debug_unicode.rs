use korean::engine::layout::KeyboardLayout;
use korean::input_context::InputContext;

/// The keys of the KPS 9256 layout that these tests type.
const KPS9256: &str = "# name: KPS 9256
q: ㅂ
w: ㅁ
e: ㄷ
r: ㄹ
t: ㅎ
y: ㅕ
u: ㅜ
i: ㅓ
o: ㅐ
p: ㅔ
a: ㅈ
s: ㄱ
d: ㅇ
f: ㄴ
g: ㅅ
h: ㅗ
j: ㅏ
k: ㅣ
l: ㅡ
z: ㅊ
x: ㅌ
c: ㅋ
v: ㅍ
b: ㅠ
n: ㅑ
m: ㅛ
S-q: ㅃ
S-e: ㄸ
S-s: ㄲ
S-a: ㅉ
S-g: ㅆ
S-o: ㅒ
S-p: ㅖ
S-Slash: ?
";

fn create_context(layout: &str) -> InputContext {
    assert_eq!(layout, "kps9256");
    let keyboard = KeyboardLayout::from_yaml(KPS9256).expect("valid layout");
    InputContext::new(layout, keyboard)
}

#[test]
fn debug_unicode() {
    let mut ic = create_context("kps9256");
    ic.process('s');
    ic.process('k');
    ic.process('w');
    let result = ic.preedit_string();
    assert_eq!(result, "김", "Expected 김 (U+AE40), got {:?}", result);
}
