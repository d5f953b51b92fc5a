use korean::engine::layout::KeyboardLayout;
use korean::input_context::{InputContext, InputOption};

/// The standard two-set layout.
const TUBOLSIK: &str = "# name: Tubolsik
q: ㅂ
w: ㅈ
e: ㄷ
r: ㄱ
t: ㅅ
y: ㅛ
u: ㅕ
i: ㅑ
o: ㅐ
p: ㅔ
a: ㅁ
s: ㄴ
d: ㅇ
f: ㄹ
g: ㅎ
h: ㅗ
j: ㅓ
k: ㅏ
l: ㅣ
z: ㅋ
x: ㅌ
c: ㅊ
v: ㅍ
b: ㅠ
n: ㅜ
m: ㅡ
S-q: ㅃ
S-w: ㅉ
S-e: ㄸ
S-r: ㄲ
S-t: ㅆ
S-o: ㅒ
S-p: ㅖ
";

fn create_ic(layout: &str) -> InputContext {
    assert_eq!(layout, "tubolsik");
    let keyboard = KeyboardLayout::from_yaml(TUBOLSIK).expect("valid layout");
    InputContext::new(layout, keyboard)
}

#[test]
fn test_multi_syllable_backspace_noble_name() {
    let mut ic = create_ic("tubolsik");
    ic.set_option(InputOption::NobleName, true);

    // Type "김일" (R, L, A, D, L, F)
    let keys = vec!['r', 'l', 'a', 'd', 'l', 'f'];
    for k in keys {
        ic.process(k);
    }
    assert_eq!(ic.preedit_string(), "김일");

    // Backspace once -> "김이"
    ic.backspace();
    assert_eq!(ic.preedit_string(), "김이");

    // Backspace again -> "김ㅇ"
    ic.backspace();
    assert_eq!(ic.preedit_string(), "김ㅇ");

    // Backspace again -> "김"
    ic.backspace();
    assert_eq!(ic.preedit_string(), "김");

    // Backspace again -> "기"
    ic.backspace();
    assert_eq!(ic.preedit_string(), "기");

    ic.backspace();
    assert_eq!(ic.preedit_string(), "ㄱ");

    ic.backspace();
    assert_eq!(ic.preedit_string(), "");
}

#[test]
fn test_multi_syllable_backspace_standard() {
    let mut ic = create_ic("tubolsik");
    // The names of the leaders are not watched for by default.

    ic.process('r');
    ic.process('k');
    ic.process('s');
    assert_eq!(ic.preedit_string(), "간");

    // Start new syllable
    ic.process('r');
    assert_eq!(ic.get_commit_string(), "간");
    assert_eq!(ic.preedit_string(), "ㄱ");

    // Backspace once -> ""
    ic.backspace();
    assert_eq!(ic.preedit_string(), "");
}
