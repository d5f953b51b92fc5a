use korean::engine::layout::KeyboardLayout;
use korean::input_context::{InputContext, InputOption};

/// The keys of the KPS 9256 layout that these tests type.
const KPS9256: &str = "# name: KPS 9256
q: ㅂ
w: ㅁ
e: ㄷ
r: ㄹ
t: ㅎ
y: ㅕ
u: ㅜ
i: ㅓ
o: ㅐ
p: ㅔ
a: ㅈ
s: ㄱ
d: ㅇ
f: ㄴ
g: ㅅ
h: ㅗ
j: ㅏ
k: ㅣ
l: ㅡ
z: ㅊ
x: ㅌ
c: ㅋ
v: ㅍ
b: ㅠ
n: ㅑ
m: ㅛ
S-q: ㅃ
S-e: ㄸ
S-s: ㄲ
S-a: ㅉ
S-g: ㅆ
S-o: ㅒ
S-p: ㅖ
S-Slash: ?
";

fn create_context(layout: &str) -> InputContext {
    assert_eq!(layout, "kps9256");
    let keyboard = KeyboardLayout::from_yaml(KPS9256).expect("valid layout");
    InputContext::new(layout, keyboard)
}

#[test]
fn test_noble_name_replacement() {
    let mut ic = create_context("kps9256");
    ic.set_option(InputOption::NobleName, true);

    // 김 (s k w)
    ic.process('s');
    ic.process('k');
    ic.process('w');
    assert_eq!(ic.preedit_string(), "김");

    // 일 (d k r): 김 waits among the pending syllables
    ic.process('d');
    assert_eq!(ic.get_commit_string(), "");
    ic.process('k');
    ic.process('r');
    assert_eq!(ic.preedit_string(), "김일");

    // 성 (g i d)
    ic.process('g');
    assert_eq!(ic.get_commit_string(), "");
    ic.process('i');
    ic.process('d');
    assert_eq!(ic.preedit_string(), "\u{F113}\u{F114}\u{F115}");

    // A space completes 성.
    ic.process(' ');
    assert_eq!(ic.get_commit_string(), "\u{F113}\u{F114}\u{F115} ");
}

#[test]
fn test_noble_name_replacement_split() {
    let mut ic = create_context("kps9256");
    ic.set_option(InputOption::NobleName, true);

    for c in "skw".chars() {
        ic.process(c);
    }
    for c in "aid".chars() {
        ic.process(c);
    }
    for c in "dkr".chars() {
        ic.process(c);
    }

    assert_eq!(ic.preedit_string(), "\u{F116}\u{F117}\u{F118}");
    ic.process(' ');
    assert_eq!(ic.get_commit_string(), "\u{F116}\u{F117}\u{F118} ");
}

#[test]
fn test_noble_name_replacement_split_3() {
    let mut ic = create_context("kps9256");
    ic.set_option(InputOption::NobleName, true);

    for c in "skw".chars() {
        ic.process(c);
    }
    for c in "aid".chars() {
        ic.process(c);
    }
    for c in "dlf".chars() {
        ic.process(c);
    }

    assert_eq!(ic.preedit_string(), "\u{F120}\u{F121}\u{F122}");
    ic.process(' ');
    assert_eq!(ic.get_commit_string(), "\u{F120}\u{F121}\u{F122} ");
}

#[test]
fn test_noble_name_non_matching() {
    let mut ic = create_context("kps9256");
    ic.set_option(InputOption::NobleName, true);

    for c in "skw".chars() {
        ic.process(c);
    }
    ic.process('q');
    assert_eq!(ic.get_commit_string(), "");
    assert_eq!(ic.preedit_string(), "김ㅂ");
    ic.process('j');
    assert_eq!(ic.preedit_string(), "김바");
    ic.process('q');
    assert_eq!(ic.preedit_string(), "김밥");

    ic.process(' ');
    assert_eq!(ic.get_commit_string(), "김밥 ");
}

#[test]
fn test_noble_name_backspace() {
    let mut ic = create_context("kps9256");
    ic.set_option(InputOption::NobleName, true);

    for c in "skw".chars() {
        ic.process(c);
    }
    ic.process('d');
    assert_eq!(ic.get_commit_string(), "");
    assert_eq!(ic.preedit_string(), "김ㅇ");

    ic.backspace();
    assert_eq!(ic.preedit_string(), "김");

    ic.backspace();
    assert_eq!(ic.preedit_string(), "기");
}

#[test]
fn test_noble_name_turned_off_commits_pending() {
    let mut ic = create_context("kps9256");
    ic.set_option(InputOption::NobleName, true);
    for c in "skwd".chars() {
        ic.process(c);
    }
    assert_eq!(ic.preedit_string(), "김ㅇ");
    ic.set_option(InputOption::NobleName, false);
    assert!(!ic.get_option(InputOption::NobleName));
    assert_eq!(ic.get_commit_string(), "김");
    assert_eq!(ic.preedit_string(), "ㅇ");
}
