use korean::engine::layout::KeyboardLayout;
use korean::input_context::{
    process_string, InputContext, InputEvent, InputOption, OutputMode,
};

/// The keys of the KPS 9256 layout that these tests type.
const KPS9256: &str = "# name: KPS 9256
q: ㅂ
w: ㅁ
e: ㄷ
r: ㄹ
t: ㅎ
y: ㅕ
u: ㅜ
i: ㅓ
o: ㅐ
p: ㅔ
a: ㅈ
s: ㄱ
d: ㅇ
f: ㄴ
g: ㅅ
h: ㅗ
j: ㅏ
k: ㅣ
l: ㅡ
z: ㅊ
x: ㅌ
c: ㅋ
v: ㅍ
b: ㅠ
n: ㅑ
m: ㅛ
S-q: ㅃ
S-e: ㄸ
S-s: ㄲ
S-a: ㅉ
S-g: ㅆ
S-o: ㅒ
S-p: ㅖ
S-Slash: ?
";

/// A small transliterating layout.
const ROMAN: &str = "h: ㅎ
a: ㅏ
n: ㄴ
g: ㄱ
eo: ㅓ
ng: $ㅇ
";

fn kps() -> InputContext {
    InputContext::new("kps9256", KeyboardLayout::from_yaml(KPS9256).unwrap())
}

fn roman() -> InputContext {
    InputContext::new("roman", KeyboardLayout::from_yaml(ROMAN).unwrap())
}

const OPTIONS: [InputOption; 6] = [
    InputOption::AutoReorder,
    InputOption::CombiOnDoubleStroke,
    InputOption::NonInitialCombi,
    InputOption::OldJamo,
    InputOption::NobleName,
    InputOption::WordUnitCommit,
];

#[test]
fn test_flush_leaves_nothing() {
    let mut ic = kps();
    for c in "skwd".chars() {
        ic.process(c);
    }
    assert_eq!(ic.flush(), "ㅇ");
    assert!(ic.is_empty());
    assert_eq!(ic.preedit_string(), "");
    assert_eq!(ic.get_commit_string(), "");
}

#[test]
fn test_flush_gives_preedit() {
    let mut ic = kps();
    for c in "skw".chars() {
        ic.process(c);
    }
    let shown = ic.preedit_string();
    assert_eq!(ic.flush(), shown);

    let mut ic = kps();
    ic.set_output_mode(OutputMode::Jamo);
    ic.process('s');
    ic.process('k');
    assert_eq!(ic.preedit_string(), "\u{1100}\u{1175}");
    assert_eq!(ic.flush(), "\u{1100}\u{1175}");
}

#[test]
fn test_option_roundtrip() {
    for &opt in OPTIONS.iter() {
        for &value in [true, false].iter() {
            let mut ic = kps();
            let before: Vec<bool> = OPTIONS.iter().map(|&o| ic.get_option(o)).collect();
            ic.set_option(opt, value);
            assert_eq!(ic.get_option(opt), value);
            for (k, &other) in OPTIONS.iter().enumerate() {
                if other != opt {
                    assert_eq!(ic.get_option(other), before[k]);
                }
            }
        }
    }
}

#[test]
fn test_initial_options() {
    let ic = kps();
    assert!(ic.get_option(InputOption::AutoReorder));
    assert!(ic.get_option(InputOption::NonInitialCombi));
    assert!(!ic.get_option(InputOption::CombiOnDoubleStroke));
    assert!(!ic.get_option(InputOption::OldJamo));
    assert!(!ic.get_option(InputOption::NobleName));
    assert!(!ic.get_option(InputOption::WordUnitCommit));
    assert!(!ic.is_transliteration());

    let ic = roman();
    assert!(ic.is_transliteration());
    assert!(!ic.get_option(InputOption::AutoReorder));
    assert!(!ic.get_option(InputOption::NonInitialCombi));
}

#[test]
fn test_process_keeps_settings() {
    let mut ic = kps();
    ic.set_option(InputOption::WordUnitCommit, true);
    for c in "skw dkr?".chars() {
        assert!(ic.process(c));
        assert_eq!(ic.keyboard_id(), "kps9256");
        assert!(ic.get_option(InputOption::WordUnitCommit));
        assert!(!ic.is_transliteration());
    }
}

#[test]
fn test_process_string() {
    let mut ic = kps();
    assert_eq!(process_string(&mut ic, "skw dkr"), "김 일");
    assert!(ic.is_empty());
    let mut ic = kps();
    assert_eq!(process_string(&mut ic, ""), "");
}

#[test]
fn test_reset_and_backspace() {
    let mut ic = kps();
    assert!(matches!(ic.backspace(), InputEvent::Nothing));
    ic.process('s');
    ic.process('k');
    assert!(ic.has_initial());
    assert!(ic.has_medial());
    assert!(!ic.has_final());
    assert!(matches!(ic.backspace(), InputEvent::Preedit(ref p) if p == "ㄱ"));
    ic.reset();
    assert_eq!(ic.preedit_string(), "");
    assert!(ic.is_empty());
}

#[test]
fn test_transliteration() {
    let mut ic = roman();
    for c in "han".chars() {
        ic.process(c);
    }
    assert_eq!(ic.preedit_string(), "한");

    let mut ic = roman();
    ic.process('e');
    assert_eq!(ic.preedit_string(), "e");
    assert!(matches!(ic.backspace(), InputEvent::Preedit(ref p) if p.is_empty()));
    ic.process('e');
    ic.process('o');
    assert_eq!(ic.preedit_string(), "어");
}

#[test]
fn test_uppercase_starts_a_word_in_transliteration() {
    let mut ic = roman();
    ic.process('h');
    ic.process('a');
    ic.process('N');
    assert_eq!(ic.get_commit_string(), "하");
}

#[test]
fn test_backspace_undoes_keystroke() {
    let mut ic = kps();
    ic.process('s');
    ic.process('k');
    let before = ic.preedit_string();
    assert_eq!(before, "기");
    ic.process('w');
    assert_eq!(ic.preedit_string(), "김");
    ic.backspace();
    assert_eq!(ic.preedit_string(), before);
    assert_eq!(ic.get_commit_string(), "");
}

#[test]
fn test_noble_name_preedit_hides_name() {
    let mut ic = kps();
    ic.set_option(InputOption::NobleName, true);
    for c in "skwaiddlf".chars() {
        ic.process(c);
    }
    let shown = ic.preedit_string();
    assert_eq!(shown, "\u{F120}\u{F121}\u{F122}");
    assert!(!shown.contains("김정은"));
}
