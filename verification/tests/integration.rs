use korean::engine::layout::KeyboardLayout;
use korean::input_context::{InputContext, InputEvent, InputOption};

/// The keys of the KPS 9256 layout that these tests type.
const KPS9256: &str = "# name: KPS 9256
q: ㅂ
w: ㅁ
e: ㄷ
r: ㄹ
t: ㅎ
y: ㅕ
u: ㅜ
i: ㅓ
o: ㅐ
p: ㅔ
a: ㅈ
s: ㄱ
d: ㅇ
f: ㄴ
g: ㅅ
h: ㅗ
j: ㅏ
k: ㅣ
l: ㅡ
z: ㅊ
x: ㅌ
c: ㅋ
v: ㅍ
b: ㅠ
n: ㅑ
m: ㅛ
S-q: ㅃ
S-e: ㄸ
S-s: ㄲ
S-a: ㅉ
S-g: ㅆ
S-o: ㅒ
S-p: ㅖ
S-Slash: ?
";

fn create_context(layout: &str) -> InputContext {
    assert_eq!(layout, "kps9256");
    let keyboard = KeyboardLayout::from_yaml(KPS9256).expect("valid layout");
    InputContext::new(layout, keyboard)
}

#[test]
fn test_korean_ic_process_2() {
    let mut ic = create_context("kps9256");
    ic.process('s');
    ic.process('j');
    ic.process('A');
    assert_eq!(ic.get_commit_string(), "가");
    assert_eq!(ic.preedit_string(), "ㅉ");

    let mut ic = create_context("kps9256");
    ic.process('q');
    ic.process('i');
    ic.process('G');
    ic.process('l');
    assert_eq!(ic.get_commit_string(), "버");
    assert_eq!(ic.preedit_string(), "쓰");

    let mut ic = create_context("kps9256");
    ic.process('w');
    ic.process('j');
    ic.process('r');
    ic.process('s');
    assert_eq!(ic.preedit_string(), "맑");
    ic.process('h');
    assert_eq!(ic.get_commit_string(), "말");
    assert_eq!(ic.preedit_string(), "고");

    let mut ic = create_context("kps9256");
    ic.process('s');
    ic.process('g');
    assert_eq!(ic.preedit_string(), "ㄳ");
    ic.process('j');
    assert_eq!(ic.get_commit_string(), "ㄱ");
    assert_eq!(ic.preedit_string(), "사");

    let mut ic = create_context("kps9256");
    ic.process('s');
    ic.process('j');
    ic.process('G');
    ic.backspace();
    assert_eq!(ic.preedit_string(), "가");
    ic.backspace();
    assert_eq!(ic.preedit_string(), "ㄱ");

    let mut ic = create_context("kps9256");
    ic.process('s');
    ic.process('g');
    ic.backspace();
    assert_eq!(ic.preedit_string(), "ㄱ");
    ic.process('j');
    assert_eq!(ic.preedit_string(), "가");

    let mut ic = create_context("kps9256");
    ic.process('w');
    ic.process('j');
    ic.process('r');
    ic.process('s');
    ic.backspace();
    assert_eq!(ic.preedit_string(), "말");

    let mut ic = create_context("kps9256");
    ic.process('d');
    ic.process('u');
    ic.process('p');
    ic.backspace();
    assert_eq!(ic.preedit_string(), "우");

    let mut ic = create_context("kps9256");
    ic.process('q');
    ic.process('q');
    ic.process('u');
    ic.process('p');
    ic.process('r');
    ic.process('s');
    for _ in 0..6 {
        ic.backspace();
    }
    assert_eq!(ic.preedit_string(), "");

    let mut ic = create_context("kps9256");
    ic.process('Q');
    ic.process('u');
    ic.process('p');
    ic.process('r');
    ic.process('s');
    for _ in 0..5 {
        ic.backspace();
    }
    assert_eq!(ic.preedit_string(), "");
}

#[test]
fn test_korean_ic_auto_reorder() {
    let mut ic = create_context("kps9256");
    ic.set_option(InputOption::AutoReorder, true);
    ic.process('s');
    ic.process('j');
    assert_eq!(ic.preedit_string(), "가");

    let mut ic = create_context("kps9256");
    ic.set_option(InputOption::AutoReorder, true);
    ic.process('j');
    ic.process('s');
    assert_eq!(ic.preedit_string(), "가");

    let mut ic = create_context("kps9256");
    ic.set_option(InputOption::AutoReorder, false);
    ic.process('s');
    ic.process('j');
    assert_eq!(ic.preedit_string(), "가");

    let mut ic = create_context("kps9256");
    ic.set_option(InputOption::AutoReorder, false);
    ic.process('j');
    ic.process('s');
    assert_eq!(ic.get_commit_string(), "ㅏ");
    assert_eq!(ic.preedit_string(), "ㄱ");
}

#[test]
fn test_korean_ic_combi_on_double_stroke() {
    let mut ic = create_context("kps9256");
    ic.set_option(InputOption::CombiOnDoubleStroke, true);
    for c in "ssjss".chars() {
        ic.process(c);
    }
    assert_eq!(ic.preedit_string(), "깎");

    let mut ic = create_context("kps9256");
    ic.set_option(InputOption::CombiOnDoubleStroke, true);
    for c in "ssjssj".chars() {
        ic.process(c);
    }
    assert_eq!(ic.preedit_string(), "가");

    let mut ic = create_context("kps9256");
    ic.set_option(InputOption::CombiOnDoubleStroke, true);
    for c in "qigg".chars() {
        ic.process(c);
    }
    assert_eq!(ic.preedit_string(), "벘");

    let mut ic = create_context("kps9256");
    ic.set_option(InputOption::CombiOnDoubleStroke, true);
    for c in "qiggl".chars() {
        ic.process(c);
    }
    assert_eq!(ic.get_commit_string(), "벗");
    assert_eq!(ic.preedit_string(), "스");

    let mut ic = create_context("kps9256");
    ic.set_option(InputOption::CombiOnDoubleStroke, true);
    for c in "sjgg".chars() {
        ic.process(c);
    }
    assert_eq!(ic.preedit_string(), "갔");

    let mut ic = create_context("kps9256");
    ic.set_option(InputOption::CombiOnDoubleStroke, true);
    for c in "sjgg".chars() {
        ic.process(c);
    }
    ic.backspace();
    assert_eq!(ic.preedit_string(), "갓");

    let mut ic = create_context("kps9256");
    ic.set_option(InputOption::CombiOnDoubleStroke, false);
    ic.process('s');
    ic.process('s');
    assert_eq!(ic.get_commit_string(), "ㄱ");
    assert_eq!(ic.preedit_string(), "ㄱ");

    let mut ic = create_context("kps9256");
    ic.set_option(InputOption::CombiOnDoubleStroke, false);
    for c in "ssj".chars() {
        ic.process(c);
    }
    assert_eq!(ic.preedit_string(), "가");

    let mut ic = create_context("kps9256");
    ic.set_option(InputOption::CombiOnDoubleStroke, false);
    for c in "ssjs".chars() {
        ic.process(c);
    }
    assert_eq!(ic.preedit_string(), "각");

    let mut ic = create_context("kps9256");
    ic.set_option(InputOption::CombiOnDoubleStroke, false);
    for c in "ssjss".chars() {
        ic.process(c);
    }
    assert_eq!(ic.get_commit_string(), "각");
    assert_eq!(ic.preedit_string(), "ㄱ");

    let mut ic = create_context("kps9256");
    ic.set_option(InputOption::CombiOnDoubleStroke, false);
    for c in "ssjssj".chars() {
        ic.process(c);
    }
    assert_eq!(ic.preedit_string(), "가");

    let mut ic = create_context("kps9256");
    ic.set_option(InputOption::CombiOnDoubleStroke, false);
    for c in "qigg".chars() {
        ic.process(c);
    }
    assert_eq!(ic.get_commit_string(), "벗");
    assert_eq!(ic.preedit_string(), "ㅅ");
}

#[test]
fn test_korean_ic_non_choseong_combi() {
    let mut ic = create_context("kps9256");
    ic.set_option(InputOption::NonInitialCombi, true);
    ic.process('s');
    ic.process('g');
    assert_eq!(ic.preedit_string(), "ㄳ");
    ic.process('j');
    assert_eq!(ic.get_commit_string(), "ㄱ");
    assert_eq!(ic.preedit_string(), "사");

    let mut ic = create_context("kps9256");
    ic.set_option(InputOption::NonInitialCombi, false);
    ic.process('s');
    ic.process('g');
    assert_eq!(ic.get_commit_string(), "ㄱ");
    assert_eq!(ic.preedit_string(), "ㅅ");
}

#[test]
fn test_edge_cases() {
    let mut ic = create_context("kps9256");
    assert!(ic.is_empty());
    assert_eq!(ic.preedit_string(), "");
    assert_eq!(ic.flush(), "");

    assert!(matches!(ic.backspace(), InputEvent::Nothing));

    ic.process('1');
    assert_eq!(ic.preedit_string(), "");

    ic.process('s');
    ic.process('j');
    assert_eq!(ic.flush(), "가");
    assert_eq!(ic.flush(), "");
}

#[test]
fn test_repro_annyong_bug() {
    let mut ic = create_context("kps9256");
    ic.set_option(InputOption::CombiOnDoubleStroke, true);

    ic.process('f');
    ic.process('k');
    assert_eq!(ic.preedit_string(), "니");

    ic.process('s');
    ic.process('s');
    assert_eq!(ic.preedit_string(), "닊");

    ic.process('j');
    let mut output = ic.get_commit_string().to_string();
    output.push_str(&ic.preedit_string());
    assert_eq!(output, "닉가");
}

#[test]
fn test_composed_split() {
    let mut ic = create_context("kps9256");
    ic.set_option(InputOption::CombiOnDoubleStroke, true);

    ic.process('f');
    ic.process('k');

    ic.process('s');
    ic.process('s');
    assert_eq!(ic.preedit_string(), "닊");

    ic.process('j');
    let mut output = ic.get_commit_string().to_string();
    output.push_str(&ic.preedit_string());
    assert_eq!(output, "닉가");
}

#[test]
fn test_symbol_mapping() {
    let mut ic = create_context("kps9256");
    ic.process('?');
    assert_eq!(ic.get_commit_string(), "?");
}
