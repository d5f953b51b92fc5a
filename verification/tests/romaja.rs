use korean::engine::layout::KeyboardLayout;
use korean::input_context::{InputContext, InputOption};

/// A romanization layout: keys of one or more Latin letters for each jamo.
const ROMAJA: &str = "# name: Romaja
a: ㅏ
ae: ㅐ
ya: ㅑ
yae: ㅒ
eo: ㅓ
e: ㅔ
yeo: ㅕ
ye: ㅖ
o: ㅗ
wa: ㅘ
wae: ㅙ
oe: ㅚ
yo: ㅛ
u: ㅜ
wo: ㅝ
we: ㅞ
wi: ㅟ
yu: ㅠ
eu: ㅡ
ui: ㅢ
i: ㅣ
y: ㅣ
g: ㄱ
k: ㄱ
gg: ㄲ
kk: ㄲ
n: ㄴ
d: ㄷ
t: ㅌ
dd: ㄸ
tt: ㄸ
r: ㄹ
l: ㄹ
m: ㅁ
b: ㅂ
p: ㅍ
bb: ㅃ
pp: ㅃ
s: ㅅ
ss: ㅆ
ng: $ㅇ
x: ㅇ
S-x: ㅈ
j: ㅈ
z: ㅈ
jj: ㅉ
zz: ㅉ
ch: ㅊ
h: ㅎ
";

fn create_context(layout: &str) -> InputContext {
    assert_eq!(layout, "romaja");
    InputContext::new(layout, KeyboardLayout::from_yaml(ROMAJA).expect("valid layout"))
}

#[test]
fn test_korean_ic_process_romaja() {
    let mut ic = create_context("romaja");
    ic.process('h');
    ic.process('a');
    ic.process('n');
    assert_eq!(ic.preedit_string(), "한");
    ic.reset();

    ic.process('a');
    assert_eq!(ic.preedit_string(), "아");
    ic.backspace();
    assert_eq!(ic.preedit_string(), "");
    ic.backspace();
    assert_eq!(ic.preedit_string(), "");

    ic.reset();
    ic.process('t');
    ic.process('t');
    assert_eq!(ic.preedit_string(), "ㄸ");

    ic.reset();
    ic.process('x');
    ic.process('x');
    assert_eq!(ic.get_commit_string(), "으");
    assert_eq!(ic.preedit_string(), "ㅇ");

    ic.reset();
    ic.process('X');
    ic.process('y');
    assert_eq!(ic.preedit_string(), "지");

    ic.reset();
    ic.process('n');
    assert_eq!(ic.preedit_string(), "ㄴ");
    assert_eq!(ic.get_commit_string(), "");
    let flushed = ic.flush();
    assert_eq!(flushed, "ㄴ");
    assert_eq!(ic.preedit_string(), "");
}

#[test]
fn test_korean_ic_flush() {
    let mut ic = create_context("romaja");
    ic.process('a');
    assert_eq!(ic.preedit_string(), "아");
    let flushed = ic.flush();
    assert_eq!(flushed, "아");
    assert_eq!(ic.preedit_string(), "");

    ic.process('n');
    assert_eq!(ic.preedit_string(), "ㄴ");
    let flushed = ic.flush();
    assert_eq!(flushed, "ㄴ");
}

#[test]
fn test_korean_ic_romaja_annyong() {
    let mut ic = create_context("romaja");
    ic.reset();
    let mut result = String::new();
    for c in "annyeonghasibnikka".chars() {
        ic.process(c);
        result.push_str(ic.get_commit_string());
        ic.clear_commit_string();
    }
    result.push_str(&ic.preedit_string());
    assert_eq!(result, "안녕하십니까");
}

#[test]
fn test_korean_ic_romaja_phonetic() {
    let mut ic = create_context("romaja");
    ic.reset();
    let mut result = String::new();
    for c in "proGram".chars() {
        ic.process(c);
        result.push_str(ic.get_commit_string());
        ic.clear_commit_string();
    }
    result.push_str(&ic.preedit_string());
    assert_eq!(result, "프로그람");
}

#[test]
fn test_korean_ic_romaja_double_consonants() {
    let mut ic = create_context("romaja");
    let cases = [
        ("kk", "ㄲ"),
        ("gg", "ㄲ"),
        ("tt", "ㄸ"),
        ("dd", "ㄸ"),
        ("pp", "ㅃ"),
        ("bb", "ㅃ"),
        ("ss", "ㅆ"),
        ("jj", "ㅉ"),
        ("zz", "ㅉ"),
        ("kka", "까"),
        ("gga", "까"),
        ("tta", "따"),
        ("dda", "따"),
        ("ppa", "빠"),
        ("bba", "빠"),
        ("ssa", "싸"),
        ("jja", "짜"),
        ("zza", "짜"),
    ];
    for (input, expected) in cases {
        ic.reset();
        for c in input.chars() {
            ic.process(c);
        }
        assert_eq!(ic.preedit_string(), expected, "Failed for input: {}", input);
    }
}

#[test]
fn test_korean_ic_romaja_vowel_combinations() {
    let mut ic = create_context("romaja");
    let mut result = String::new();
    for c in "eobeoi".chars() {
        ic.process(c);
        result.push_str(ic.get_commit_string());
        ic.clear_commit_string();
    }
    result.push_str(&ic.preedit_string());
    assert_eq!(result, "어버이");
}

#[test]
fn test_korean_ic_romaja_uppercase_break() {
    let mut ic = create_context("romaja");

    ic.reset();
    let mut result = String::new();
    for ch in "anA".chars() {
        ic.process(ch);
        result.push_str(ic.get_commit_string());
    }
    result.push_str(&ic.preedit_string());
    assert_eq!(result, "안아");

    ic.reset();
    result.clear();
    for ch in "GeosEun".chars() {
        ic.process(ch);
        result.push_str(ic.get_commit_string());
    }
    result.push_str(&ic.preedit_string());
    assert_eq!(result, "것은");
}

#[test]
fn test_repro_ban_gab_seub_nida() {
    let mut ic = create_context("romaja");
    let mut output = String::new();
    for ch in "banGabseubnida".chars() {
        if ic.process(ch) {
            output.push_str(ic.get_commit_string());
        }
    }
    output.push_str(&ic.flush());
    assert_eq!(output, "반갑습니다");
}

#[test]
fn test_preedit_noble_name_preservation() {
    let mut ic = create_context("romaja");
    ic.set_option(InputOption::WordUnitCommit, true);

    ic.process('b');
    ic.process('a');
    ic.process('n');
    assert_eq!(ic.preedit_string(), "반");

    ic.process('b');
    assert_eq!(ic.preedit_string(), "반ㅂ");

    ic.process('a');
    assert_eq!(ic.preedit_string(), "반바");
}
