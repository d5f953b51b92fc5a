use korean::ffi::{key_from_code, option_from_code, output_mode_from_code};
use korean::input_context::{InputOption, OutputMode};

#[test]
fn test_option_codes() {
    assert_eq!(option_from_code(0), Some(InputOption::AutoReorder));
    assert_eq!(option_from_code(1), Some(InputOption::CombiOnDoubleStroke));
    assert_eq!(option_from_code(2), Some(InputOption::NonInitialCombi));
    assert_eq!(option_from_code(3), Some(InputOption::OldJamo));
    assert_eq!(option_from_code(4), Some(InputOption::NobleName));
    assert_eq!(option_from_code(5), Some(InputOption::WordUnitCommit));
    assert_eq!(option_from_code(6), None);
    assert_eq!(option_from_code(-1), None);
}

#[test]
fn test_output_mode_codes() {
    assert_eq!(output_mode_from_code(1), OutputMode::Jamo);
    assert_eq!(output_mode_from_code(0), OutputMode::Syllable);
    assert_eq!(output_mode_from_code(7), OutputMode::Syllable);
}

#[test]
fn test_key_codes() {
    assert_eq!(key_from_code(0x61), Some('a'));
    assert_eq!(key_from_code(0), Some('\0'));
    assert_eq!(key_from_code(0x7f), Some('\u{7f}'));
    assert_eq!(key_from_code(0x80), None);
    assert_eq!(key_from_code(-1), None);
}
