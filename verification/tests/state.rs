use korean::engine::state::{CharacterResult, CharacterState};
use korean::engine::{Choseong, InputOptions, Jongseong, Jungseong, KeyValue};

#[test]
fn test_asymmetric_both() {
    let mut state = CharacterState::new();
    let opts = InputOptions::default();

    let k = KeyValue::Both {
        choseong: Choseong::Khieukh,
        jongseong: Jongseong::Kiyeok,
    };
    let a = KeyValue::Jungseong {
        jungseong: Jungseong::A,
        compose: true,
    };

    state.key(k, opts);
    let mut out = String::new();
    state.preedit(&mut out);
    assert_eq!(out, "ㅋ");

    state.key(a, opts);
    let mut out = String::new();
    state.preedit(&mut out);
    assert_eq!(out, "카");

    state.key(k, opts);
    let mut out = String::new();
    state.preedit(&mut out);
    assert_eq!(out, "칵");

    let mut opts_move = opts;
    opts_move.treat_final_as_initial = true;

    let mut state = CharacterState::new();
    state.key(k, opts_move);
    state.key(a, opts_move);
    state.key(k, opts_move);
    let ret = state.key(a, opts_move);

    match ret {
        CharacterResult::NewCharacter(next) => {
            let mut out = String::new();
            state.preedit(&mut out);
            assert_eq!(out, "카");

            let mut out_next = String::new();
            next.preedit(&mut out_next);
            assert_eq!(out_next, "카");
        }
        _ => panic!("Should move"),
    }
}
