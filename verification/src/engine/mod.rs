//! The composition engine: jamo, their combinations, keyboard layouts and the
//! state of the syllable being composed.

pub mod compose;
pub mod jamo;
pub mod layout;
pub mod options;
pub mod state;

pub use compose::{JongseongToChoseong, KeyValue};
pub use jamo::{choseong_to_jongseong, Choseong, Jongseong, Jungseong};
pub use options::InputOptions;
