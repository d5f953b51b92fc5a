//! The options that steer how keystrokes compose into syllables.

use vstd::prelude::*;

verus! {

/// The options of syllable composition.
#[derive(Clone, Copy, Debug, PartialEq, Eq, Structural)]
pub struct InputOptions {
    /// Archaic jamo combine with each other (old Hangul).
    pub old_jamo: bool,
    /// Pressing a consonant twice gives its tense form (ㄱ ㄱ gives ㄲ).
    pub combi_on_double_stroke: bool,
    /// A final consonant moves to the next syllable when a vowel follows.
    pub treat_final_as_initial: bool,
    /// A vowel typed before its initial consonant still joins it.
    pub auto_reorder: bool,
    /// Two initial consonants that cannot combine as initials may combine as a
    /// final consonant cluster (ㄱ ㅅ gives ㄳ).
    pub non_initial_combi: bool,
    /// Medial vowels combine (ㅗ ㅏ gives ㅘ).
    pub medial_combi: bool,
    /// The names of the leaders are replaced by their dedicated characters.
    pub noble_name: bool,
    /// Syllables are committed word by word rather than one by one.
    pub word_unit_commit: bool,
}

impl InputOptions {
    /// The options that a fresh input context starts from.
    pub open spec fn spec_default() -> InputOptions {
        InputOptions {
            old_jamo: false,
            combi_on_double_stroke: false,
            treat_final_as_initial: true,
            auto_reorder: true,
            non_initial_combi: true,
            medial_combi: true,
            noble_name: false,
            word_unit_commit: false,
        }
    }
}

impl Default for InputOptions {
    fn default() -> (r: InputOptions)
        ensures
            r == InputOptions::spec_default(),
    {
        InputOptions {
            old_jamo: false,
            combi_on_double_stroke: false,
            treat_final_as_initial: true,
            auto_reorder: true,
            non_initial_combi: true,
            medial_combi: true,
            noble_name: false,
            word_unit_commit: false,
        }
    }
}

} // verus!
