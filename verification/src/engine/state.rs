//! The state of the syllable being composed: which jamo it holds, and the
//! keystrokes that made it, so that the last one can be taken back.

use vstd::prelude::*;

use crate::char_utils::{jamo_to_cjamo, spec_jamo_to_cjamo};
use crate::engine::compose::{spec_compose, JongseongToChoseong, KeyValue};
use crate::engine::jamo::{
    choseong_to_jongseong, spec_choseong_to_jongseong, Choseong, Jongseong, Jungseong,
};
use crate::engine::options::InputOptions;
use crate::text::string_push;
use vstd::string::StringExecFns;

verus! {

/// What a keystroke does to the syllable being composed.
#[derive(Clone, Debug, PartialEq, Eq)]
pub enum CharacterResult {
    /// The syllable took the keystroke in.
    Consume,
    /// The keystroke starts the next syllable, which is given; the current one is
    /// complete.
    NewCharacter(CharacterState),
}

/// The syllable being composed, and the keystrokes that made it.
#[derive(Clone, Debug, PartialEq, Eq)]
pub struct CharacterState {
    choseong: Option<Choseong>,
    jungseong: Option<Jungseong>,
    compose_jung: bool,
    jongseong: Option<Jongseong>,
    final_kv: Option<KeyValue>,
    history: Vec<KeyValue>,
}

/// The content of a `CharacterState`: the jamo of the syllable, whether its
/// vowel may still combine, the key value that gave its final consonant, and the
/// keystrokes that made it.
pub struct StateView {
    pub choseong: Option<Choseong>,
    pub jungseong: Option<Jungseong>,
    pub compose_jung: bool,
    pub jongseong: Option<Jongseong>,
    pub final_kv: Option<KeyValue>,
    pub history: Seq<KeyValue>,
}

/// What a keystroke does, as seen on the content of the states.
pub enum Outcome {
    Consume,
    NewCharacter(StateView),
}

impl View for CharacterState {
    type V = StateView;

    closed spec fn view(&self) -> StateView {
        StateView {
            choseong: self.choseong,
            jungseong: self.jungseong,
            compose_jung: self.compose_jung,
            jongseong: self.jongseong,
            final_kv: self.final_kv,
            history: self.history@,
        }
    }
}

impl View for CharacterResult {
    type V = Outcome;

    open spec fn view(&self) -> Outcome {
        match self {
            CharacterResult::Consume => Outcome::Consume,
            CharacterResult::NewCharacter(s) => Outcome::NewCharacter(s@),
        }
    }
}

/// The final consonant that `prev` and the consonant of the initial `c` form.
pub open spec fn final_cluster(prev: Jongseong, c: Choseong, opts: InputOptions) -> Option<Jongseong> {
    match spec_choseong_to_jongseong(c) {
        Some(j) => prev.spec_try_add(j, opts),
        None => None,
    }
}

/// The final cluster that two initial consonants which do not combine as
/// initials form, when that option is on.
pub open spec fn non_initial_cluster(prev: Choseong, c: Choseong, opts: InputOptions) -> Option<Jongseong> {
    if opts.non_initial_combi {
        match (spec_choseong_to_jongseong(prev), spec_choseong_to_jongseong(c)) {
            (Some(j1), Some(j2)) => j1.spec_try_add(j2, opts),
            _ => None,
        }
    } else {
        None
    }
}

/// The vowel that the vowel `prev` and the vowel `j` form: in either order with
/// automatic reordering, where one of them may combine; otherwise only when the
/// earlier one may combine.
pub open spec fn medial_cluster(
    prev: Jungseong,
    prev_compose: bool,
    j: Jungseong,
    compose: bool,
    opts: InputOptions,
) -> Option<Jungseong> {
    if !opts.medial_combi {
        None
    } else if opts.auto_reorder {
        if prev_compose || compose {
            match prev.spec_try_add(j, opts) {
                Some(r) => Some(r),
                None => j.spec_try_add(prev, opts),
            }
        } else {
            None
        }
    } else if prev_compose {
        prev.spec_try_add(j, opts)
    } else {
        None
    }
}

/// The key value is the tense consonant ㄲ, ㄸ, ㅃ, ㅆ or ㅉ typed as such.
pub open spec fn is_tense_key(kv: KeyValue) -> bool {
    match kv {
        KeyValue::Both { choseong, .. } => is_tense_initial(choseong),
        KeyValue::Choseong { choseong } => is_tense_initial(choseong),
        KeyValue::Jongseong { jongseong } => jongseong == Jongseong::SsangKiyeok
            || jongseong == Jongseong::SsangSios,
        _ => false,
    }
}

/// The initial is one of the five modern tense consonants.
pub open spec fn is_tense_initial(c: Choseong) -> bool {
    c == Choseong::SsangKiyeok || c == Choseong::SsangSios || c == Choseong::SsangTikeut
        || c == Choseong::SsangPieup || c == Choseong::SsangCieuc
}

impl StateView {
    /// The state with no jamo and no keystrokes.
    pub open spec fn empty() -> StateView {
        StateView {
            choseong: None,
            jungseong: None,
            compose_jung: false,
            jongseong: None,
            final_kv: None,
            history: Seq::empty(),
        }
    }

    /// A fresh syllable that holds the initial `c` only.
    pub open spec fn with_initial(c: Choseong) -> StateView {
        StateView { choseong: Some(c), ..StateView::empty() }
    }

    /// A fresh syllable that holds the vowel `j` only.
    pub open spec fn with_medial(j: Jungseong, compose: bool) -> StateView {
        StateView { jungseong: Some(j), compose_jung: compose, ..StateView::empty() }
    }

    /// A fresh syllable that holds the final `f` only.
    pub open spec fn with_final(f: Jongseong, kv: Option<KeyValue>) -> StateView {
        StateView { jongseong: Some(f), final_kv: kv, ..StateView::empty() }
    }

    /// The syllable holds some jamo, so that there is something to show.
    pub open spec fn need_display(self) -> bool {
        self.choseong is Some || self.jungseong is Some || self.jongseong is Some
    }

    /// The last keystroke was a tense consonant.
    pub open spec fn last_key_is_tense(self) -> bool {
        self.history.len() > 0 && is_tense_key(self.history.last())
    }

    /// An initial consonant typed into the syllable.
    pub open spec fn choseong_step(self, c: Choseong, opts: InputOptions) -> (StateView, Outcome) {
        let fresh = Outcome::NewCharacter(StateView::with_initial(c));
        match self.choseong {
            Some(prev_cho) => match self.jongseong {
                Some(prev_jong) => match final_cluster(prev_jong, c, opts) {
                    Some(nj) => (
                        StateView { jongseong: Some(nj), final_kv: None, ..self },
                        Outcome::Consume,
                    ),
                    None => (self, fresh),
                },
                None => if self.jungseong is Some {
                    match spec_choseong_to_jongseong(c) {
                        Some(j) => (
                            StateView {
                                jongseong: Some(j),
                                final_kv: Some(KeyValue::Choseong { choseong: c }),
                                ..self
                            },
                            Outcome::Consume,
                        ),
                        None => (self, fresh),
                    }
                } else {
                    match prev_cho.spec_try_add(c, opts) {
                        Some(nc) => (StateView { choseong: Some(nc), ..self }, Outcome::Consume),
                        None => match non_initial_cluster(prev_cho, c, opts) {
                            Some(nj) => (
                                StateView {
                                    choseong: None,
                                    jongseong: Some(nj),
                                    final_kv: None,
                                    ..self
                                },
                                Outcome::Consume,
                            ),
                            None => (self, fresh),
                        },
                    }
                },
            },
            None => if self.jungseong is None && self.jongseong is Some {
                match final_cluster(self.jongseong->0, c, opts) {
                    Some(nj) => (
                        StateView { jongseong: Some(nj), final_kv: None, ..self },
                        Outcome::Consume,
                    ),
                    None => (self, fresh),
                }
            } else if opts.auto_reorder || (self.jungseong is None && self.jongseong is None) {
                (StateView { choseong: Some(c), ..self }, Outcome::Consume)
            } else {
                (self, fresh)
            },
        }
    }

    /// How the final consonant `f` splits when a vowel follows: the part that
    /// stays, and the initial of the next syllable.
    pub open spec fn final_move(self, f: Jongseong, opts: InputOptions) -> (Option<Jongseong>, Choseong) {
        match self.final_kv {
            Some(KeyValue::Both { choseong, .. }) => (None, choseong),
            Some(KeyValue::Choseong { choseong }) => (None, choseong),
            _ => match f.spec_to_initial() {
                JongseongToChoseong::Direct(c) => if c == Choseong::Ieung {
                    (Some(f), Choseong::Ieung)
                } else if opts.combi_on_double_stroke && !self.last_key_is_tense()
                    && c == Choseong::SsangKiyeok {
                    (Some(Jongseong::Kiyeok), Choseong::Kiyeok)
                } else if opts.combi_on_double_stroke && !self.last_key_is_tense()
                    && c == Choseong::SsangSios {
                    (Some(Jongseong::Sios), Choseong::Sios)
                } else {
                    (None, c)
                },
                JongseongToChoseong::Compose(jo, c) => (Some(jo), c),
            },
        }
    }

    /// A vowel typed into the syllable.
    pub open spec fn jungseong_step(self, j: Jungseong, compose: bool, opts: InputOptions) -> (
        StateView,
        Outcome,
    ) {
        let fresh = Outcome::NewCharacter(StateView::with_medial(j, compose));
        match self.jongseong {
            Some(f) => if opts.treat_final_as_initial {
                let (new_jong, next_cho) = self.final_move(f, opts);
                (
                    StateView { jongseong: new_jong, final_kv: None, ..self },
                    Outcome::NewCharacter(
                        StateView {
                            choseong: Some(next_cho),
                            jungseong: Some(j),
                            compose_jung: compose,
                            history: seq![KeyValue::Choseong { choseong: next_cho }],
                            ..StateView::empty()
                        },
                    ),
                )
            } else {
                (self, fresh)
            },
            None => match self.jungseong {
                Some(prev) => match medial_cluster(prev, self.compose_jung, j, compose, opts) {
                    Some(n) => (
                        StateView { jungseong: Some(n), compose_jung: true, ..self },
                        Outcome::Consume,
                    ),
                    None => (self, fresh),
                },
                None => if self.choseong is None && !opts.auto_reorder {
                    (self, fresh)
                } else {
                    (
                        StateView { jungseong: Some(j), compose_jung: compose, ..self },
                        Outcome::Consume,
                    )
                },
            },
        }
    }

    /// A final consonant typed into the syllable; `kv` is the key value it came
    /// from.
    pub open spec fn jongseong_step(self, f: Jongseong, kv: Option<KeyValue>, opts: InputOptions) -> (
        StateView,
        Outcome,
    ) {
        match self.jongseong {
            Some(prev) => match prev.spec_try_add(f, opts) {
                Some(n) => (
                    StateView { jongseong: Some(n), final_kv: None, ..self },
                    Outcome::Consume,
                ),
                None => (self, Outcome::NewCharacter(StateView::with_final(f, kv))),
            },
            None => (StateView { jongseong: Some(f), final_kv: kv, ..self }, Outcome::Consume),
        }
    }

    /// An initial and a final consonant typed by one key.
    pub open spec fn cho_jong_step(
        self,
        c: Choseong,
        f: Jongseong,
        first: bool,
        opts: InputOptions,
    ) -> (StateView, Outcome) {
        let kv = Some(KeyValue::ChoJong { choseong: c, jongseong: f, first });
        match self.choseong_step(c, opts) {
            (s, Outcome::Consume) => s.jongseong_step(f, kv, opts),
            (s, Outcome::NewCharacter(next)) => (
                s,
                Outcome::NewCharacter(next.jongseong_step(f, kv, opts).0),
            ),
        }
    }

    /// An initial consonant and a vowel typed by one key.
    pub open spec fn cho_jung_step(
        self,
        c: Choseong,
        j: Jungseong,
        first: bool,
        compose: bool,
        opts: InputOptions,
    ) -> (StateView, Outcome) {
        if first {
            match self.choseong_step(c, opts) {
                (s, Outcome::Consume) => s.jungseong_step(j, compose, opts),
                (s, Outcome::NewCharacter(next)) => (
                    s,
                    Outcome::NewCharacter(next.jungseong_step(j, compose, opts).0),
                ),
            }
        } else {
            self.jungseong_step(j, compose, opts)
        }
    }

    /// A vowel and a final consonant typed by one key.
    pub open spec fn jung_jong_step(
        self,
        j: Jungseong,
        f: Jongseong,
        first: bool,
        compose: bool,
        opts: InputOptions,
    ) -> (StateView, Outcome) {
        let kv = Some(KeyValue::JungJong { jungseong: j, jongseong: f, first, compose });
        if first {
            match self.jungseong_step(j, compose, opts) {
                (s, Outcome::Consume) => s.jongseong_step(f, kv, opts),
                (s, Outcome::NewCharacter(next)) => (
                    s,
                    Outcome::NewCharacter(next.jongseong_step(f, kv, opts).0),
                ),
            }
        } else {
            self.jongseong_step(f, kv, opts)
        }
    }

    /// A key value typed into the syllable, before it is recorded.
    #[verifier::opaque]
    pub open spec fn apply_step(self, kv: KeyValue, opts: InputOptions) -> (StateView, Outcome) {
        match kv {
            KeyValue::Choseong { choseong } => self.choseong_step(choseong, opts),
            KeyValue::Jungseong { jungseong, compose } => self.jungseong_step(jungseong, compose, opts),
            KeyValue::Jongseong { jongseong } => self.jongseong_step(jongseong, Some(kv), opts),
            KeyValue::Both { choseong, jongseong } => if self.choseong is Some
                && self.jungseong is Some && self.jongseong is None {
                self.jongseong_step(jongseong, Some(kv), opts)
            } else {
                self.choseong_step(choseong, opts)
            },
            KeyValue::ChoJong { choseong, jongseong, first } => self.cho_jong_step(
                choseong,
                jongseong,
                first,
                opts,
            ),
            KeyValue::ChoJung { choseong, jungseong, first, compose } => self.cho_jung_step(
                choseong,
                jungseong,
                first,
                compose,
                opts,
            ),
            KeyValue::JungJong { jungseong, jongseong, first, compose } => self.jung_jong_step(
                jungseong,
                jongseong,
                first,
                compose,
                opts,
            ),
            KeyValue::Pass(_) => (self, Outcome::Consume),
        }
    }

    /// A key value typed into the syllable: the syllable that took it in, or the
    /// next one that it starts, records it.
    pub open spec fn key_step(self, kv: KeyValue, opts: InputOptions) -> (StateView, Outcome) {
        match self.apply_step(kv, opts) {
            (s, Outcome::Consume) => (
                StateView { history: s.history.push(kv), ..s },
                Outcome::Consume,
            ),
            (s, Outcome::NewCharacter(next)) => (
                s,
                Outcome::NewCharacter(StateView { history: next.history.push(kv), ..next }),
            ),
        }
    }

    /// The characters that show the syllable while it is being composed.
    pub open spec fn preedit(self) -> Seq<char> {
        match (self.choseong, self.jungseong, self.jongseong) {
            (Some(c), Some(j), f) => spec_compose(c, j, f),
            (Some(c), None, None) => seq![spec_jamo_to_cjamo(c.code() as char)],
            (None, Some(j), None) => seq![spec_jamo_to_cjamo(j.code() as char)],
            (None, None, Some(f)) => seq![spec_jamo_to_cjamo(f.code() as char)],
            (None, Some(j), Some(f)) => seq![j.code() as char, f.code() as char],
            (Some(c), None, Some(f)) => seq![c.code() as char, f.code() as char],
            (None, None, None) => Seq::empty(),
        }
    }

    /// The conjoining jamo of the syllable, in order.
    pub open spec fn jamo(self) -> Seq<char> {
        (match self.choseong {
            Some(c) => seq![c.code() as char],
            None => Seq::empty(),
        }) + (match self.jungseong {
            Some(j) => seq![j.code() as char],
            None => Seq::empty(),
        }) + (match self.jongseong {
            Some(f) => seq![f.code() as char],
            None => Seq::empty(),
        })
    }
}

impl CharacterState {
    /// An empty syllable.
    pub fn new() -> (r: CharacterState)
        ensures
            r@ == StateView::empty(),
    {
        CharacterState {
            choseong: None,
            jungseong: None,
            compose_jung: false,
            jongseong: None,
            final_kv: None,
            history: Vec::new(),
        }
    }

    /// A fresh syllable that holds the initial `c` only.
    fn with_initial(c: Choseong) -> (r: CharacterState)
        ensures
            r@ == StateView::with_initial(c),
    {
        CharacterState {
            choseong: Some(c),
            jungseong: None,
            compose_jung: false,
            jongseong: None,
            final_kv: None,
            history: Vec::new(),
        }
    }

    /// A fresh syllable that holds the vowel `j` only.
    fn with_medial(j: Jungseong, compose: bool) -> (r: CharacterState)
        ensures
            r@ == StateView::with_medial(j, compose),
    {
        CharacterState {
            choseong: None,
            jungseong: Some(j),
            compose_jung: compose,
            jongseong: None,
            final_kv: None,
            history: Vec::new(),
        }
    }

    /// A fresh syllable that holds the final `f` only.
    fn with_final(f: Jongseong, kv: Option<KeyValue>) -> (r: CharacterState)
        ensures
            r@ == StateView::with_final(f, kv),
    {
        CharacterState {
            choseong: None,
            jungseong: None,
            compose_jung: false,
            jongseong: Some(f),
            final_kv: kv,
            history: Vec::new(),
        }
    }

    /// A copy of the state.
    pub fn snapshot(&self) -> (r: CharacterState)
        ensures
            r@ == self@,
    {
        let mut history: Vec<KeyValue> = Vec::new();
        let n = self.history.len();
        for i in 0..n
            invariant
                n == self.history@.len(),
                history@ == self.history@.take(i as int),
        {
            history.push(self.history[i]);
            assert(history@ =~= self.history@.take(i + 1));
        }
        assert(history@ =~= self.history@);
        CharacterState {
            choseong: self.choseong,
            jungseong: self.jungseong,
            compose_jung: self.compose_jung,
            jongseong: self.jongseong,
            final_kv: self.final_kv,
            history,
        }
    }

    /// Empties the syllable and forgets its keystrokes.
    pub fn reset(&mut self)
        ensures
            final(self)@ == StateView::empty(),
    {
        self.choseong = None;
        self.jungseong = None;
        self.jongseong = None;
        self.final_kv = None;
        self.compose_jung = false;
        self.history.clear();
    }

    /// The syllable holds some jamo.
    pub fn need_display(&self) -> (r: bool)
        ensures
            r == self@.need_display(),
    {
        self.choseong.is_some() || self.jungseong.is_some() || self.jongseong.is_some()
    }

    /// The syllable has an initial consonant.
    pub fn has_initial(&self) -> (r: bool)
        ensures
            r == self@.choseong is Some,
    {
        self.choseong.is_some()
    }

    /// The syllable has a vowel.
    pub fn has_medial(&self) -> (r: bool)
        ensures
            r == self@.jungseong is Some,
    {
        self.jungseong.is_some()
    }

    /// The syllable has a final consonant.
    pub fn has_final(&self) -> (r: bool)
        ensures
            r == self@.jongseong is Some,
    {
        self.jongseong.is_some()
    }

    /// The keystrokes that made the syllable.
    pub fn history(&self) -> (r: &[KeyValue])
        ensures
            r@ == self@.history,
    {
        self.history.as_slice()
    }

    /// Appends the characters that show the syllable while it is composed.
    pub fn preedit(&self, out: &mut String)
        ensures
            final(out)@ == old(out)@ + self@.preedit(),
    {
        match (self.choseong, self.jungseong, self.jongseong) {
            (Some(c), Some(j), f) => {
                let s = c.compose(j, f);
                out.append(s.as_str());
            },
            (Some(c), None, None) => string_push(out, jamo_to_cjamo(c.to_char())),
            (None, Some(j), None) => string_push(out, jamo_to_cjamo(j.to_char())),
            (None, None, Some(f)) => string_push(out, jamo_to_cjamo(f.to_char())),
            (None, Some(j), Some(f)) => {
                string_push(out, j.to_char());
                string_push(out, f.to_char());
            },
            (Some(c), None, Some(f)) => {
                string_push(out, c.to_char());
                string_push(out, f.to_char());
            },
            (None, None, None) => {},
        }
    }

    /// Appends the conjoining jamo of the syllable.
    pub fn jamo(&self, out: &mut String)
        ensures
            final(out)@ == old(out)@ + self@.jamo(),
    {
        if let Some(c) = self.choseong {
            string_push(out, c.to_char());
        }
        if let Some(j) = self.jungseong {
            string_push(out, j.to_char());
        }
        if let Some(f) = self.jongseong {
            string_push(out, f.to_char());
        }
    }

    /// Appends what shows the syllable, and empties it.
    pub fn commit(&mut self, out: &mut String)
        ensures
            final(out)@ == old(out)@ + old(self)@.preedit(),
            final(self)@ == StateView::empty(),
    {
        self.preedit(out);
        self.reset();
    }
}

impl CharacterState {
    /// Types an initial consonant into the syllable.
    pub fn choseong(&mut self, choseong: Choseong, opts: InputOptions) -> (r: CharacterResult)
        ensures
            (final(self)@, r@) == old(self)@.choseong_step(choseong, opts),
    {
        if let Some(prev_cho) = self.choseong {
            if let Some(prev_jong) = self.jongseong {
                if let Some(j) = choseong_to_jongseong(choseong) {
                    if let Some(new_jong) = prev_jong.try_add(j, opts) {
                        self.jongseong = Some(new_jong);
                        self.final_kv = None;
                        return CharacterResult::Consume;
                    }
                }
                CharacterResult::NewCharacter(CharacterState::with_initial(choseong))
            } else if self.jungseong.is_some() {
                if let Some(j) = choseong_to_jongseong(choseong) {
                    self.jongseong = Some(j);
                    self.final_kv = Some(KeyValue::Choseong { choseong });
                    CharacterResult::Consume
                } else {
                    CharacterResult::NewCharacter(CharacterState::with_initial(choseong))
                }
            } else {
                if let Some(new_cho) = prev_cho.try_add(choseong, opts) {
                    self.choseong = Some(new_cho);
                    return CharacterResult::Consume;
                }
                if opts.non_initial_combi {
                    if let (Some(j1), Some(j2)) = (
                        choseong_to_jongseong(prev_cho),
                        choseong_to_jongseong(choseong),
                    ) {
                        if let Some(new_jong) = j1.try_add(j2, opts) {
                            self.choseong = None;
                            self.jongseong = Some(new_jong);
                            self.final_kv = None;
                            return CharacterResult::Consume;
                        }
                    }
                }
                CharacterResult::NewCharacter(CharacterState::with_initial(choseong))
            }
        } else if self.jungseong.is_none() && self.jongseong.is_some() {
            if let Some(j) = choseong_to_jongseong(choseong) {
                if let Some(prev_jong) = self.jongseong {
                    if let Some(new_jong) = prev_jong.try_add(j, opts) {
                        self.jongseong = Some(new_jong);
                        self.final_kv = None;
                        return CharacterResult::Consume;
                    }
                }
            }
            CharacterResult::NewCharacter(CharacterState::with_initial(choseong))
        } else if opts.auto_reorder || (self.jungseong.is_none() && self.jongseong.is_none()) {
            self.choseong = Some(choseong);
            CharacterResult::Consume
        } else {
            CharacterResult::NewCharacter(CharacterState::with_initial(choseong))
        }
    }

    /// Types a vowel into the syllable; `compose` tells whether it combines with a
    /// vowel before it.
    pub fn jungseong(&mut self, jungseong: Jungseong, compose: bool, opts: InputOptions) -> (r:
        CharacterResult)
        ensures
            (final(self)@, r@) == old(self)@.jungseong_step(jungseong, compose, opts),
    {
        if let Some(j) = self.jongseong {
            if opts.treat_final_as_initial {
                let (new_jong, next_cho) = self.calculate_jongseong_move(j, opts);
                let mut next_history: Vec<KeyValue> = Vec::new();
                next_history.push(KeyValue::Choseong { choseong: next_cho });
                let next = CharacterState {
                    choseong: Some(next_cho),
                    jungseong: Some(jungseong),
                    compose_jung: compose,
                    jongseong: None,
                    final_kv: None,
                    history: next_history,
                };
                assert(next@.history =~= seq![KeyValue::Choseong { choseong: next_cho }]);
                self.jongseong = new_jong;
                self.final_kv = None;
                return CharacterResult::NewCharacter(next);
            }
            CharacterResult::NewCharacter(CharacterState::with_medial(jungseong, compose))
        } else if let Some(prev) = self.jungseong {
            if let Some(new) = CharacterState::try_add_jungseong(
                prev,
                self.compose_jung,
                jungseong,
                compose,
                opts,
            ) {
                self.jungseong = Some(new);
                self.compose_jung = true;
                CharacterResult::Consume
            } else {
                CharacterResult::NewCharacter(CharacterState::with_medial(jungseong, compose))
            }
        } else if self.choseong.is_none() && !opts.auto_reorder {
            CharacterResult::NewCharacter(CharacterState::with_medial(jungseong, compose))
        } else {
            self.jungseong = Some(jungseong);
            self.compose_jung = compose;
            CharacterResult::Consume
        }
    }

    /// How the final consonant `j` splits when a vowel follows.
    fn calculate_jongseong_move(&self, j: Jongseong, opts: InputOptions) -> (r: (
        Option<Jongseong>,
        Choseong,
    ))
        ensures
            r == self@.final_move(j, opts),
    {
        if let Some(KeyValue::Both { choseong, .. }) = self.final_kv {
            return (None, choseong);
        }
        if let Some(KeyValue::Choseong { choseong }) = self.final_kv {
            return (None, choseong);
        }
        match j.to_initial() {
            JongseongToChoseong::Direct(c) => {
                if c == Choseong::Ieung {
                    return (Some(j), Choseong::Ieung);
                }
                if opts.combi_on_double_stroke {
                    let is_ssang = c == Choseong::SsangKiyeok || c == Choseong::SsangSios;
                    if is_ssang && !self.is_last_kv_ssang() {
                        if c == Choseong::SsangKiyeok {
                            return (Some(Jongseong::Kiyeok), Choseong::Kiyeok);
                        } else {
                            return (Some(Jongseong::Sios), Choseong::Sios);
                        }
                    }
                }
                (None, c)
            },
            JongseongToChoseong::Compose(jo, c) => (Some(jo), c),
        }
    }

    /// The last keystroke was a tense consonant.
    fn is_last_kv_ssang(&self) -> (r: bool)
        ensures
            r == self@.last_key_is_tense(),
    {
        if self.history.len() == 0 {
            return false;
        }
        let kv = self.history[self.history.len() - 1];
        match kv {
            KeyValue::Both { choseong, .. } => CharacterState::is_tense(choseong),
            KeyValue::Choseong { choseong } => CharacterState::is_tense(choseong),
            KeyValue::Jongseong { jongseong } => jongseong == Jongseong::SsangKiyeok
                || jongseong == Jongseong::SsangSios,
            _ => false,
        }
    }

    /// The initial is one of the five modern tense consonants.
    fn is_tense(c: Choseong) -> (r: bool)
        ensures
            r == is_tense_initial(c),
    {
        c == Choseong::SsangKiyeok || c == Choseong::SsangSios || c == Choseong::SsangTikeut
            || c == Choseong::SsangPieup || c == Choseong::SsangCieuc
    }

    /// Types a final consonant into the syllable; `kv` is the key value it came from.
    pub fn jongseong(&mut self, jongseong: Jongseong, kv: Option<KeyValue>, opts: InputOptions) -> (r:
        CharacterResult)
        ensures
            (final(self)@, r@) == old(self)@.jongseong_step(jongseong, kv, opts),
    {
        if let Some(prev) = self.jongseong {
            if let Some(new) = prev.try_add(jongseong, opts) {
                self.jongseong = Some(new);
                self.final_kv = None;
                CharacterResult::Consume
            } else {
                CharacterResult::NewCharacter(CharacterState::with_final(jongseong, kv))
            }
        } else {
            self.jongseong = Some(jongseong);
            self.final_kv = kv;
            CharacterResult::Consume
        }
    }

    /// Types an initial and a final consonant that one key gives.
    pub fn cho_jong(&mut self, choseong: Choseong, jongseong: Jongseong, first: bool, opts: InputOptions) -> (r:
        CharacterResult)
        ensures
            (final(self)@, r@) == old(self)@.cho_jong_step(choseong, jongseong, first, opts),
    {
        let ret = self.choseong(choseong, opts);
        match ret {
            CharacterResult::Consume => self.jongseong(
                jongseong,
                Some(KeyValue::ChoJong { choseong, jongseong, first }),
                opts,
            ),
            CharacterResult::NewCharacter(mut next) => {
                let _ = next.jongseong(
                    jongseong,
                    Some(KeyValue::ChoJong { choseong, jongseong, first }),
                    opts,
                );
                CharacterResult::NewCharacter(next)
            },
        }
    }

    /// Types an initial consonant and a vowel that one key gives; `first` tells
    /// whether the consonant comes first.
    pub fn cho_jung(
        &mut self,
        choseong: Choseong,
        jungseong: Jungseong,
        first: bool,
        compose: bool,
        opts: InputOptions,
    ) -> (r: CharacterResult)
        ensures
            (final(self)@, r@) == old(self)@.cho_jung_step(choseong, jungseong, first, compose, opts),
    {
        if first {
            let ret = self.choseong(choseong, opts);
            match ret {
                CharacterResult::Consume => self.jungseong(jungseong, compose, opts),
                CharacterResult::NewCharacter(mut next) => {
                    let _ = next.jungseong(jungseong, compose, opts);
                    CharacterResult::NewCharacter(next)
                },
            }
        } else {
            self.jungseong(jungseong, compose, opts)
        }
    }

    /// Types a vowel and a final consonant that one key gives; `first` tells
    /// whether the vowel comes first.
    pub fn jung_jong(
        &mut self,
        jungseong: Jungseong,
        jongseong: Jongseong,
        first: bool,
        compose: bool,
        opts: InputOptions,
    ) -> (r: CharacterResult)
        ensures
            (final(self)@, r@) == old(self)@.jung_jong_step(jungseong, jongseong, first, compose, opts),
    {
        let kv = Some(KeyValue::JungJong { jungseong, jongseong, first, compose });
        if first {
            let ret = self.jungseong(jungseong, compose, opts);
            match ret {
                CharacterResult::Consume => self.jongseong(jongseong, kv, opts),
                CharacterResult::NewCharacter(mut next) => {
                    let _ = next.jongseong(jongseong, kv, opts);
                    CharacterResult::NewCharacter(next)
                },
            }
        } else {
            self.jongseong(jongseong, kv, opts)
        }
    }

    /// The vowel that the vowel `ori_jung` and the vowel `jungseong` form.
    fn try_add_jungseong(
        ori_jung: Jungseong,
        ori_compose: bool,
        jungseong: Jungseong,
        compose: bool,
        opts: InputOptions,
    ) -> (r: Option<Jungseong>)
        ensures
            r == medial_cluster(ori_jung, ori_compose, jungseong, compose, opts),
    {
        if !opts.medial_combi {
            return None;
        }
        if opts.auto_reorder {
            if ori_compose || compose {
                match ori_jung.try_add(jungseong, opts) {
                    Some(r) => Some(r),
                    None => jungseong.try_add(ori_jung, opts),
                }
            } else {
                None
            }
        } else if ori_compose {
            ori_jung.try_add(jungseong, opts)
        } else {
            None
        }
    }

    /// Types a key value into the syllable, without recording it.
    fn apply_kv(&mut self, kv: KeyValue, opts: InputOptions) -> (r: CharacterResult)
        ensures
            (final(self)@, r@) == old(self)@.apply_step(kv, opts),
    {
        proof {
            reveal(StateView::apply_step);
        }
        match kv {
            KeyValue::Choseong { choseong } => self.choseong(choseong, opts),
            KeyValue::Jungseong { jungseong, compose } => self.jungseong(jungseong, compose, opts),
            KeyValue::Jongseong { jongseong } => self.jongseong(jongseong, Some(kv), opts),
            KeyValue::Both { choseong, jongseong } => {
                if self.choseong.is_some() && self.jungseong.is_some() && self.jongseong.is_none() {
                    self.jongseong(jongseong, Some(kv), opts)
                } else {
                    self.choseong(choseong, opts)
                }
            },
            KeyValue::ChoJong { choseong, jongseong, first } => self.cho_jong(
                choseong,
                jongseong,
                first,
                opts,
            ),
            KeyValue::ChoJung { choseong, jungseong, first, compose } => self.cho_jung(
                choseong,
                jungseong,
                first,
                compose,
                opts,
            ),
            KeyValue::JungJong { jungseong, jongseong, first, compose } => self.jung_jong(
                jungseong,
                jongseong,
                first,
                compose,
                opts,
            ),
            KeyValue::Pass(_) => CharacterResult::Consume,
        }
    }

    /// Types a key value into the syllable. The syllable that takes it in, or the
    /// next syllable that it starts, records it.
    pub fn key(&mut self, kv: KeyValue, opts: InputOptions) -> (r: CharacterResult)
        ensures
            (final(self)@, r@) == old(self)@.key_step(kv, opts),
    {
        let ret = self.apply_kv(kv, opts);
        match ret {
            CharacterResult::Consume => {
                self.history.push(kv);
                CharacterResult::Consume
            },
            CharacterResult::NewCharacter(mut next) => {
                next.history.push(kv);
                CharacterResult::NewCharacter(next)
            },
        }
    }

    /// Takes back the last keystroke: the syllable becomes what the keystrokes
    /// before it make. Returns false, and changes nothing, when there is none.
    pub fn backspace(&mut self, opts: InputOptions) -> (r: bool)
        ensures
            r == (old(self)@.history.len() > 0),
            r ==> final(self)@ == replay(old(self)@.history.drop_last(), opts),
            !r ==> final(self)@ == old(self)@,
    {
        if self.history.len() == 0 {
            return false;
        }
        self.history.pop();
        let mut old_history: Vec<KeyValue> = Vec::new();
        std::mem::swap(&mut old_history, &mut self.history);
        self.reset();
        let n = old_history.len();
        for i in 0..n
            invariant
                n == old_history@.len(),
                self@ == replay(old_history@.take(i as int), opts),
        {
            let kv = old_history[i];
            let _ = self.key(kv, opts);
            assert(old_history@.take(i + 1).drop_last() =~= old_history@.take(i as int));
        }
        assert(old_history@.take(n as int) =~= old_history@);
        true
    }
}

/// The state that typing the key values `h` into an empty syllable leaves,
/// ignoring the syllables that they start.
pub open spec fn replay(h: Seq<KeyValue>, opts: InputOptions) -> StateView
    decreases h.len(),
{
    if h.len() == 0 {
        StateView::empty()
    } else {
        replay(h.drop_last(), opts).key_step(h.last(), opts).0
    }
}


/// The kind of a conjoining jamo: 0 for an initial, 1 for a medial, 2 for a
/// final, and 3 for any other character.
pub open spec fn jamo_kind(c: char) -> int {
    if crate::char_utils::spec_is_choseong(c) {
        0
    } else if crate::char_utils::spec_is_jungseong(c) {
        1
    } else if crate::char_utils::spec_is_jongseong(c) {
        2
    } else {
        3
    }
}

/// The precomposed syllable that Unicode's canonical composition makes of a
/// modern initial, medial and, if there is a third, final jamo.
pub open spec fn canonical_syllable(s: Seq<char>) -> char {
    let t = if s.len() == 3 {
        s[2] as u32 - 0x11A7
    } else {
        0
    };
    ((0xAC00 + (s[0] as u32 - 0x1100) * 588 + (s[1] as u32 - 0x1161) * 28 + t) as u32) as char
}

/// The jamo output of a syllable is in conjoining order: each jamo is an
/// initial, a medial or a final, the initial before the medial before the
/// final, one of each that the syllable holds; and for a modern syllable the
/// canonical composition of that output is the syllable that the preedit
/// shows.
pub proof fn lemma_jamo_in_conjoining_order(s: StateView)
    ensures
        forall|i: int, j: int|
            0 <= i < j < s.jamo().len() ==> jamo_kind(#[trigger] s.jamo()[i]) < jamo_kind(
                #[trigger] s.jamo()[j],
            ),
        forall|i: int| 0 <= i < s.jamo().len() ==> jamo_kind(#[trigger] s.jamo()[i]) < 3,
        s.jamo().len() == (if s.choseong is Some { 1int } else { 0int }) + (if s.jungseong is Some {
            1int
        } else {
            0int
        }) + (if s.jongseong is Some { 1int } else { 0int }),
        s.choseong matches Some(c) && s.jungseong matches Some(v)
            && crate::engine::compose::is_modern_syllable(c, v, s.jongseong) ==> s.preedit() == seq![
            canonical_syllable(s.jamo()),
        ],
        s.choseong matches Some(c) ==> Choseong::spec_from_char(s.jamo()[0]) == Some(c),
        s.jungseong matches Some(v) ==> Jungseong::spec_from_char(
            s.jamo()[if s.choseong is Some { 1int } else { 0int }],
        ) == Some(v),
        s.jongseong matches Some(x) ==> Jongseong::spec_from_char(s.jamo().last()) == Some(x),
{
    broadcast use crate::engine::jamo::group_jamo_index;

    let a: Seq<char> = match s.choseong {
        Some(c) => seq![c.code() as char],
        None => Seq::empty(),
    };
    let b: Seq<char> = match s.jungseong {
        Some(j) => seq![j.code() as char],
        None => Seq::empty(),
    };
    let f: Seq<char> = match s.jongseong {
        Some(x) => seq![x.code() as char],
        None => Seq::empty(),
    };
    assert(s.jamo() == a + b + f);
    assert(forall|i: int| 0 <= i < a.len() ==> jamo_kind(#[trigger] a[i]) == 0);
    assert(forall|i: int| 0 <= i < b.len() ==> jamo_kind(#[trigger] b[i]) == 1);
    assert(forall|i: int| 0 <= i < f.len() ==> jamo_kind(#[trigger] f[i]) == 2);
    let all = a + b + f;
    assert forall|i: int| 0 <= i < all.len() implies #[trigger] jamo_kind(all[i]) == (if i < a.len() {
        0int
    } else if i < a.len() + b.len() {
        1int
    } else {
        2int
    }) by {
        if i < a.len() {
            assert(all[i] == a[i]);
        } else if i < a.len() + b.len() {
            assert(all[i] == b[i - a.len()]);
        } else {
            assert(all[i] == f[i - a.len() - b.len()]);
        }
    }
    if let Some(c) = s.choseong {
        assert(all[0] == a[0]);
        Choseong::lemma_from_code(c.code(), c);
    }
    if let Some(v) = s.jungseong {
        assert(all[a.len() as int] == b[0]);
        Jungseong::lemma_from_code(v.code(), v);
    }
    if let Some(x) = s.jongseong {
        assert(all.last() == f[0]);
        Jongseong::lemma_from_code(x.code(), x);
    }
    if let (Some(c), Some(v)) = (s.choseong, s.jungseong) {
        if crate::engine::compose::is_modern_syllable(c, v, s.jongseong) {
            let j = all;
            assert(j[0] == c.code() as char);
            assert(j[1] == v.code() as char);
            match s.jongseong {
                Some(x) => {
                    assert(j.len() == 3);
                    assert(j[2] == x.code() as char);
                },
                None => {
                    assert(j.len() == 2);
                },
            }
        }
    }
}

} // verus!

verus! {

impl Default for CharacterState {
    fn default() -> (r: CharacterState)
        ensures
            r@ == StateView::empty(),
    {
        CharacterState::new()
    }
}

/// A state is what its own keystrokes make when typed into an empty syllable.
pub open spec fn is_replayable(s: StateView, opts: InputOptions) -> bool {
    s == replay(s.history, opts)
}

/// The empty syllable is what no keystrokes make.
pub proof fn lemma_empty_replayable(opts: InputOptions)
    ensures
        is_replayable(StateView::empty(), opts),
{
    assert(StateView::empty().history =~= Seq::<KeyValue>::empty());
}

/// Typing a key value changes no keystrokes of the syllable; only recording it does.
pub proof fn lemma_apply_keeps_history(s: StateView, kv: KeyValue, opts: InputOptions)
    ensures
        s.apply_step(kv, opts).0.history == s.history,
{
    reveal(StateView::apply_step);
    match kv {
        KeyValue::Choseong { choseong } => lemma_choseong_keeps_history(s, choseong, opts),
        KeyValue::Jungseong { jungseong, compose } => lemma_jungseong_keeps_history(s, jungseong, compose, opts),
        KeyValue::Jongseong { jongseong } => {},
        KeyValue::Both { choseong, jongseong } => lemma_choseong_keeps_history(s, choseong, opts),
        KeyValue::ChoJong { choseong, jongseong, first } => {
            lemma_choseong_keeps_history(s, choseong, opts);
        },
        KeyValue::ChoJung { choseong, jungseong, first, compose } => {
            lemma_choseong_keeps_history(s, choseong, opts);
            lemma_jungseong_keeps_history(s, jungseong, compose, opts);
            lemma_jungseong_keeps_history(s.choseong_step(choseong, opts).0, jungseong, compose, opts);
        },
        KeyValue::JungJong { jungseong, jongseong, first, compose } => {
            lemma_jungseong_keeps_history(s, jungseong, compose, opts);
        },
        KeyValue::Pass(_) => {},
    }
}

/// An initial consonant changes no keystrokes of the syllable.
proof fn lemma_choseong_keeps_history(s: StateView, c: Choseong, opts: InputOptions)
    ensures
        s.choseong_step(c, opts).0.history == s.history,
{
}

/// A vowel changes no keystrokes of the syllable.
proof fn lemma_jungseong_keeps_history(s: StateView, j: Jungseong, compose: bool, opts: InputOptions)
    ensures
        s.jungseong_step(j, compose, opts).0.history == s.history,
{
}

/// Every keystroke is recorded: by the syllable that takes it in, at the end of
/// its keystrokes, or else by the next syllable that it starts.
pub proof fn lemma_key_recorded(s: StateView, kv: KeyValue, opts: InputOptions)
    ensures
        match s.key_step(kv, opts) {
            (t, Outcome::Consume) => t.history == s.history.push(kv),
            (_, Outcome::NewCharacter(next)) => next.history.len() > 0 && next.history.last() == kv,
        },
{
    lemma_apply_keeps_history(s, kv, opts);
}

/// Taking back a keystroke that the syllable took in restores the syllable as it
/// was before, when that syllable was what its keystrokes make; and the syllable
/// after the keystroke is again what its keystrokes make.
pub proof fn lemma_backspace_undoes_key(s: StateView, kv: KeyValue, opts: InputOptions)
    requires
        is_replayable(s, opts),
        s.key_step(kv, opts).1 is Consume,
    ensures
        is_replayable(s.key_step(kv, opts).0, opts),
        s.key_step(kv, opts).0.history.len() > 0,
        replay(s.key_step(kv, opts).0.history.drop_last(), opts) == s,
{
    let t = s.key_step(kv, opts).0;
    lemma_key_recorded(s, kv, opts);
    assert(t.history.drop_last() =~= s.history);
    assert(t.history.last() == kv);
}

} // verus!

