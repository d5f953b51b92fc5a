//! The input context: keystrokes in, committed text and preedit text out.
//!
//! Keystrokes collect in a buffer until the keyboard layout says which key value
//! they stand for; key values are recorded, and the recorded key values are
//! typed again, one by one, into an empty syllable whenever one is added or
//! taken back. A syllable that is complete goes to the committed text, or, where
//! the names of the leaders are watched for or text is committed word by word,
//! waits in a pending part of the preedit first.

use vstd::prelude::*;

use crate::engine::compose::{JongseongToChoseong, KeyValue};
use crate::engine::jamo::{Choseong, Jungseong};
use crate::engine::layout::{spec_is_prefix, spec_lookup, KeyboardLayout};
use crate::engine::options::InputOptions;
use crate::engine::state::{CharacterResult, CharacterState, Outcome, StateView};
use crate::text::{chars_of, string_of};

verus! {

/// The error of a keyboard layout that cannot be had.
#[derive(Debug)]
pub enum LayoutError {
    /// No layout of this name is known.
    Unknown(String),
}

/// What a call on the input context gives the application to do.
#[derive(Debug, Clone, PartialEq, Eq)]
pub enum InputEvent {
    /// This text is final.
    Commit(String),
    /// This text is shown as the text being composed.
    Preedit(String),
    /// Nothing changed.
    Nothing,
}

/// The content of an `InputEvent`.
pub enum EventView {
    Commit(Seq<char>),
    Preedit(Seq<char>),
    Nothing,
}

impl View for InputEvent {
    type V = EventView;

    open spec fn view(&self) -> EventView {
        match self {
            InputEvent::Commit(s) => EventView::Commit(s@),
            InputEvent::Preedit(s) => EventView::Preedit(s@),
            InputEvent::Nothing => EventView::Nothing,
        }
    }
}

/// How the syllable being composed is shown and committed.
#[derive(Debug, Clone, Copy, PartialEq, Eq, Structural)]
pub enum OutputMode {
    /// As precomposed syllables and compatibility jamo.
    Syllable,
    /// As a run of conjoining jamo.
    Jamo,
}

impl Default for OutputMode {
    fn default() -> (r: OutputMode)
        ensures
            r == OutputMode::Syllable,
    {
        OutputMode::Syllable
    }
}

/// The options that an application may set on an input context.
#[derive(Clone, Copy, Debug, PartialEq, Eq, Structural)]
pub enum InputOption {
    AutoReorder,
    CombiOnDoubleStroke,
    NonInitialCombi,
    OldJamo,
    NobleName,
    WordUnitCommit,
}

/// The character that a layout uses to mark a break between syllables; it
/// commits what is composed and shows nothing itself.
pub open spec fn syllable_break() -> char {
    '\u{1F135}'
}

/// The three names whose syllables are replaced, as a whole, by their
/// dedicated characters of the private use area.
pub open spec fn noble_name_chars(n: int) -> Seq<char> {
    if n == 0 {
        seq!['\u{AE40}', '\u{C77C}', '\u{C131}']
    } else if n == 1 {
        seq!['\u{AE40}', '\u{C815}', '\u{C77C}']
    } else {
        seq!['\u{AE40}', '\u{C815}', '\u{C740}']
    }
}

/// The characters that stand for the `n`th name.
pub open spec fn noble_name_mark(n: int) -> Seq<char> {
    if n == 0 {
        seq!['\u{F113}', '\u{F114}', '\u{F115}']
    } else if n == 1 {
        seq!['\u{F116}', '\u{F117}', '\u{F118}']
    } else {
        seq!['\u{F120}', '\u{F121}', '\u{F122}']
    }
}

/// `s` ends with `p`.
pub open spec fn ends_with(s: Seq<char>, p: Seq<char>) -> bool {
    p.len() <= s.len() && s.subrange(s.len() - p.len(), s.len() as int) == p
}

/// `p` occurs somewhere in `s`.
pub open spec fn contains(s: Seq<char>, p: Seq<char>) -> bool {
    exists|i: int| 0 <= i && i + p.len() <= s.len() && #[trigger] s.subrange(i, i + p.len()) == p
}

/// `s` with every occurrence of the non-empty `p`, from left to right and
/// without overlap, replaced by `r`, as `str::replace` does.
pub open spec fn replace_all(s: Seq<char>, p: Seq<char>, r: Seq<char>) -> Seq<char>
    decreases s.len(),
{
    if p.len() == 0 || s.len() < p.len() {
        s
    } else if s.take(p.len() as int) == p {
        r + replace_all(s.skip(p.len() as int), p, r)
    } else {
        seq![s[0]] + replace_all(s.drop_first(), p, r)
    }
}

/// The content of an input context.
pub struct ContextView {
    /// The syllable being composed.
    pub state: StateView,
    /// The entries of the keyboard layout.
    pub layout: Seq<(Seq<char>, KeyValue)>,
    /// The name of the keyboard layout.
    pub id: Seq<char>,
    pub options: InputOptions,
    pub mode: OutputMode,
    /// The text committed by the last call.
    pub commit: Seq<char>,
    /// Keystrokes that no key value has been taken for yet.
    pub buffer: Seq<char>,
    /// Complete syllables that wait before they are committed.
    pub pending: Seq<char>,
    /// The key values that make what is composed.
    pub history: Seq<KeyValue>,
}

/// The layout has a key of more than one character: it transliterates.
pub open spec fn is_translit_layout(e: Seq<(Seq<char>, KeyValue)>) -> bool {
    exists|i: int| 0 <= i < e.len() && (#[trigger] e[i]).0.len() > 1
}

impl ContextView {
    /// The layout transliterates.
    pub open spec fn translit(self) -> bool {
        is_translit_layout(self.layout)
    }

    /// The pending syllables go to the committed text, and the key values that
    /// made them are forgotten.
    pub open spec fn flush_pending(self) -> ContextView {
        ContextView {
            commit: self.commit + self.pending,
            pending: Seq::empty(),
            history: Seq::empty(),
            ..self
        }
    }

    /// Where the pending syllables end with the `n`th name, that name is
    /// committed as its dedicated characters, after what came before it.
    pub open spec fn commit_noble_name(self, n: int) -> ContextView {
        let c = ContextView {
            pending: self.pending.take(self.pending.len() - 3),
            ..self
        }.flush_pending();
        ContextView { commit: c.commit + noble_name_mark(n), ..c }
    }

    /// The syllable is complete: it is emptied, and what showed it goes to the
    /// committed text, or waits among the pending syllables.
    pub open spec fn commit_syllable(self) -> ContextView {
        let syl = self.state.preedit();
        let c = ContextView { state: StateView::empty(), ..self };
        if syl.len() == 0 {
            c
        } else if !self.options.noble_name && !self.options.word_unit_commit {
            ContextView { commit: c.commit + syl, history: Seq::empty(), ..c }
        } else {
            let p = c.pending + syl;
            let c2 = ContextView { pending: p, ..c };
            if self.options.word_unit_commit {
                c2
            } else if ends_with(p, noble_name_chars(0)) {
                c2.commit_noble_name(0)
            } else if ends_with(p, noble_name_chars(1)) {
                c2.commit_noble_name(1)
            } else if ends_with(p, noble_name_chars(2)) {
                c2.commit_noble_name(2)
            } else if p == seq!['\u{AE40}'] || p == seq!['\u{AE40}', '\u{C77C}'] || p == seq![
                '\u{AE40}',
                '\u{C815}',
            ] {
                c2
            } else {
                c2.flush_pending()
            }
        }
    }

    /// Everything composed goes to the committed text.
    pub open spec fn flush_to_commit(self) -> ContextView {
        match self.mode {
            OutputMode::Syllable => self.commit_syllable().flush_pending(),
            OutputMode::Jamo => ContextView {
                commit: self.commit + self.state.jamo(),
                state: StateView::empty(),
                pending: Seq::empty(),
                ..self
            },
        }
    }
}

/// A key value for a consonant: an initial, a final, or one that is either.
pub open spec fn is_consonant(kv: KeyValue) -> bool {
    kv is Choseong || kv is Both || kv is Jongseong
}

/// The syllable holds no jamo.
pub open spec fn is_blank(s: StateView) -> bool {
    s.choseong is None && s.jungseong is None && s.jongseong is None
}

/// The syllable that typing the key values `h` into `s` leaves, ignoring the
/// syllables that they start.
pub open spec fn replay_onto(s: StateView, h: Seq<KeyValue>, opts: InputOptions) -> StateView
    decreases h.len(),
{
    if h.len() == 0 {
        s
    } else {
        replay_onto(s, h.drop_last(), opts).key_step(h.last(), opts).0
    }
}

/// The silent initial consonant ㅇ.
pub open spec fn silent_initial() -> KeyValue {
    KeyValue::Choseong { choseong: Choseong::Ieung }
}

/// The vowel ㅡ, which a transliterated consonant without a vowel gets.
pub open spec fn filler_vowel() -> KeyValue {
    KeyValue::Jungseong { jungseong: Jungseong::Eu, compose: true }
}

/// A syllable that began with a vowel, begun again with the silent initial ㅇ
/// and its keystrokes typed after it.
pub open spec fn with_silent_initial(next: StateView, opts: InputOptions) -> StateView {
    replay_onto(StateView::empty().key_step(silent_initial(), opts).0, next.history, opts)
}

impl ContextView {
    /// The context with `s` as the syllable being composed.
    pub open spec fn with_state(self, s: StateView) -> ContextView {
        ContextView { state: s, ..self }
    }

    /// The rules of transliteration, applied before the key value `kv` is typed:
    /// a consonant after a lone initial consonant completes that one with ㅡ; a
    /// vowel on an empty syllable gets the silent initial ㅇ; a final consonant
    /// on an empty syllable is typed as the initial it moves to.
    pub open spec fn translit_rules(self, kv: KeyValue) -> (ContextView, KeyValue) {
        let opts = self.options;
        let c1 = if is_consonant(kv) && self.state.choseong is Some && self.state.jungseong is None {
            self.with_state(self.state.key_step(filler_vowel(), opts).0).commit_syllable()
        } else {
            self
        };
        let c2 = if kv is Jungseong && is_blank(c1.state) {
            c1.with_state(c1.state.key_step(silent_initial(), opts).0)
        } else {
            c1
        };
        let kv2 = match kv {
            KeyValue::Jongseong { jongseong } => if is_blank(c2.state) {
                match jongseong.spec_to_initial() {
                    JongseongToChoseong::Direct(c) => KeyValue::Choseong { choseong: c },
                    _ => kv,
                }
            } else {
                kv
            },
            _ => kv,
        };
        (c2, kv2)
    }

    /// The recorded key value `kv0` typed again into the context.
    pub open spec fn rebuild_step(self, kv0: KeyValue) -> ContextView {
        let (c, kv) = if self.translit() {
            self.translit_rules(kv0)
        } else {
            (self, kv0)
        };
        match kv {
            KeyValue::Pass(ch) => {
                let c2 = c.flush_to_commit();
                if ch != syllable_break() {
                    ContextView { commit: c2.commit.push(ch), ..c2 }
                } else {
                    c2
                }
            },
            _ => match c.state.key_step(kv, c.options) {
                (s, Outcome::Consume) => ContextView { state: s, history: c.history.push(kv), ..c },
                (s, Outcome::NewCharacter(next)) => {
                    let next2 = if c.translit() && next.choseong is None && next.jungseong is Some {
                        with_silent_initial(next, c.options)
                    } else {
                        next
                    };
                    let c2 = c.with_state(s).commit_syllable();
                    if c2.history.len() == 0 {
                        ContextView { state: next2, history: next2.history, ..c2 }
                    } else {
                        ContextView { state: next2, history: c2.history.push(kv), ..c2 }
                    }
                },
            },
        }
    }

    /// The key values `keys` typed again, in order, into the context.
    pub open spec fn rebuild_keys(self, keys: Seq<KeyValue>) -> ContextView
        decreases keys.len(),
    {
        if keys.len() == 0 {
            self
        } else {
            self.rebuild_step(keys[0]).rebuild_keys(keys.drop_first())
        }
    }

    /// The syllable and the pending syllables made again from the recorded key
    /// values.
    pub open spec fn rebuild(self) -> ContextView {
        ContextView {
            state: StateView::empty(),
            pending: Seq::empty(),
            history: Seq::empty(),
            ..self
        }.rebuild_keys(self.history)
    }

    /// The key value `kv` recorded, and what is composed made again.
    pub open spec fn add_key(self, kv: KeyValue) -> ContextView {
        ContextView { history: self.history.push(kv), ..self }.rebuild()
    }
}

/// `b` has the layout, name, options, output mode and buffered keystrokes of `a`.
pub open spec fn same_frame(a: ContextView, b: ContextView) -> bool {
    &&& b.layout == a.layout
    &&& b.id == a.id
    &&& b.options == a.options
    &&& b.mode == a.mode
    &&& b.buffer == a.buffer
}

/// Completing a syllable changes none of the frame.
pub proof fn lemma_commit_syllable_frame(c: ContextView)
    ensures
        same_frame(c, c.commit_syllable()),
{
}

/// Committing everything composed changes none of the frame.
pub proof fn lemma_flush_to_commit_frame(c: ContextView)
    ensures
        same_frame(c, c.flush_to_commit()),
{
}

/// Typing a recorded key value again changes none of the frame.
pub proof fn lemma_rebuild_step_frame(c: ContextView, kv: KeyValue)
    ensures
        same_frame(c, c.rebuild_step(kv)),
{
    lemma_commit_syllable_frame(c.with_state(c.state.key_step(filler_vowel(), c.options).0));
    let (c1, kv1) = if c.translit() {
        c.translit_rules(kv)
    } else {
        (c, kv)
    };
    lemma_flush_to_commit_frame(c1);
    lemma_commit_syllable_frame(c1.with_state(c1.state.key_step(kv1, c1.options).0));
}

/// Typing recorded key values again changes none of the frame.
pub proof fn lemma_rebuild_keys_frame(c: ContextView, keys: Seq<KeyValue>)
    ensures
        same_frame(c, c.rebuild_keys(keys)),
    decreases keys.len(),
{
    if keys.len() > 0 {
        lemma_rebuild_step_frame(c, keys[0]);
        lemma_rebuild_keys_frame(c.rebuild_step(keys[0]), keys.drop_first());
    }
}

/// Recording a key value changes none of the frame.
pub proof fn lemma_add_key_frame(c: ContextView, kv: KeyValue)
    ensures
        same_frame(c, c.add_key(kv)),
{
    let c1 = ContextView { history: c.history.push(kv), ..c };
    lemma_rebuild_keys_frame(
        ContextView { state: StateView::empty(), pending: Seq::empty(), history: Seq::empty(), ..c1 },
        c1.history,
    );
}

/// The longest start of `buf`, of at most `k` characters, that the layout has a
/// key value for: its length and that key value.
pub open spec fn longest_match(e: Seq<(Seq<char>, KeyValue)>, buf: Seq<char>, ci: bool, k: nat) -> Option<
    (nat, KeyValue),
>
    decreases k,
{
    if k == 0 {
        None
    } else {
        match spec_lookup(e, buf.take(k as int), ci) {
            Some(v) => Some((k, v)),
            None => longest_match(e, buf, ci, (k - 1) as nat),
        }
    }
}

/// A match is at least one character long, and no longer than allowed.
pub proof fn lemma_longest_match_len(e: Seq<(Seq<char>, KeyValue)>, buf: Seq<char>, ci: bool, k: nat)
    ensures
        longest_match(e, buf, ci, k) matches Some((n, _)) ==> 1 <= n <= k,
    decreases k,
{
    if k > 0 {
        lemma_longest_match_len(e, buf, ci, (k - 1) as nat);
    }
}

/// `c` is an uppercase ASCII letter.
pub open spec fn is_ascii_upper(c: char) -> bool {
    'A' <= c <= 'Z'
}

impl ContextView {
    /// The buffered keystrokes may still grow into a longer key, so that, unless
    /// `force`, they wait for the next keystroke.
    pub open spec fn waits(self, force: bool) -> bool {
        !force && spec_is_prefix(self.layout, self.buffer, self.translit())
    }

    /// The buffered keystrokes taken, from the start, as the longest keys of the
    /// layout, until none is left or, unless `force`, they may still grow into a
    /// longer key. Keystrokes that start no key are committed as they are.
    pub open spec fn process_buffer(self, force: bool) -> ContextView
        decreases self.buffer.len(),
    {
        if self.buffer.len() == 0 || self.waits(force) {
            self
        } else {
            match longest_match(self.layout, self.buffer, self.translit(), self.buffer.len()) {
                Some((n, kv)) => {
                    proof {
                        lemma_longest_match_len(self.layout, self.buffer, self.translit(), self.buffer.len());
                    }
                    let c = self.add_key(kv);
                    ContextView { buffer: self.buffer.skip(n as int), ..c }.process_buffer(force)
                },
                None => {
                    let c = self.flush_to_commit();
                    ContextView {
                        commit: c.commit.push(self.buffer[0]),
                        buffer: self.buffer.skip(1),
                        ..c
                    }.process_buffer(force)
                },
            }
        }
    }

    /// A keystroke: the committed text of the last call is dropped; on a layout
    /// that transliterates, an uppercase letter first commits all before it;
    /// then the keystroke joins the buffer, which is taken as far as it can be.
    pub open spec fn process(self, key: char) -> ContextView {
        let c = ContextView { commit: Seq::empty(), ..self };
        let c2 = if c.translit() && is_ascii_upper(key) {
            c.process_buffer(true).flush_to_commit()
        } else {
            c
        };
        ContextView { buffer: c2.buffer.push(key), ..c2 }.process_buffer(false)
    }
}

/// What shows the syllable `s` in the output mode `mode`.
pub open spec fn show(s: StateView, mode: OutputMode) -> Seq<char> {
    match mode {
        OutputMode::Syllable => s.preedit(),
        OutputMode::Jamo => s.jamo(),
    }
}

/// The value of the option `opt` in `o`.
pub open spec fn option_value(o: InputOptions, opt: InputOption) -> bool {
    match opt {
        InputOption::AutoReorder => o.auto_reorder,
        InputOption::CombiOnDoubleStroke => o.combi_on_double_stroke,
        InputOption::NonInitialCombi => o.non_initial_combi,
        InputOption::OldJamo => o.old_jamo,
        InputOption::NobleName => o.noble_name,
        InputOption::WordUnitCommit => o.word_unit_commit,
    }
}

/// `o` with the option `opt` set to `value`.
pub open spec fn with_option(o: InputOptions, opt: InputOption, value: bool) -> InputOptions {
    match opt {
        InputOption::AutoReorder => InputOptions { auto_reorder: value, ..o },
        InputOption::CombiOnDoubleStroke => InputOptions { combi_on_double_stroke: value, ..o },
        InputOption::NonInitialCombi => InputOptions { non_initial_combi: value, ..o },
        InputOption::OldJamo => InputOptions { old_jamo: value, ..o },
        InputOption::NobleName => InputOptions { noble_name: value, ..o },
        InputOption::WordUnitCommit => InputOptions { word_unit_commit: value, ..o },
    }
}

/// The options that a context starts with on the layout `e`: a layout that
/// transliterates moves final consonants to the next syllable and neither
/// reorders nor combines; another combines initials into final clusters; a
/// layout with archaic jamo turns the archaic combinations on.
pub open spec fn initial_options(e: Seq<(Seq<char>, KeyValue)>) -> InputOptions {
    let d = InputOptions::spec_default();
    let o = if is_translit_layout(e) {
        InputOptions {
            treat_final_as_initial: true,
            auto_reorder: false,
            non_initial_combi: false,
            medial_combi: false,
            ..d
        }
    } else {
        InputOptions { non_initial_combi: true, ..d }
    };
    if exists|i: int| 0 <= i < e.len() && (#[trigger] e[i]).1.spec_has_old_jamo() {
        InputOptions { old_jamo: true, ..o }
    } else {
        o
    }
}

impl ContextView {
    /// What shows the syllable being composed and the buffered keystrokes: the
    /// keystrokes as the key value they would stand for if no more came, typed
    /// into a copy of the syllable, or as they are where they stand for none.
    pub open spec fn composing_text(self) -> Seq<char> {
        let opts = self.options;
        let out0 = show(self.state, self.mode);
        if self.buffer.len() == 0 {
            out0
        } else {
            match spec_lookup(self.layout, self.buffer, self.translit()) {
                None => out0 + self.buffer,
                Some(kv0) => {
                    let tr = self.translit() && is_blank(self.state);
                    let temp = if tr && kv0 is Jungseong {
                        self.state.key_step(silent_initial(), opts).0
                    } else {
                        self.state
                    };
                    let kv = if tr {
                        match kv0 {
                            KeyValue::Jongseong { jongseong } => match jongseong.spec_to_initial() {
                                JongseongToChoseong::Direct(c) => KeyValue::Choseong { choseong: c },
                                _ => kv0,
                            },
                            _ => kv0,
                        }
                    } else {
                        kv0
                    };
                    match temp.key_step(kv, opts) {
                        (t, Outcome::Consume) => show(t, self.mode),
                        (t, Outcome::NewCharacter(next)) => {
                            let next2 = if self.translit() && next.choseong is None
                                && next.jungseong is Some {
                                with_silent_initial(next, opts)
                            } else {
                                next
                            };
                            show(t, self.mode) + show(next2, self.mode)
                        },
                    }
                },
            }
        }
    }

    /// The preedit text: the pending syllables, then what is composed; where
    /// the names of the leaders are watched for, the first of the three names
    /// that occurs in it is replaced, wherever it occurs, by its characters.
    pub open spec fn preedit_text(self) -> Seq<char> {
        let combined = self.pending + self.composing_text();
        if self.options.noble_name && contains(combined, noble_name_chars(0)) {
            replace_all(combined, noble_name_chars(0), noble_name_mark(0))
        } else if self.options.noble_name && contains(combined, noble_name_chars(1)) {
            replace_all(combined, noble_name_chars(1), noble_name_mark(1))
        } else if self.options.noble_name && contains(combined, noble_name_chars(2)) {
            replace_all(combined, noble_name_chars(2), noble_name_mark(2))
        } else {
            combined
        }
    }

    /// Backspace: the last buffered keystroke is dropped, or else the last
    /// recorded key value, and what is composed is made again; the event gives
    /// the new preedit text, or nothing where there was nothing to take back.
    pub open spec fn backspace(self) -> (ContextView, EventView) {
        let c = ContextView { commit: Seq::empty(), ..self };
        if c.buffer.len() > 0 {
            let c2 = ContextView { buffer: c.buffer.drop_last(), ..c };
            (c2, EventView::Preedit(c2.preedit_text()))
        } else if c.history.len() == 0 {
            (c, EventView::Nothing)
        } else {
            let c2 = ContextView { history: c.history.drop_last(), ..c }.rebuild();
            (c2, EventView::Preedit(c2.preedit_text()))
        }
    }

    /// Flush: the buffered keystrokes are taken whatever may follow, everything
    /// composed is committed, and that text is handed out rather than kept.
    pub open spec fn flush(self) -> (ContextView, Seq<char>) {
        let c = ContextView { commit: Seq::empty(), ..self }.process_buffer(true).flush_to_commit();
        (ContextView { commit: Seq::empty(), ..c }, c.commit)
    }

    /// Reset: the syllable, the buffer, the committed text and the recorded key
    /// values are emptied; the pending syllables stay.
    pub open spec fn reset(self) -> ContextView {
        ContextView {
            state: StateView::empty(),
            buffer: Seq::empty(),
            commit: Seq::empty(),
            history: Seq::empty(),
            ..self
        }
    }

    /// Nothing is composed and nothing pends.
    pub open spec fn is_empty(self) -> bool {
        !self.state.need_display() && self.pending.len() == 0
    }

    /// The option `opt` set to `value`; turning the names of the leaders off
    /// commits what pends for them.
    pub open spec fn set_option(self, opt: InputOption, value: bool) -> ContextView {
        let c = if opt == InputOption::NobleName && self.options.noble_name && !value {
            self.flush_pending()
        } else {
            self
        };
        ContextView { options: with_option(c.options, opt, value), ..c }
    }
}

/// `b` has the layout, name, options and output mode of `a`.
pub open spec fn same_settings(a: ContextView, b: ContextView) -> bool {
    &&& b.layout == a.layout
    &&& b.id == a.id
    &&& b.options == a.options
    &&& b.mode == a.mode
}

/// Taking the buffered keystrokes changes none of the settings; taken whatever
/// may follow, they leave the buffer empty.
pub proof fn lemma_process_buffer(c: ContextView, force: bool)
    ensures
        same_settings(c, c.process_buffer(force)),
        force ==> c.process_buffer(force).buffer.len() == 0,
    decreases c.buffer.len(),
{
    if c.buffer.len() > 0 && !c.waits(force) {
        lemma_longest_match_len(c.layout, c.buffer, c.translit(), c.buffer.len());
        match longest_match(c.layout, c.buffer, c.translit(), c.buffer.len()) {
            Some((n, kv)) => {
                lemma_add_key_frame(c, kv);
                lemma_process_buffer(
                    ContextView { buffer: c.buffer.skip(n as int), ..c.add_key(kv) },
                    force,
                );
            },
            None => {
                lemma_flush_to_commit_frame(c);
                let d = c.flush_to_commit();
                lemma_process_buffer(
                    ContextView { commit: d.commit.push(c.buffer[0]), buffer: c.buffer.skip(1), ..d },
                    force,
                );
            },
        }
    }
}

/// Keystrokes never change the layout, its name, the options or the output
/// mode; only `set_option` and `set_output_mode` do.
pub proof fn lemma_process_keeps_settings(c: ContextView, key: char)
    ensures
        same_settings(c, c.process(key)),
{
    let c0 = ContextView { commit: Seq::empty(), ..c };
    lemma_process_buffer(c0, true);
    lemma_flush_to_commit_frame(c0.process_buffer(true));
    let c2 = if c0.translit() && is_ascii_upper(key) {
        c0.process_buffer(true).flush_to_commit()
    } else {
        c0
    };
    lemma_process_buffer(ContextView { buffer: c2.buffer.push(key), ..c2 }, false);
}

/// After a flush nothing is left: no buffered keystroke, no syllable being
/// composed, no pending syllable, no preedit text, and no committed text kept.
pub proof fn lemma_flush_leaves_nothing(c: ContextView)
    ensures
        c.flush().0.buffer.len() == 0,
        c.flush().0.is_empty(),
        c.flush().0.commit.len() == 0,
        c.flush().0.preedit_text() == Seq::<char>::empty(),
        same_settings(c, c.flush().0),
{
    let c0 = ContextView { commit: Seq::empty(), ..c };
    lemma_process_buffer(c0, true);
    let d = c0.process_buffer(true);
    lemma_flush_to_commit_frame(d);
    let e = c.flush().0;
    assert(e.state == StateView::empty());
    assert(e.composing_text() =~= Seq::<char>::empty());
    assert(e.pending + e.composing_text() =~= Seq::<char>::empty());
    assert forall|n: int| !contains(Seq::<char>::empty(), #[trigger] noble_name_chars(n)) by {
        assert(noble_name_chars(n).len() == 3);
    }
}

/// With nothing buffered, a flush hands out what the preedit showed: in the
/// syllable mode where the names of the leaders are not watched for and the
/// pending syllables, if any, wait for the end of a word; in the jamo mode, the
/// jamo of the syllable.
pub proof fn lemma_flush_gives_preedit(c: ContextView)
    requires
        c.buffer.len() == 0,
    ensures
        c.mode == OutputMode::Syllable && !c.options.noble_name && (c.pending.len() == 0
            || c.options.word_unit_commit) ==> c.flush().1 == c.preedit_text(),
        c.mode == OutputMode::Jamo ==> c.flush().1 == c.state.jamo(),
{
    let c0 = ContextView { commit: Seq::empty(), ..c };
    assert(c0.process_buffer(true) == c0);
    assert(c.composing_text() == show(c.state, c.mode));
    if c.mode == OutputMode::Syllable && !c.options.noble_name {
        let syl = c.state.preedit();
        if syl.len() == 0 {
            assert(syl =~= Seq::<char>::empty());
            assert(c0.commit_syllable().flush_pending().commit =~= c.pending + syl);
        } else if !c.options.word_unit_commit {
            if c.pending.len() == 0 {
                assert(c0.commit_syllable().flush_pending().commit =~= c.pending + syl);
            }
        } else {
            let c1 = c0.commit_syllable();
            assert(c1.pending == c.pending + syl);
            assert(c1.commit == c0.commit);
            assert(c1.flush_pending().commit =~= c.pending + syl);
        }
    }
    if c.mode == OutputMode::Jamo {
        assert(c0.flush_to_commit().commit =~= c.state.jamo());
    }
}

/// What a replacement of the `n`th name begins with: the first character of its
/// marks where the text begins with the name, else the text's own first
/// character; only the empty text gives the empty text.
proof fn lemma_replace_head(s: Seq<char>, n: int)
    ensures
        replace_all(s, noble_name_chars(n), noble_name_mark(n)).len() == 0 <==> s.len() == 0,
        s.len() > 0 ==> replace_all(s, noble_name_chars(n), noble_name_mark(n))[0] == (if s.len() >= 3
            && s.take(3) == noble_name_chars(n) {
            noble_name_mark(n)[0]
        } else {
            s[0]
        }),
{
    let p = noble_name_chars(n);
    let r = noble_name_mark(n);
    assert(p.len() == 3);
    if s.len() >= 3 && s.take(3) == p {
        assert(replace_all(s, p, r) == r + replace_all(s.skip(3), p, r));
    } else if s.len() >= 3 {
        assert(replace_all(s, p, r) == seq![s[0]] + replace_all(s.drop_first(), p, r));
    }
}

/// Replacing every occurrence of the `n`th name by its characters leaves no
/// occurrence of the name: the characters share none with the name, and the
/// name cannot overlap itself.
pub proof fn lemma_replace_removes_name(s: Seq<char>, n: int)
    ensures
        !contains(replace_all(s, noble_name_chars(n), noble_name_mark(n)), noble_name_chars(n)),
    decreases s.len(),
{
    let p = noble_name_chars(n);
    let r = noble_name_mark(n);
    let out = replace_all(s, p, r);
    assert(p.len() == 3);
    assert(p[0] == '\u{AE40}');
    assert(r[0] != p[0] && r[1] != p[0] && r[2] != p[0]);
    assert(r[0] != p[1] && r[0] != p[2]);
    if s.len() >= 3 {
        if s.take(3) == p {
            let rest = replace_all(s.skip(3), p, r);
            lemma_replace_removes_name(s.skip(3), n);
            assert(out == r + rest);
            assert forall|i: int| 0 <= i && i + 3 <= out.len() implies #[trigger] out.subrange(i, i + 3) != p by {
                if i < 3 {
                    assert(out.subrange(i, i + 3)[0] == r[i]);
                    assert(r[i] != p[0]);
                } else {
                    assert(out.subrange(i, i + 3) =~= rest.subrange(i - 3, (i - 3) + p.len()));
                }
            }
        } else {
            let t = s.drop_first();
            let rest = replace_all(t, p, r);
            lemma_replace_removes_name(t, n);
            assert(out == seq![s[0]] + rest);
            assert forall|i: int| 0 <= i && i + 3 <= out.len() implies #[trigger] out.subrange(i, i + 3) != p by {
                if i >= 1 {
                    assert(out.subrange(i, i + 3) =~= rest.subrange(i - 1, (i - 1) + p.len()));
                } else if out.subrange(0, 3) == p {
                    assert(out[1] == rest[0] && out[2] == rest[1]);
                    lemma_replace_head(t, n);
                    let u = t.drop_first();
                    if t.len() >= 3 && t.take(3) == p {
                        assert(rest[0] == r[0]);
                    } else if t.len() < 3 {
                        assert(rest == t);
                        assert(s.take(3) =~= p);
                    } else {
                        assert(rest[0] == t[0]);
                        assert(rest == seq![t[0]] + replace_all(u, p, r));
                        lemma_replace_head(u, n);
                        if u.len() >= 3 && u.take(3) == p {
                            assert(rest[1] == r[0]);
                        } else {
                            assert(rest[1] == u[0]);
                            assert(s.take(3) =~= p);
                        }
                    }
                }
            }
        }
    }
}

/// With the names of the leaders watched for, the first of the three names that
/// the composed text holds is replaced wherever it occurs, so that the preedit
/// text no longer shows it.
pub proof fn lemma_preedit_replaces_name(c: ContextView, n: int)
    requires
        c.options.noble_name,
        0 <= n < 3,
        contains(c.pending + c.composing_text(), noble_name_chars(n)),
        forall|m: int| 0 <= m < n ==> !contains(c.pending + c.composing_text(), #[trigger] noble_name_chars(m)),
    ensures
        c.preedit_text() == replace_all(c.pending + c.composing_text(), noble_name_chars(n), noble_name_mark(n)),
        !contains(c.preedit_text(), noble_name_chars(n)),
{
    let combined = c.pending + c.composing_text();
    if n == 1 {
        assert(!contains(combined, noble_name_chars(0)));
    } else if n == 2 {
        assert(!contains(combined, noble_name_chars(0)));
        assert(!contains(combined, noble_name_chars(1)));
    }
    lemma_replace_removes_name(combined, n);
}

/// A keystroke that waits in the buffer, because it may still grow into a
/// longer key, is taken back whole by the next backspace: the context is again
/// what it was, its committed text dropped.
pub proof fn lemma_backspace_takes_back_waiting_key(c: ContextView, key: char)
    requires
        !(c.translit() && is_ascii_upper(key)),
        spec_is_prefix(c.layout, c.buffer.push(key), c.translit()),
    ensures
        c.process(key).buffer == c.buffer.push(key),
        c.process(key).backspace().0 == (ContextView { commit: Seq::empty(), ..c }),
{
    let c1 = ContextView { buffer: c.buffer.push(key), commit: Seq::empty(), ..c };
    assert(c1.waits(false));
    assert(c.process(key) == c1);
    assert(c1.buffer.drop_last() =~= c.buffer);
}

/// Typing recorded key values, then one more, is typing the one more after
/// them.
pub proof fn lemma_rebuild_keys_push(c: ContextView, h: Seq<KeyValue>, k: KeyValue)
    ensures
        c.rebuild_keys(h.push(k)) == c.rebuild_keys(h).rebuild_step(k),
    decreases h.len(),
{
    if h.len() == 0 {
        assert(h.push(k).drop_first() =~= Seq::<KeyValue>::empty());
        assert(c.rebuild_keys(h) == c);
        assert(c.rebuild_step(k).rebuild_keys(Seq::<KeyValue>::empty()) == c.rebuild_step(k));
        assert(c.rebuild_keys(h.push(k)) == c.rebuild_step(k).rebuild_keys(h.push(k).drop_first()));
    } else {
        assert(h.push(k).drop_first() =~= h.drop_first().push(k));
        assert(h.push(k)[0] == h[0]);
        lemma_rebuild_keys_push(c.rebuild_step(h[0]), h.drop_first(), k);
        assert(c.rebuild_keys(h.push(k)) == c.rebuild_step(h[0]).rebuild_keys(h.drop_first().push(k)));
        assert(c.rebuild_keys(h) == c.rebuild_step(h[0]).rebuild_keys(h.drop_first()));
    }
}

/// A backspace takes back a keystroke that the syllable took in: on a layout
/// that does not transliterate, where the keystroke is a key of the layout that
/// starts no longer key, and the context is what its recorded key values make,
/// typing the key and then a backspace leaves the context as it was. The
/// context that the keystroke leaves is again what its recorded key values
/// make, with no committed text, so that this holds of each keystroke of a run
/// of them.
pub proof fn lemma_backspace_undoes_keystroke(c: ContextView, key: char, kv: KeyValue)
    requires
        c.buffer.len() == 0,
        c.commit.len() == 0,
        !c.translit(),
        c.rebuild() == c,
        spec_lookup(c.layout, seq![key], false) == Some(kv),
        !spec_is_prefix(c.layout, seq![key], false),
        !(kv is Pass),
        (c.state.key_step(kv, c.options).1 is Consume),
    ensures
        c.process(key).backspace().0 == c,
        c.process(key).rebuild() == c.process(key),
        c.process(key).commit.len() == 0,
{
    let c1 = ContextView { buffer: seq![key], ..c };
    assert(c.commit =~= Seq::<char>::empty());
    assert(ContextView { commit: Seq::empty(), ..c } == c);
    assert(c.buffer.push(key) =~= seq![key]);
    assert(ContextView { buffer: c.buffer.push(key), ..c } == c1);
    assert(seq![key].take(1) =~= seq![key]);
    assert(longest_match(c.layout, seq![key], false, 1) == Some((1nat, kv)));
    lemma_add_key_frame(c1, kv);
    let c2 = ContextView { buffer: seq![key].skip(1), ..c1.add_key(kv) };
    assert(seq![key].skip(1) =~= Seq::<char>::empty());
    assert(!c1.waits(false));
    assert(c1.process_buffer(false) == c2.process_buffer(false));
    assert(c2.process_buffer(false) == c2);
    assert(c.process(key) == c1.process_buffer(false));
    assert(c.process(key) == c2);
    let c0 = ContextView {
        state: StateView::empty(),
        pending: Seq::empty(),
        history: Seq::empty(),
        ..c1
    };
    lemma_rebuild_keys_push(c0, c.history, kv);
    let c0b = ContextView {
        state: StateView::empty(),
        pending: Seq::empty(),
        history: Seq::empty(),
        ..c
    };
    assert(c0.rebuild_keys(c.history) == ContextView { buffer: seq![key], ..c0b.rebuild_keys(c.history) })
        by {
        lemma_rebuild_keys_buffer(c0b, c.history, seq![key]);
    }
    assert(c0 == ContextView { buffer: seq![key], ..c0b });
    assert(c0b.rebuild_keys(c.history) == c);
    assert(c0.rebuild_keys(c.history) == c1);
    assert(c1.add_key(kv) == c0.rebuild_keys(c.history.push(kv)));
    let s1 = c.state.key_step(kv, c.options).0;
    assert(c1.rebuild_step(kv) == ContextView { state: s1, history: c.history.push(kv), ..c1 });
    assert(c1.add_key(kv) == c1.rebuild_step(kv));
    assert(c.buffer =~= Seq::<char>::empty());
    assert(c2 == ContextView { state: s1, history: c.history.push(kv), ..c });
    assert(c.history.push(kv).drop_last() =~= c.history);
    let e = ContextView { history: c.history, ..c2 };
    assert(ContextView { commit: Seq::empty(), ..c2 } == c2);
    assert(c2.backspace().0 == e.rebuild());
    assert(ContextView {
        state: StateView::empty(),
        pending: Seq::empty(),
        history: Seq::empty(),
        ..e
    } == c0b);
    // What the keystroke leaves is again what its recorded key values make.
    let c2b = ContextView {
        state: StateView::empty(),
        pending: Seq::empty(),
        history: Seq::empty(),
        ..c2
    };
    assert(c2b == c0b);
    lemma_rebuild_keys_push(c0b, c.history, kv);
    assert(c.rebuild_step(kv) == c2);
}

/// Typing recorded key values again never reads the buffer: started with
/// another buffer, it ends the same but for that buffer.
pub proof fn lemma_rebuild_keys_buffer(c: ContextView, h: Seq<KeyValue>, b: Seq<char>)
    ensures
        (ContextView { buffer: b, ..c }).rebuild_keys(h) == (ContextView {
            buffer: b,
            ..c.rebuild_keys(h)
        }),
    decreases h.len(),
{
    if h.len() > 0 {
        let cb = ContextView { buffer: b, ..c };
        assert(cb.rebuild_step(h[0]) == ContextView { buffer: b, ..c.rebuild_step(h[0]) }) by {
            lemma_rebuild_step_buffer(c, h[0], b);
        }
        lemma_rebuild_keys_buffer(c.rebuild_step(h[0]), h.drop_first(), b);
    }
}

/// Completing a syllable never reads the buffer.
proof fn lemma_commit_syllable_buffer(c: ContextView, b: Seq<char>)
    ensures
        (ContextView { buffer: b, ..c }).commit_syllable() == (ContextView {
            buffer: b,
            ..c.commit_syllable()
        }),
{
}

/// Committing everything composed never reads the buffer.
proof fn lemma_flush_to_commit_buffer(c: ContextView, b: Seq<char>)
    ensures
        (ContextView { buffer: b, ..c }).flush_to_commit() == (ContextView {
            buffer: b,
            ..c.flush_to_commit()
        }),
{
    lemma_commit_syllable_buffer(c, b);
}

/// The rules of transliteration never read the buffer.
proof fn lemma_translit_rules_buffer(c: ContextView, kv: KeyValue, b: Seq<char>)
    ensures
        (ContextView { buffer: b, ..c }).translit_rules(kv).0 == (ContextView {
            buffer: b,
            ..c.translit_rules(kv).0
        }),
        (ContextView { buffer: b, ..c }).translit_rules(kv).1 == c.translit_rules(kv).1,
{
    let opts = c.options;
    lemma_commit_syllable_buffer(c.with_state(c.state.key_step(filler_vowel(), opts).0), b);
}

/// Typing a recorded key value again never reads the buffer.
#[verifier::spinoff_prover]
#[verifier::rlimit(60)]
proof fn lemma_rebuild_step_buffer(c: ContextView, kv: KeyValue, b: Seq<char>)
    ensures
        (ContextView { buffer: b, ..c }).rebuild_step(kv) == (ContextView {
            buffer: b,
            ..c.rebuild_step(kv)
        }),
{
    let cb = ContextView { buffer: b, ..c };
    lemma_translit_rules_buffer(c, kv, b);
    let (c1, kv1) = if c.translit() {
        c.translit_rules(kv)
    } else {
        (c, kv)
    };
    let (cb1, kvb1) = if cb.translit() {
        cb.translit_rules(kv)
    } else {
        (cb, kv)
    };
    assert(cb1 == ContextView { buffer: b, ..c1 });
    assert(kvb1 == kv1);
    lemma_flush_to_commit_buffer(c1, b);
    lemma_commit_syllable_buffer(c1.with_state(c1.state.key_step(kv1, c1.options).0), b);
}

/// An option reads back as it was set, and setting it leaves the other
/// options as they were.
pub proof fn lemma_option_roundtrip(c: ContextView, opt: InputOption, other: InputOption, value: bool)
    ensures
        option_value(c.set_option(opt, value).options, opt) == value,
        other != opt ==> option_value(c.set_option(opt, value).options, other) == option_value(
            c.options,
            other,
        ),
{
}

/// The keystrokes `keys` typed in turn into `c`: the context after them, and
/// the text that each of them committed, in order.
pub open spec fn typed(c: ContextView, keys: Seq<char>) -> (ContextView, Seq<char>)
    decreases keys.len(),
{
    if keys.len() == 0 {
        (c, Seq::empty())
    } else {
        let (c1, out) = typed(c, keys.drop_last());
        let c2 = c1.process(keys.last());
        (c2, out + c2.commit)
    }
}

/// The text that typing `input` into `c` and then flushing gives, and the
/// context after.
pub open spec fn converted(c: ContextView, input: Seq<char>) -> (ContextView, Seq<char>) {
    let (c1, out) = typed(c, input);
    let (c2, rest) = c1.flush();
    (c2, out + rest)
}

/// An input context: a keyboard layout, options, and what has been typed.
pub struct InputContext {
    state: CharacterState,
    layout: KeyboardLayout,
    layout_id: String,
    options: InputOptions,
    output_mode: OutputMode,
    commit: String,
    buffer: Vec<char>,
    pending: Vec<char>,
    history: Vec<KeyValue>,
}

impl View for InputContext {
    type V = ContextView;

    closed spec fn view(&self) -> ContextView {
        ContextView {
            state: self.state@,
            layout: self.layout@,
            id: self.layout_id@,
            options: self.options,
            mode: self.output_mode,
            commit: self.commit@,
            buffer: self.buffer@,
            pending: self.pending@,
            history: self.history@,
        }
    }
}

/// Appends the characters of `s` to `v`.
fn push_all(v: &mut Vec<char>, s: &Vec<char>)
    ensures
        final(v)@ == old(v)@ + s@,
{
    let ghost v0 = v@;
    let mut i: usize = 0;
    while i < s.len()
        invariant
            i <= s@.len(),
            v@ == v0 + s@.take(i as int),
        decreases s@.len() - i,
    {
        v.push(s[i]);
        i = i + 1;
        assert(v@ =~= v0 + s@.take(i as int));
    }
    assert(s@.take(s@.len() as int) =~= s@);
}

/// The string of the first `k` characters of `v`.
fn prefix_string(v: &Vec<char>, k: usize) -> (s: String)
    requires
        k <= v@.len(),
    ensures
        s@ == v@.take(k as int),
{
    let mut s = String::new();
    let mut i: usize = 0;
    while i < k
        invariant
            k <= v@.len(),
            i <= k,
            s@ == v@.take(i as int),
        decreases k - i,
    {
        crate::text::string_push(&mut s, v[i]);
        i = i + 1;
        assert(s@ =~= v@.take(i as int));
    }
    s
}

/// The characters of `v` from the `k`th on.
fn skip_chars(v: &Vec<char>, k: usize) -> (r: Vec<char>)
    requires
        k <= v@.len(),
    ensures
        r@ == v@.skip(k as int),
{
    let mut r: Vec<char> = Vec::new();
    let mut i: usize = k;
    while i < v.len()
        invariant
            k <= i <= v@.len(),
            r@ == v@.subrange(k as int, i as int),
        decreases v@.len() - i,
    {
        r.push(v[i]);
        i = i + 1;
        assert(r@ =~= v@.subrange(k as int, i as int));
    }
    assert(r@ =~= v@.skip(k as int));
    r
}

/// `p` occurs somewhere in `s`.
fn vec_contains(s: &Vec<char>, p: &Vec<char>) -> (r: bool)
    ensures
        r == contains(s@, p@),
{
    if p.len() == 0 {
        assert(s@.subrange(0int, 0int + p@.len()) =~= p@);
        return true;
    }
    if p.len() > s.len() {
        return false;
    }
    let last = s.len() - p.len();
    let mut i: usize = 0;
    while i < last + 1
        invariant
            p@.len() > 0,
            last + p@.len() == s@.len(),
            s@.len() == s.len(),
            forall|k: int| 0 <= k < i ==> #[trigger] s@.subrange(k, k + p@.len()) != p@,
        decreases last + 1 - i,
    {
        let mut j: usize = 0;
        let mut same = true;
        while j < p.len()
            invariant
                p@.len() > 0,
                i <= last,
                last + p@.len() == s@.len(),
                s@.len() == s.len(),
                j <= p@.len(),
                same == (forall|q: int| 0 <= q < j ==> s@[i + q] == p@[q]),
            decreases p@.len() - j,
        {
            if s[i + j] != p[j] {
                same = false;
            }
            j = j + 1;
        }
        if same {
            assert(s@.subrange(i as int, i + p@.len()) =~= p@);
            return true;
        }
        assert(s@.subrange(i as int, i + p@.len()) != p@) by {
            let q = choose|q: int| 0 <= q < p@.len() && s@[i + q] != p@[q];
            assert(s@.subrange(i as int, i + p@.len())[q] != p@[q]);
        }
        i = i + 1;
    }
    assert(!contains(s@, p@)) by {
        if contains(s@, p@) {
            let k = choose|k: int| 0 <= k && k + p@.len() <= s@.len() && #[trigger] s@.subrange(k, k + p@.len()) == p@;
            assert(s@.subrange(k, k + p@.len()) != p@);
        }
    }
    false
}

/// `s` with every occurrence of the non-empty `p` replaced by `r`.
fn vec_replace_all(s: &Vec<char>, p: &Vec<char>, r: &Vec<char>) -> (out: Vec<char>)
    requires
        p@.len() > 0,
    ensures
        out@ == replace_all(s@, p@, r@),
{
    let mut out: Vec<char> = Vec::new();
    let mut i: usize = 0;
    assert(s@.skip(0) =~= s@);
    while i < s.len()
        invariant
            p@.len() > 0,
            i <= s@.len(),
            out@ + replace_all(s@.skip(i as int), p@, r@) == replace_all(s@, p@, r@),
        decreases s@.len() - i,
    {
        let ghost rest = s@.skip(i as int);
        if s.len() - i < p.len() {
            assert(replace_all(rest, p@, r@) == rest);
            push_all(&mut out, &skip_chars(s, i));
            assert(out@ == replace_all(s@, p@, r@));
            return out;
        }
        let mut j: usize = 0;
        let mut same = true;
        while j < p.len()
            invariant
                i + p@.len() <= s@.len(),
                s@.len() == s.len(),
                j <= p@.len(),
                same == (forall|q: int| 0 <= q < j ==> s@[i + q] == p@[q]),
            decreases p@.len() - j,
        {
            if s[i + j] != p[j] {
                same = false;
            }
            j = j + 1;
        }
        if same {
            assert(rest.take(p@.len() as int) =~= p@);
            assert(rest.skip(p@.len() as int) =~= s@.skip(i + p@.len()));
            push_all(&mut out, r);
            assert(out@ + replace_all(s@.skip(i + p@.len()), p@, r@) =~= replace_all(s@, p@, r@));
            i = i + p.len();
        } else {
            assert(rest.take(p@.len() as int) != p@) by {
                let q = choose|q: int| 0 <= q < p@.len() && s@[i + q] != p@[q];
                assert(rest.take(p@.len() as int)[q] != p@[q]);
            }
            assert(rest.drop_first() =~= s@.skip(i + 1));
            out.push(s[i]);
            assert(out@ + replace_all(s@.skip(i + 1), p@, r@) =~= replace_all(s@, p@, r@));
            i = i + 1;
        }
    }
    assert(s@.skip(i as int) =~= Seq::<char>::empty());
    assert(out@ =~= replace_all(s@, p@, r@));
    out
}

/// `o` with the option `opt` set to `value`.
fn options_with(o: InputOptions, opt: InputOption, value: bool) -> (r: InputOptions)
    ensures
        r == with_option(o, opt, value),
{
    let mut r = o;
    match opt {
        InputOption::AutoReorder => r.auto_reorder = value,
        InputOption::CombiOnDoubleStroke => r.combi_on_double_stroke = value,
        InputOption::NonInitialCombi => r.non_initial_combi = value,
        InputOption::OldJamo => r.old_jamo = value,
        InputOption::NobleName => r.noble_name = value,
        InputOption::WordUnitCommit => r.word_unit_commit = value,
    }
    r
}

/// A copy of the key values `h`.
fn copy_keys(h: &[KeyValue]) -> (r: Vec<KeyValue>)
    ensures
        r@ == h@,
{
    let mut r: Vec<KeyValue> = Vec::new();
    let mut i: usize = 0;
    while i < h.len()
        invariant
            i <= h@.len(),
            r@ == h@.take(i as int),
        decreases h@.len() - i,
    {
        r.push(h[i]);
        i = i + 1;
        assert(r@ =~= h@.take(i as int));
    }
    assert(h@.take(h@.len() as int) =~= h@);
    r
}

/// The characters of the `n`th name.
fn noble_name_vec(n: usize) -> (r: Vec<char>)
    ensures
        r@ == noble_name_chars(n as int),
{
    let mut r: Vec<char> = Vec::new();
    r.push('\u{AE40}');
    if n == 0 {
        r.push('\u{C77C}');
        r.push('\u{C131}');
    } else if n == 1 {
        r.push('\u{C815}');
        r.push('\u{C77C}');
    } else {
        r.push('\u{C815}');
        r.push('\u{C740}');
    }
    assert(r@ =~= noble_name_chars(n as int));
    r
}

/// The characters that stand for the `n`th name.
fn noble_mark_vec(n: usize) -> (r: Vec<char>)
    ensures
        r@ == noble_name_mark(n as int),
{
    let mut r: Vec<char> = Vec::new();
    if n == 0 {
        r.push('\u{F113}');
        r.push('\u{F114}');
        r.push('\u{F115}');
    } else if n == 1 {
        r.push('\u{F116}');
        r.push('\u{F117}');
        r.push('\u{F118}');
    } else {
        r.push('\u{F120}');
        r.push('\u{F121}');
        r.push('\u{F122}');
    }
    assert(r@ =~= noble_name_mark(n as int));
    r
}

/// `s` ends with `p`.
fn vec_ends_with(s: &Vec<char>, p: &Vec<char>) -> (r: bool)
    ensures
        r == ends_with(s@, p@),
{
    if p.len() > s.len() {
        return false;
    }
    let off = s.len() - p.len();
    let mut i: usize = 0;
    while i < p.len()
        invariant
            off + p@.len() == s@.len(),
            s@.len() == s.len(),
            i <= p@.len(),
            forall|j: int| 0 <= j < i ==> s@[off + j] == p@[j],
        decreases p@.len() - i,
    {
        if s[off + i] != p[i] {
            assert(s@.subrange(off as int, s@.len() as int)[i as int] != p@[i as int]);
            return false;
        }
        i = i + 1;
    }
    assert(s@.subrange(off as int, s@.len() as int) =~= p@);
    true
}

impl InputContext {
    /// The layout transliterates.
    pub fn is_transliteration(&self) -> (r: bool)
        ensures
            r == self@.translit(),
    {
        self.layout.has_multi_char_keys()
    }

    /// Applies the rules of transliteration before `kv` is typed, and gives the
    /// key value to type.
    fn translit_rules(&mut self, kv: KeyValue) -> (r: KeyValue)
        ensures
            (final(self)@, r) == old(self)@.translit_rules(kv),
    {
        let opts = self.options;
        let is_cons = match kv {
            KeyValue::Choseong { .. } | KeyValue::Both { .. } | KeyValue::Jongseong { .. } => true,
            _ => false,
        };
        if is_cons && self.state.has_initial() && !self.state.has_medial() {
            let _ = self.state.key(KeyValue::Jungseong { jungseong: Jungseong::Eu, compose: true }, opts);
            self.commit_syllable();
        }
        let blank = !self.state.has_initial() && !self.state.has_medial() && !self.state.has_final();
        if let KeyValue::Jungseong { .. } = kv {
            if blank {
                let _ = self.state.key(KeyValue::Choseong { choseong: Choseong::Ieung }, opts);
            }
        }
        if let KeyValue::Jongseong { jongseong } = kv {
            if blank {
                if let JongseongToChoseong::Direct(c) = jongseong.to_initial() {
                    return KeyValue::Choseong { choseong: c };
                }
            }
        }
        kv
    }

    /// The syllable that began with a vowel, begun again with the silent
    /// initial ㅇ.
    fn restart_with_silent_initial(next: &CharacterState, opts: InputOptions) -> (r: CharacterState)
        ensures
            r@ == with_silent_initial(next@, opts),
    {
        let mut s = CharacterState::new();
        let _ = s.key(KeyValue::Choseong { choseong: Choseong::Ieung }, opts);
        let ghost start = s@;
        let h = next.history();
        let n = h.len();
        let mut i: usize = 0;
        while i < n
            invariant
                n == h@.len(),
                h@ == next@.history,
                i <= n,
                start == StateView::empty().key_step(silent_initial(), opts).0,
                s@ == replay_onto(start, h@.take(i as int), opts),
            decreases n - i,
        {
            let _ = s.key(h[i], opts);
            assert(h@.take(i + 1).drop_last() =~= h@.take(i as int));
            i = i + 1;
        }
        assert(h@.take(n as int) =~= h@);
        s
    }

    /// Types the recorded key value `kv` again.
    #[verifier::spinoff_prover]
    #[verifier::rlimit(50)]
    fn rebuild_step(&mut self, kv: KeyValue)
        ensures
            final(self)@ == old(self)@.rebuild_step(kv),
    {
        let translit = self.is_transliteration();
        let kv = if translit {
            self.translit_rules(kv)
        } else {
            kv
        };
        if let KeyValue::Pass(ch) = kv {
            self.flush_to_commit();
            if ch != '\u{1F135}' {
                crate::text::string_push(&mut self.commit, ch);
            }
            return;
        }
        let opts = self.options;
        match self.state.key(kv, opts) {
            CharacterResult::Consume => {
                self.history.push(kv);
            },
            CharacterResult::NewCharacter(next) => {
                let next = if translit && !next.has_initial() && next.has_medial() {
                    Self::restart_with_silent_initial(&next, opts)
                } else {
                    next
                };
                self.commit_syllable();
                if self.history.len() == 0 {
                    self.history = copy_keys(next.history());
                } else {
                    self.history.push(kv);
                }
                self.state = next;
            },
        }
    }

    /// Makes the syllable and the pending syllables again from the recorded key
    /// values.
    fn rebuild(&mut self)
        ensures
            final(self)@ == old(self)@.rebuild(),
    {
        let ghost target = self@.rebuild();
        let mut keys: Vec<KeyValue> = Vec::new();
        std::mem::swap(&mut keys, &mut self.history);
        self.state.reset();
        self.pending.clear();
        let n = keys.len();
        let mut i: usize = 0;
        assert(keys@.skip(0) =~= keys@);
        while i < n
            invariant
                n == keys@.len(),
                i <= n,
                self@.rebuild_keys(keys@.skip(i as int)) == target,
            decreases n - i,
        {
            assert(keys@.skip(i as int)[0] == keys@[i as int]);
            assert(keys@.skip(i as int).drop_first() =~= keys@.skip(i + 1));
            self.rebuild_step(keys[i]);
            i = i + 1;
        }
    }

    /// The longest start of the buffer that the layout has a key value for.
    fn longest_match(&self, translit: bool) -> (r: Option<(usize, KeyValue)>)
        requires
            translit == self@.translit(),
        ensures
            match r {
                Some((n, v)) => longest_match(self@.layout, self@.buffer, translit, self@.buffer.len())
                    == Some((n as nat, v)),
                None => longest_match(self@.layout, self@.buffer, translit, self@.buffer.len()) is None,
            },
    {
        let mut k: usize = self.buffer.len();
        while k > 0
            invariant
                k <= self@.buffer.len(),
                longest_match(self@.layout, self@.buffer, translit, self@.buffer.len())
                    == longest_match(self@.layout, self@.buffer, translit, k as nat),
            decreases k,
        {
            let sub = prefix_string(&self.buffer, k);
            if let Some(v) = self.layout.lookup(sub.as_str(), translit) {
                return Some((k, v));
            }
            k = k - 1;
        }
        None
    }

    /// Takes the buffered keystrokes as far as they can be taken.
    fn process_buffer(&mut self, force: bool)
        ensures
            final(self)@ == old(self)@.process_buffer(force),
    {
        let ghost target = self@.process_buffer(force);
        let mut waiting = false;
        while !waiting && self.buffer.len() > 0
            invariant
                waiting ==> self@ == target,
                !waiting ==> self@.process_buffer(force) == target,
            decreases self@.buffer.len() * 2 + (if waiting { 0int } else { 1int }),
        {
            let translit = self.is_transliteration();
            let whole = string_of(&self.buffer);
            if !force && self.layout.is_prefix(whole.as_str(), translit) {
                assert(self@.waits(force));
                waiting = true;
            } else {
                match self.longest_match(translit) {
                    Some((n, kv)) => {
                        proof {
                            lemma_longest_match_len(self@.layout, self@.buffer, translit, self@.buffer.len());
                            lemma_add_key_frame(self@, kv);
                        }
                        self.add_key(kv);
                        self.buffer = skip_chars(&self.buffer, n);
                    },
                    None => {
                        let first = self.buffer[0];
                        proof {
                            lemma_flush_to_commit_frame(self@);
                        }
                        self.flush_to_commit();
                        crate::text::string_push(&mut self.commit, first);
                        self.buffer = skip_chars(&self.buffer, 1);
                    },
                }
            }
        }
    }

    /// Types the keystroke `key`. The text it commits, if any, is then the
    /// committed text; the call always succeeds.
    pub fn process(&mut self, key: char) -> (r: bool)
        ensures
            r,
            final(self)@ == old(self)@.process(key),
    {
        self.commit = String::new();
        if self.is_transliteration() && 'A' <= key && key <= 'Z' {
            self.process_buffer(true);
            self.flush_to_commit();
        }
        self.buffer.push(key);
        self.process_buffer(false);
        true
    }

    /// Records the key value `kv` and makes what is composed again.
    fn add_key(&mut self, kv: KeyValue)
        ensures
            final(self)@ == old(self)@.add_key(kv),
    {
        self.history.push(kv);
        self.rebuild();
    }

    /// The pending syllables go to the committed text.
    fn flush_pending(&mut self)
        ensures
            final(self)@ == old(self)@.flush_pending(),
    {
        self.commit.append(string_of(&self.pending).as_str());
        self.pending.clear();
        self.history.clear();
    }

    /// The pending syllables end with the `n`th name: it is committed as its
    /// dedicated characters.
    fn commit_noble_name(&mut self, n: usize)
        requires
            old(self)@.pending.len() >= 3,
        ensures
            final(self)@ == old(self)@.commit_noble_name(n as int),
    {
        let len = self.pending.len() - 3;
        self.pending.truncate(len);
        self.flush_pending();
        self.commit.append(string_of(&noble_mark_vec(n)).as_str());
    }

    /// Completes the syllable being composed.
    fn commit_syllable(&mut self)
        ensures
            final(self)@ == old(self)@.commit_syllable(),
    {
        let mut s = String::new();
        self.state.commit(&mut s);
        let syl = chars_of(s.as_str());
        if syl.len() == 0 {
            return;
        }
        if !self.options.noble_name && !self.options.word_unit_commit {
            self.commit.append(s.as_str());
            self.history.clear();
            return;
        }
        push_all(&mut self.pending, &syl);
        if self.options.word_unit_commit {
            return;
        }
        if vec_ends_with(&self.pending, &noble_name_vec(0)) {
            self.commit_noble_name(0);
        } else if vec_ends_with(&self.pending, &noble_name_vec(1)) {
            self.commit_noble_name(1);
        } else if vec_ends_with(&self.pending, &noble_name_vec(2)) {
            self.commit_noble_name(2);
        } else {
            let p = &self.pending;
            let waits = (p.len() == 1 && p[0] == '\u{AE40}') || (p.len() == 2 && p[0] == '\u{AE40}'
                && (p[1] == '\u{C77C}' || p[1] == '\u{C815}'));
            assert(waits == (p@ == seq!['\u{AE40}'] || p@ == seq!['\u{AE40}', '\u{C77C}'] || p@
                == seq!['\u{AE40}', '\u{C815}'])) by {
                if p@.len() == 1 && p@[0] == '\u{AE40}' {
                    assert(p@ =~= seq!['\u{AE40}']);
                }
                if p@.len() == 2 && p@[0] == '\u{AE40}' && p@[1] == '\u{C77C}' {
                    assert(p@ =~= seq!['\u{AE40}', '\u{C77C}']);
                }
                if p@.len() == 2 && p@[0] == '\u{AE40}' && p@[1] == '\u{C815}' {
                    assert(p@ =~= seq!['\u{AE40}', '\u{C815}']);
                }
            }
            if !waits {
                self.flush_pending();
            }
        }
    }

    /// Everything composed goes to the committed text.
    fn flush_to_commit(&mut self)
        ensures
            final(self)@ == old(self)@.flush_to_commit(),
    {
        match self.output_mode {
            OutputMode::Syllable => {
                self.commit_syllable();
                self.flush_pending();
            },
            OutputMode::Jamo => {
                let mut s = String::new();
                self.state.jamo(&mut s);
                self.commit.append(s.as_str());
                self.state.reset();
                self.pending.clear();
            },
        }
    }
}

impl InputContext {
    /// A context on the keyboard layout `layout`, named `id`, with the options
    /// that the layout calls for, the syllable output mode and nothing typed.
    pub fn new(id: &str, layout: KeyboardLayout) -> (r: InputContext)
        ensures
            r@.state == StateView::empty(),
            r@.layout == layout@,
            r@.id == id@,
            r@.options == initial_options(layout@),
            r@.mode == OutputMode::Syllable,
            r@.commit == Seq::<char>::empty(),
            r@.buffer == Seq::<char>::empty(),
            r@.pending == Seq::<char>::empty(),
            r@.history == Seq::<KeyValue>::empty(),
    {
        let mut options = InputOptions::default();
        if layout.has_multi_char_keys() {
            options.treat_final_as_initial = true;
            options.auto_reorder = false;
            options.non_initial_combi = false;
            options.medial_combi = false;
        } else {
            options.non_initial_combi = true;
        }
        if layout.has_old_jamo() {
            options.old_jamo = true;
        }
        InputContext {
            state: CharacterState::new(),
            layout,
            layout_id: String::from_str(id),
            options,
            output_mode: OutputMode::Syllable,
            commit: String::new(),
            buffer: Vec::new(),
            pending: Vec::new(),
            history: Vec::new(),
        }
    }

    /// Sets the option `opt` to `value`. Turning the names of the leaders off
    /// commits the syllables that wait for them.
    pub fn set_option(&mut self, opt: InputOption, value: bool)
        ensures
            final(self)@ == old(self)@.set_option(opt, value),
    {
        let noble_off = match opt {
            InputOption::NobleName => self.options.noble_name && !value,
            _ => false,
        };
        if noble_off {
            self.flush_pending();
        }
        self.options = options_with(self.options, opt, value);
    }

    /// The value of the option `opt`.
    pub fn get_option(&self, opt: InputOption) -> (r: bool)
        ensures
            r == option_value(self@.options, opt),
    {
        match opt {
            InputOption::AutoReorder => self.options.auto_reorder,
            InputOption::CombiOnDoubleStroke => self.options.combi_on_double_stroke,
            InputOption::NonInitialCombi => self.options.non_initial_combi,
            InputOption::OldJamo => self.options.old_jamo,
            InputOption::NobleName => self.options.noble_name,
            InputOption::WordUnitCommit => self.options.word_unit_commit,
        }
    }

    /// Sets how syllables are shown and committed.
    pub fn set_output_mode(&mut self, mode: OutputMode)
        ensures
            final(self)@ == (ContextView { mode, ..old(self)@ }),
    {
        self.output_mode = mode;
    }

    /// Takes back the last keystroke, buffered or recorded.
    pub fn backspace(&mut self) -> (r: InputEvent)
        ensures
            (final(self)@, r@) == old(self)@.backspace(),
    {
        self.commit = String::new();
        if self.buffer.len() > 0 {
            self.buffer.pop();
            return InputEvent::Preedit(self.preedit_string());
        }
        if self.history.len() == 0 {
            return InputEvent::Nothing;
        }
        self.history.pop();
        self.rebuild();
        InputEvent::Preedit(self.preedit_string())
    }

    /// Commits everything typed, whatever might follow, and hands that text
    /// out.
    pub fn flush(&mut self) -> (r: String)
        ensures
            (final(self)@, r@) == old(self)@.flush(),
    {
        self.commit = String::new();
        self.process_buffer(true);
        self.flush_to_commit();
        let mut out = String::new();
        std::mem::swap(&mut out, &mut self.commit);
        out
    }

    /// Empties the syllable, the buffer, the committed text and the recorded key
    /// values.
    pub fn reset(&mut self)
        ensures
            final(self)@ == old(self)@.reset(),
    {
        self.state.reset();
        self.buffer.clear();
        self.commit = String::new();
        self.history.clear();
    }

    /// Nothing is composed and nothing pends.
    pub fn is_empty(&self) -> (r: bool)
        ensures
            r == self@.is_empty(),
    {
        !self.state.need_display() && self.pending.len() == 0
    }

    /// The syllable being composed has an initial consonant.
    pub fn has_initial(&self) -> (r: bool)
        ensures
            r == self@.state.choseong is Some,
    {
        self.state.has_initial()
    }

    /// The syllable being composed has a vowel.
    pub fn has_medial(&self) -> (r: bool)
        ensures
            r == self@.state.jungseong is Some,
    {
        self.state.has_medial()
    }

    /// The syllable being composed has a final consonant.
    pub fn has_final(&self) -> (r: bool)
        ensures
            r == self@.state.jongseong is Some,
    {
        self.state.has_final()
    }

    /// The name of the keyboard layout.
    pub fn keyboard_id(&self) -> (r: &str)
        ensures
            r@ == self@.id,
    {
        self.layout_id.as_str()
    }

    /// The text committed by the last call.
    pub fn get_commit_string(&self) -> (r: &str)
        ensures
            r@ == self@.commit,
    {
        self.commit.as_str()
    }

    /// Forgets the committed text.
    pub fn clear_commit_string(&mut self)
        ensures
            final(self)@ == (ContextView { commit: Seq::empty(), ..old(self)@ }),
    {
        self.commit = String::new();
    }

    /// What shows the syllable being composed, in the output mode.
    fn show(&self, s: &CharacterState, out: &mut String)
        ensures
            final(out)@ == old(out)@ + show(s@, self@.mode),
    {
        match self.output_mode {
            OutputMode::Syllable => s.preedit(out),
            OutputMode::Jamo => s.jamo(out),
        }
    }

    /// What shows the syllable being composed and the buffered keystrokes.
    fn composing_text(&self) -> (r: Vec<char>)
        ensures
            r@ == self@.composing_text(),
    {
        let opts = self.options;
        let mut out = String::new();
        self.show(&self.state, &mut out);
        if self.buffer.len() == 0 {
            return chars_of(out.as_str());
        }
        let translit = self.is_transliteration();
        let whole = string_of(&self.buffer);
        match self.layout.lookup(whole.as_str(), translit) {
            None => {
                out.append(whole.as_str());
                chars_of(out.as_str())
            },
            Some(kv0) => {
                let mut temp = self.state.snapshot();
                let tr = translit && !temp.has_initial() && !temp.has_medial() && !temp.has_final();
                let mut kv = kv0;
                if tr {
                    if let KeyValue::Jungseong { .. } = kv0 {
                        let _ = temp.key(KeyValue::Choseong { choseong: Choseong::Ieung }, opts);
                    } else if let KeyValue::Jongseong { jongseong } = kv0 {
                        if let JongseongToChoseong::Direct(c) = jongseong.to_initial() {
                            kv = KeyValue::Choseong { choseong: c };
                        }
                    }
                }
                let mut out = String::new();
                match temp.key(kv, opts) {
                    CharacterResult::Consume => {
                        self.show(&temp, &mut out);
                    },
                    CharacterResult::NewCharacter(next) => {
                        let next = if translit && !next.has_initial() && next.has_medial() {
                            Self::restart_with_silent_initial(&next, opts)
                        } else {
                            next
                        };
                        self.show(&temp, &mut out);
                        self.show(&next, &mut out);
                    },
                }
                chars_of(out.as_str())
            },
        }
    }

    /// The preedit text: the pending syllables and what is being composed, with
    /// the names of the leaders replaced where they are watched for.
    pub fn preedit_string(&self) -> (r: String)
        ensures
            r@ == self@.preedit_text(),
    {
        let mut combined: Vec<char> = Vec::new();
        push_all(&mut combined, &self.pending);
        push_all(&mut combined, &self.composing_text());
        if self.options.noble_name {
            let mut n: usize = 0;
            while n < 3
                invariant
                    self@.options.noble_name,
                    combined@ == self@.pending + self@.composing_text(),
                    n <= 3,
                    forall|m: int| 0 <= m < n ==> !contains(combined@, #[trigger] noble_name_chars(m)),
                decreases 3 - n,
            {
                let name = noble_name_vec(n);
                if vec_contains(&combined, &name) {
                    let r = vec_replace_all(&combined, &name, &noble_mark_vec(n));
                    assert(n == 0 || !contains(combined@, noble_name_chars(0)));
                    assert(n <= 1 || !contains(combined@, noble_name_chars(1)));
                    return string_of(&r);
                }
                n = n + 1;
            }
            assert(!contains(combined@, noble_name_chars(0)));
            assert(!contains(combined@, noble_name_chars(1)));
            assert(!contains(combined@, noble_name_chars(2)));
        }
        string_of(&combined)
    }
}

/// Types the text `input` into the context, one character after the other,
/// and gives all the text committed, what is still composed at the end
/// included.
#[verifier::spinoff_prover]
pub fn process_string(ic: &mut InputContext, input: &str) -> (r: String)
    ensures
        (final(ic)@, r@) == converted(old(ic)@, input@),
{
    let keys = chars_of(input);
    let ghost start = ic@;
    let mut output = String::new();
    let mut i: usize = 0;
    assert(keys@.take(0) =~= Seq::<char>::empty());
    while i < keys.len()
        invariant
            i <= keys@.len(),
            keys@ == input@,
            ic@ == typed(start, keys@.take(i as int)).0,
            output@ == typed(start, keys@.take(i as int)).1,
        decreases keys@.len() - i,
    {
        let ch = keys[i];
        assert(keys@.take(i + 1).drop_last() =~= keys@.take(i as int));
        if ic.process(ch) {
            let commit = ic.get_commit_string();
            output.append(commit);
        } else {
            let flushed = ic.flush();
            output.append(flushed.as_str());
            crate::text::string_push(&mut output, ch);
        }
        i = i + 1;
    }
    assert(keys@.take(keys@.len() as int) =~= keys@);
    let remaining = ic.flush();
    output.append(remaining.as_str());
    output
}

} // verus!
