# korean

A Hangul input method library, verified with Verus.

`src/` is the library, every function of it verified:

- `engine::jamo`, `engine::compose` — the conjoining jamo, their archaic
  forms, how they combine into clusters, and the composition and
  decomposition of precomposed syllables; key values and their notation.
- `engine::state` — the syllable being composed and what each keystroke does
  to it.
- `engine::layout` — keyboard layouts read from `key: value` lines.
- `input_context` — keystrokes in, committed text and preedit text out;
  transliteration, the names of the leaders, commit by word.
- `hanja` — the hanja dictionary, indexed by an `fst::Map`.
- `keyboard` — the registry of layouts and the names they show.
- `char_utils`, `ffi`, `text` and the crate root — code point classification
  and conversion, and tokenizing text into jamo.

`app/` holds what reaches outside: reading layouts and the dictionary from
files, the installed-layout registry, the C interface and the command-line
tools. `tests/` holds the tests.
