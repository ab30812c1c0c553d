//! Word-by-word spelling correction over a SymSpell dictionary. Short
//! words, numbers and punctuation pass through; otherwise the word's
//! surrounding punctuation is kept, its core is looked up in lower case,
//! and a different suggestion replaces it in the core's letter case.
use crate::transcript::{char_to_uppercase, chars_of, copy_range, is_white, is_whitespace, string_of, uppercase_of};
use symspell::{SymSpell, UnicodeStringStrategy, Verbosity};
use vstd::prelude::*;

verus! {

/// A SymSpell dictionary of word frequencies. Verus refuses a declaration
/// of `SymSpell` (its parameter is bound by symspell's own trait), so the
/// dictionary is held here, out of Verus's sight, and reached only through
/// the functions below.
#[verifier::external_body]
pub struct Dictionary {
    symspell: SymSpell<UnicodeStringStrategy>,
}

/// Relies on symspell's `SymSpell::default`: an empty dictionary whose
/// maximum edit distance is 2.
#[verifier::external_body]
fn empty_dictionary() -> Dictionary {
    Dictionary { symspell: SymSpell::default() }
}

/// Relies on symspell's `SymSpell::load_dictionary_line`: adds the entry of
/// one `word count` line, if the line holds one.
#[verifier::external_body]
fn add_dictionary_line(d: &mut Dictionary, line: &str) {
    d.symspell.load_dictionary_line(line, 0, 1, " ");
}

/// Relies on symspell's `SymSpell::lookup` with `Verbosity::Closest` and
/// edit distance 2 (never above the dictionary's maximum, which is 2 for
/// every dictionary built here): the term of its first suggestion. What it
/// finds depends on the dictionary's contents, so nothing is promised.
#[verifier::external_body]
fn closest_term(d: &Dictionary, word: &str) -> Option<String> {
    d.symspell.lookup(word, Verbosity::Closest, 2).into_iter().next().map(|s| s.term)
}

/// `char::is_ascii_punctuation`, by its definition.
pub open spec fn is_punct(c: char) -> bool {
    let u = c as u32;
    (0x21 <= u <= 0x2f) || (0x3a <= u <= 0x40) || (0x5b <= u <= 0x60) || (0x7b <= u <= 0x7e)
}

/// `char::is_ascii_punctuation`.
pub fn is_ascii_punct(c: char) -> (r: bool)
    ensures
        r == is_punct(c),
{
    let u = c as u32;
    (0x21 <= u && u <= 0x2f) || (0x3a <= u && u <= 0x40) || (0x5b <= u && u <= 0x60) || (0x7b <= u
        && u <= 0x7e)
}

/// Number of leading punctuation characters of `s`.
pub open spec fn lead_punct(s: Seq<char>) -> int
    decreases s.len(),
{
    if s.len() > 0 && is_punct(s[0]) {
        1 + lead_punct(s.drop_first())
    } else {
        0
    }
}

/// Number of trailing punctuation characters of `s`.
pub open spec fn trail_punct(s: Seq<char>) -> int
    decreases s.len(),
{
    if s.len() > 0 && is_punct(s.last()) {
        1 + trail_punct(s.drop_last())
    } else {
        0
    }
}

/// (leading punctuation, core, trailing punctuation) of a word.
pub open spec fn split_punct(w: Seq<char>) -> (Seq<char>, Seq<char>, Seq<char>) {
    let a = lead_punct(w);
    let rest = w.skip(a);
    let b = rest.len() - trail_punct(rest);
    (w.take(a), rest.take(b), rest.skip(b))
}

proof fn lemma_lead_punct(s: Seq<char>, i: int)
    requires
        0 <= i <= s.len(),
        forall|j: int| 0 <= j < i ==> is_punct(#[trigger] s[j]),
    ensures
        lead_punct(s) == i + lead_punct(s.skip(i)),
    decreases i,
{
    if i > 0 {
        assert(s.drop_first().skip(i - 1) =~= s.skip(i));
        lemma_lead_punct(s.drop_first(), i - 1);
    } else {
        assert(s.skip(0) =~= s);
    }
}

proof fn lemma_trail_punct(s: Seq<char>, b: int)
    requires
        0 <= b <= s.len(),
        forall|j: int| b <= j < s.len() ==> is_punct(#[trigger] s[j]),
    ensures
        trail_punct(s) == (s.len() - b) + trail_punct(s.take(b)),
    decreases s.len() - b,
{
    if b < s.len() {
        assert(s.drop_last().take(b) =~= s.take(b));
        lemma_trail_punct(s.drop_last(), b);
    } else {
        assert(s.take(b) =~= s);
    }
}

/// Split a word into its leading punctuation, its core and its trailing
/// punctuation (ASCII punctuation only).
pub fn strip_punctuation(word: &str) -> (r: (String, String, String))
    ensures
        (r.0@, r.1@, r.2@) == split_punct(word@),
{
    let c = chars_of(word);
    let mut start: usize = 0;
    let mut end: usize = c.len();
    while start < end && is_ascii_punct(c[start])
        invariant
            start <= end == c@.len(),
            forall|j: int| 0 <= j < start ==> is_punct(#[trigger] c@[j]),
        decreases end - start,
    {
        start = start + 1;
    }
    proof {
        lemma_lead_punct(c@, start as int);
        if start < c@.len() {
            assert(c@.skip(start as int)[0] == c@[start as int]);
        }
    }
    let ghost a = start as int;
    let ghost rest = c@.skip(a);
    assert(lead_punct(c@) == a);
    while end > start && is_ascii_punct(c[end - 1])
        invariant
            start <= end <= c@.len(),
            forall|j: int| end <= j < c@.len() ==> is_punct(#[trigger] c@[j]),
        decreases end,
    {
        end = end - 1;
    }
    proof {
        let b = end - start;
        assert forall|j: int| b <= j < rest.len() implies is_punct(#[trigger] rest[j]) by {
            assert(rest[j] == c@[j + start]);
        }
        lemma_trail_punct(rest, b);
        if b > 0 {
            assert(rest.take(b).last() == c@[end - 1]);
        }
        assert(trail_punct(rest.take(b)) == 0);
    }
    let prefix = string_of(copy_range(&c, 0, start).as_slice());
    let core = string_of(copy_range(&c, start, end).as_slice());
    let suffix = string_of(copy_range(&c, end, c.len()).as_slice());
    proof {
        assert(c@.subrange(0, start as int) =~= c@.take(a));
        assert(c@.subrange(start as int, end as int) =~= rest.take(end - start));
        assert(c@.subrange(end as int, c@.len() as int) =~= rest.skip(end - start));
    }
    (prefix, core, suffix)
}

/// The characters of `str::to_uppercase` of `s`.
pub uninterp spec fn upper_text(s: Seq<char>) -> Seq<char>;

/// The characters of `str::to_lowercase` of `s`.
pub uninterp spec fn lower_text(s: Seq<char>) -> Seq<char>;

/// Whether `c` has the Unicode `Uppercase` property (`char::is_uppercase`).
pub uninterp spec fn uppercase_char(c: char) -> bool;

/// Whether `c` is numeric in Unicode's sense (`char::is_numeric`).
pub uninterp spec fn numeric_char(c: char) -> bool;

/// Relies on `str::to_uppercase`.
#[verifier::external_body]
fn text_to_uppercase(s: &str) -> (r: String)
    ensures
        r@ == upper_text(s@),
{
    s.to_uppercase()
}

/// Relies on `str::to_lowercase`.
#[verifier::external_body]
fn text_to_lowercase(s: &str) -> (r: String)
    ensures
        r@ == lower_text(s@),
{
    s.to_lowercase()
}

/// Relies on `char::is_uppercase`.
#[verifier::external_body]
fn char_is_uppercase(c: char) -> (r: bool)
    ensures
        r == uppercase_char(c),
{
    c.is_uppercase()
}

/// Relies on `char::is_numeric`.
#[verifier::external_body]
fn char_is_numeric(c: char) -> (r: bool)
    ensures
        r == numeric_char(c),
{
    c.is_numeric()
}

/// `s` with its first character replaced by the first character of its
/// upper-case form.
pub open spec fn title_cased(s: Seq<char>) -> Seq<char> {
    if s.len() == 0 {
        s
    } else {
        let u = uppercase_of(s[0]);
        s.update(0, if u.len() > 0 { u[0] } else { s[0] })
    }
}

/// `suggestion` in the letter case of `original`: all upper case when
/// every character of `original` is upper case, title case when its first
/// character is, lower case otherwise.
pub open spec fn cased_like(suggestion: Seq<char>, original: Seq<char>) -> Seq<char> {
    if forall|i: int| 0 <= i < original.len() ==> uppercase_char(#[trigger] original[i]) {
        upper_text(suggestion)
    } else if original.len() > 0 && uppercase_char(original[0]) {
        title_cased(suggestion)
    } else {
        lower_text(suggestion)
    }
}

/// Give `suggestion` the letter case of `original`.
pub fn match_case(suggestion: &str, original: &str) -> (r: String)
    ensures
        r@ == cased_like(suggestion@, original@),
{
    let o = chars_of(original);
    let mut all_upper = true;
    let mut i: usize = 0;
    while i < o.len()
        invariant
            i <= o@.len(),
            o@ == original@,
            all_upper == (forall|j: int| 0 <= j < i ==> uppercase_char(#[trigger] o@[j])),
        decreases o@.len() - i,
    {
        let u = char_is_uppercase(o[i]);
        all_upper = all_upper && u;
        i = i + 1;
    }
    if all_upper {
        text_to_uppercase(suggestion)
    } else if o.len() > 0 && char_is_uppercase(o[0]) {
        let mut s = chars_of(suggestion);
        if s.len() > 0 {
            let u = char_to_uppercase(s[0]);
            let first = if u.len() > 0 {
                u[0]
            } else {
                s[0]
            };
            s.set(0, first);
        }
        string_of(s.as_slice())
    } else {
        text_to_lowercase(suggestion)
    }
}

/// Words are split at white space; (words completed, word in progress)
/// after reading `s`.
pub open spec fn split_state(s: Seq<char>) -> (Seq<Seq<char>>, Seq<char>)
    decreases s.len(),
{
    if s.len() == 0 {
        (Seq::empty(), Seq::empty())
    } else {
        let prev = split_state(s.drop_last());
        let c = s.last();
        if is_white(c) {
            if prev.1.len() > 0 {
                (prev.0.push(prev.1), Seq::empty())
            } else {
                (prev.0, Seq::empty())
            }
        } else {
            (prev.0, prev.1.push(c))
        }
    }
}

/// The words of `s`: its maximal runs of characters that are not white
/// space (`str::split_whitespace`).
pub open spec fn words_of(s: Seq<char>) -> Seq<Seq<char>> {
    let st = split_state(s);
    if st.1.len() > 0 {
        st.0.push(st.1)
    } else {
        st.0
    }
}

/// The words of a text.
pub fn split_words(text: &str) -> (r: Vec<String>)
    ensures
        r.deep_view() == words_of(text@),
{
    let c = chars_of(text);
    let mut words: Vec<String> = Vec::new();
    let mut cur: Vec<char> = Vec::new();
    let mut i: usize = 0;
    while i < c.len()
        invariant
            i <= c@.len(),
            c@ == text@,
            (words.deep_view(), cur@) == split_state(c@.take(i as int)),
        decreases c@.len() - i,
    {
        let ch = c[i];
        proof {
            assert(c@.take(i + 1).drop_last() =~= c@.take(i as int));
        }
        if is_whitespace(ch) {
            if cur.len() > 0 {
                let w = string_of(cur.as_slice());
                let ghost before = words.deep_view();
                words.push(w);
                assert(words.deep_view() =~= before.push(cur@));
            }
            cur = Vec::new();
        } else {
            cur.push(ch);
        }
        i = i + 1;
    }
    assert(c@.take(c@.len() as int) =~= c@);
    if cur.len() > 0 {
        let w = string_of(cur.as_slice());
        let ghost before = words.deep_view();
        words.push(w);
        assert(words.deep_view() =~= before.push(cur@));
    }
    words
}

/// A word of at most one byte in UTF-8.
pub open spec fn short_word(w: Seq<char>) -> bool {
    w.len() == 0 || (w.len() == 1 && (w[0] as u32) < 0x80)
}

/// A word made only of numeric characters and ASCII punctuation.
pub open spec fn numbers_or_punct(w: Seq<char>) -> bool {
    forall|i: int| 0 <= i < w.len() ==> numeric_char(#[trigger] w[i]) || is_punct(w[i])
}

/// The dictionary key looked up for a word: its core in lower case;
/// `None` for words that pass through unchanged.
pub open spec fn lookup_key_of(w: Seq<char>) -> Option<Seq<char>> {
    if short_word(w) || numbers_or_punct(w) || split_punct(w).1.len() == 0 {
        None
    } else {
        Some(lower_text(split_punct(w).1))
    }
}

/// The word after correction, given the dictionary's suggestion for its key.
pub open spec fn corrected(w: Seq<char>, suggestion: Option<Seq<char>>) -> Seq<char> {
    let parts = split_punct(w);
    match (lookup_key_of(w), suggestion) {
        (Some(key), Some(t)) => if lower_text(t) != key {
            parts.0 + cased_like(t, parts.1) + parts.2
        } else {
            w
        },
        _ => w,
    }
}

/// The key to look up for `word`, or `None` when it passes through.
pub fn lookup_key(word: &str) -> (r: Option<String>)
    ensures
        lookup_key_of(word@) matches Some(k) ==> (r matches Some(s) && s@ == k),
        lookup_key_of(word@) is None ==> r is None,
{
    let c = chars_of(word);
    if c.len() == 0 || (c.len() == 1 && (c[0] as u32) < 0x80) {
        return None;
    }
    let mut plain = true;
    let mut i: usize = 0;
    while i < c.len()
        invariant
            i <= c@.len(),
            c@ == word@,
            plain == (forall|j: int| 0 <= j < i ==> numeric_char(#[trigger] c@[j]) || is_punct(c@[j])),
        decreases c@.len() - i,
    {
        let n = char_is_numeric(c[i]);
        let p = is_ascii_punct(c[i]);
        plain = plain && (n || p);
        i = i + 1;
    }
    if plain {
        return None;
    }
    let (_, core, _) = strip_punctuation(word);
    if core.as_str().unicode_len() == 0 {
        return None;
    }
    Some(text_to_lowercase(core.as_str()))
}

/// Correct `word` given the dictionary's suggestion for its key: a
/// suggestion that differs from the key (ignoring case) replaces the core,
/// in the core's letter case, between the original punctuation.
pub fn apply_suggestion(word: &str, suggestion: Option<String>) -> (r: String)
    ensures
        r@ == corrected(
            word@,
            match suggestion {
                Some(t) => Some(t@),
                None => None,
            },
        ),
{
    let key = lookup_key(word);
    match (key, suggestion) {
        (Some(k), Some(t)) => {
            let lt = text_to_lowercase(t.as_str());
            if !lt.eq(&k) {
                let (prefix, core, suffix) = strip_punctuation(word);
                let mid = match_case(t.as_str(), core.as_str());
                let mut out = chars_of(prefix.as_str());
                let m = chars_of(mid.as_str());
                let sf = chars_of(suffix.as_str());
                out.extend_from_slice(m.as_slice());
                out.extend_from_slice(sf.as_slice());
                string_of(out.as_slice())
            } else {
                copy_text(word)
            }
        },
        _ => copy_text(word),
    }
}

/// An owned copy of `s`.
fn copy_text(s: &str) -> (r: String)
    ensures
        r@ == s@,
{
    s.to_owned()
}

/// `ws` joined with single spaces.
pub open spec fn spaced(ws: Seq<Seq<char>>) -> Seq<char>
    decreases ws.len(),
{
    if ws.len() == 0 {
        Seq::empty()
    } else if ws.len() == 1 {
        ws[0]
    } else {
        spaced(ws.drop_last()).push(' ') + ws.last()
    }
}

/// A spelling corrector over a word-frequency dictionary.
pub struct SpellChecker {
    dictionary: Dictionary,
}

impl SpellChecker {
    /// A corrector with an empty dictionary.
    pub fn new() -> (r: SpellChecker) {
        SpellChecker { dictionary: empty_dictionary() }
    }

    /// Add one `word count` line of a frequency dictionary.
    pub fn load_line(&mut self, line: &str) {
        add_dictionary_line(&mut self.dictionary, line);
    }

    /// Correct a text word by word and join the words with single spaces.
    /// Each word becomes `corrected(word, s)` for whatever suggestion `s`
    /// the dictionary gave for its key.
    pub fn correct(&self, text: &str) -> (r: String)
        ensures
            exists|sug: Seq<Option<Seq<char>>>| #[trigger] sug.len() == words_of(text@).len() && r@ == spaced(
                Seq::new(words_of(text@).len(), |i: int| corrected(words_of(text@)[i], sug[i])),
            ),
    {
        let words = split_words(text);
        let ghost ws = words.deep_view();
        let mut out: Vec<char> = Vec::new();
        let ghost mut sug: Seq<Option<Seq<char>>> = Seq::empty();
        let mut i: usize = 0;
        while i < words.len()
            invariant
                i <= words@.len(),
                ws == words.deep_view(),
                ws == words_of(text@),
                sug.len() == i,
                out@ == spaced(Seq::new(i as nat, |j: int| corrected(ws[j], sug[j]))),
            decreases words@.len() - i,
        {
            let w = words[i].as_str();
            assert(ws[i as int] == w@);
            let key = lookup_key(w);
            let found = match key {
                Some(k) => closest_term(&self.dictionary, k.as_str()),
                None => None,
            };
            let ghost g = match &found {
                Some(t) => Some(t@),
                None => None,
            };
            let fixed = apply_suggestion(w, found);
            let fc = chars_of(fixed.as_str());
            let ghost before = out@;
            if i > 0 {
                out.push(' ');
            }
            out.extend_from_slice(fc.as_slice());
            proof {
                let old_sug = sug;
                sug = sug.push(g);
                let f = |j: int| corrected(ws[j], sug[j]);
                let prev = Seq::new(i as nat, |j: int| corrected(ws[j], old_sug[j]));
                let next = Seq::new((i + 1) as nat, f);
                assert(next.drop_last() =~= prev);
                assert(next.last() == fc@);
                if i == 0 {
                    assert(out@ =~= next[0]);
                } else {
                    assert(out@ =~= spaced(prev).push(' ') + next.last());
                }
            }
            i = i + 1;
        }
        let r = string_of(out.as_slice());
        assert(r@ == spaced(Seq::new(words_of(text@).len(), |j: int| corrected(words_of(text@)[j], sug[j]))));
        r
    }
}

} // verus!
