//! Post-processing of raw recognizer output: trimming, punctuation
//! spacing, space runs, and a capital first letter.
use vstd::prelude::*;

verus! {

/// Unicode `White_Space` property, which `str::trim` strips.
pub open spec fn is_white(c: char) -> bool {
    let u = c as u32;
    (0x09 <= u <= 0x0d) || u == 0x20 || u == 0x85 || u == 0xa0 || u == 0x1680 || (0x2000 <= u
        <= 0x200a) || u == 0x2028 || u == 0x2029 || u == 0x202f || u == 0x205f || u == 0x3000
}

/// `s` without leading white space.
pub open spec fn trim_start(s: Seq<char>) -> Seq<char>
    decreases s.len(),
{
    if s.len() > 0 && is_white(s[0]) {
        trim_start(s.drop_first())
    } else {
        s
    }
}

/// `s` without trailing white space.
pub open spec fn trim_end(s: Seq<char>) -> Seq<char>
    decreases s.len(),
{
    if s.len() > 0 && is_white(s.last()) {
        trim_end(s.drop_last())
    } else {
        s
    }
}

/// `s` without leading and trailing white space.
pub open spec fn trimmed(s: Seq<char>) -> Seq<char> {
    trim_end(trim_start(s))
}

/// Whether character `i` of `s` stays when each space directly before `p`
/// is removed.
pub open spec fn kept_before(s: Seq<char>, p: char, i: int) -> bool {
    !(s[i] == ' ' && i + 1 < s.len() && s[i + 1] == p)
}

/// The characters among the first `n` of `s` that `kept_before` keeps.
pub open spec fn filter_before(s: Seq<char>, p: char, n: int) -> Seq<char>
    decreases n,
{
    if n <= 0 {
        Seq::empty()
    } else if kept_before(s, p, n - 1) {
        filter_before(s, p, n - 1).push(s[n - 1])
    } else {
        filter_before(s, p, n - 1)
    }
}

/// `s` with every space that stands directly before `p` removed.
pub open spec fn unspace_before(s: Seq<char>, p: char) -> Seq<char> {
    filter_before(s, p, s.len() as int)
}

/// Whether character `i` of `s` stays when runs of spaces become one space.
pub open spec fn kept_in_run(s: Seq<char>, i: int) -> bool {
    !(s[i] == ' ' && i > 0 && s[i - 1] == ' ')
}

/// The characters among the first `n` of `s` that `kept_in_run` keeps.
pub open spec fn filter_runs(s: Seq<char>, n: int) -> Seq<char>
    decreases n,
{
    if n <= 0 {
        Seq::empty()
    } else if kept_in_run(s, n - 1) {
        filter_runs(s, n - 1).push(s[n - 1])
    } else {
        filter_runs(s, n - 1)
    }
}

/// `s` with each run of spaces reduced to one space.
pub open spec fn collapse_spaces(s: Seq<char>) -> Seq<char> {
    filter_runs(s, s.len() as int)
}

/// Trimmed; no space before `,` `.` `?` `!` `%`; runs of spaces reduced
/// to one.
pub open spec fn tidied(s: Seq<char>) -> Seq<char> {
    collapse_spaces(
        unspace_before(
            unspace_before(
                unspace_before(unspace_before(unspace_before(trimmed(s), ','), '.'), '?'),
                '!',
            ),
            '%',
        ),
    )
}

/// Whether `c` has the Unicode `Lowercase` property (`char::is_lowercase`).
pub uninterp spec fn lowercase_char(c: char) -> bool;

/// The characters of `c.to_uppercase()`.
pub uninterp spec fn uppercase_of(c: char) -> Seq<char>;

/// `s` with its first character replaced by `upper` when `lower` says it
/// is lower case.
pub open spec fn with_capital(s: Seq<char>, lower: bool, upper: Seq<char>) -> Seq<char> {
    if s.len() > 0 && lower {
        upper + s.drop_first()
    } else {
        s
    }
}

/// The cleaned form of a raw transcript.
pub open spec fn cleaned(s: Seq<char>) -> Seq<char> {
    let t = tidied(s);
    if t.len() > 0 {
        with_capital(t, lowercase_char(t[0]), uppercase_of(t[0]))
    } else {
        t
    }
}

/// Relies on `str::chars`: the characters of the string, in order.
#[verifier::external_body]
pub(crate) fn chars_of(s: &str) -> (r: Vec<char>)
    ensures
        r@ == s@,
{
    s.chars().collect()
}

/// Relies on `String: FromIterator<char>`: the string of these characters.
#[verifier::external_body]
pub(crate) fn string_of(v: &[char]) -> (r: String)
    ensures
        r@ == v@,
{
    v.iter().collect()
}

/// Relies on `char::is_lowercase`.
#[verifier::external_body]
fn char_is_lowercase(c: char) -> (r: bool)
    ensures
        r == lowercase_char(c),
{
    c.is_lowercase()
}

/// Relies on `char::to_uppercase`: its characters, collected.
#[verifier::external_body]
pub(crate) fn char_to_uppercase(c: char) -> (r: Vec<char>)
    ensures
        r@ == uppercase_of(c),
{
    c.to_uppercase().collect()
}

/// `char::is_whitespace`, by its definition.
pub fn is_whitespace(c: char) -> (r: bool)
    ensures
        r == is_white(c),
{
    let u = c as u32;
    (0x09 <= u && u <= 0x0d) || u == 0x20 || u == 0x85 || u == 0xa0 || u == 0x1680 || (0x2000 <= u
        && u <= 0x200a) || u == 0x2028 || u == 0x2029 || u == 0x202f || u == 0x205f || u == 0x3000
}

/// `s[lo..hi]` as a new vector.
pub(crate) fn copy_range(s: &Vec<char>, lo: usize, hi: usize) -> (r: Vec<char>)
    requires
        lo <= hi <= s@.len(),
    ensures
        r@ == s@.subrange(lo as int, hi as int),
{
    let mut r: Vec<char> = Vec::new();
    let mut i: usize = lo;
    while i < hi
        invariant
            lo <= i <= hi <= s@.len(),
            r@ == s@.subrange(lo as int, i as int),
        decreases hi - i,
    {
        r.push(s[i]);
        proof {
            assert(s@.subrange(lo as int, i as int + 1) =~= s@.subrange(lo as int, i as int).push(s@[i as int]));
        }
        i = i + 1;
    }
    r
}

/// Leading and trailing white space removed.
pub fn trim_chars(s: &Vec<char>) -> (r: Vec<char>)
    ensures
        r@ == trimmed(s@),
{
    let mut a: usize = 0;
    assert(s@.skip(0) =~= s@);
    while a < s.len() && is_whitespace(s[a])
        invariant
            a <= s@.len(),
            trim_start(s@) == trim_start(s@.skip(a as int)),
        decreases s@.len() - a,
    {
        proof {
            assert(s@.skip(a as int).drop_first() =~= s@.skip(a as int + 1));
        }
        a = a + 1;
    }
    assert(trim_start(s@) == s@.skip(a as int));
    let mut b: usize = s.len();
    while b > a && is_whitespace(s[b - 1])
        invariant
            a <= b <= s@.len(),
            trim_end(s@.skip(a as int)) == trim_end(s@.subrange(a as int, b as int)),
        decreases b,
    {
        proof {
            assert(s@.subrange(a as int, b as int).drop_last() =~= s@.subrange(a as int, b as int - 1));
        }
        b = b - 1;
    }
    proof {
        assert(s@.skip(a as int) =~= s@.subrange(a as int, s@.len() as int));
    }
    copy_range(s, a, b)
}

/// Every space that stands directly before `p` removed.
pub fn remove_space_before(s: &Vec<char>, p: char) -> (r: Vec<char>)
    ensures
        r@ == unspace_before(s@, p),
{
    let mut r: Vec<char> = Vec::new();
    let mut i: usize = 0;
    while i < s.len()
        invariant
            i <= s@.len(),
            r@ == filter_before(s@, p, i as int),
        decreases s@.len() - i,
    {
        let keep = !(s[i] == ' ' && i + 1 < s.len() && s[i + 1] == p);
        if keep {
            r.push(s[i]);
        }
        i = i + 1;
    }
    r
}

/// Each run of spaces reduced to one space.
pub fn collapse_space_runs(s: &Vec<char>) -> (r: Vec<char>)
    ensures
        r@ == collapse_spaces(s@),
{
    let mut r: Vec<char> = Vec::new();
    let mut i: usize = 0;
    while i < s.len()
        invariant
            i <= s@.len(),
            r@ == filter_runs(s@, i as int),
        decreases s@.len() - i,
    {
        let keep = !(s[i] == ' ' && i > 0 && s[i - 1] == ' ');
        if keep {
            r.push(s[i]);
        }
        i = i + 1;
    }
    r
}

/// Trim, drop the spaces before `,` `.` `?` `!` `%`, and reduce runs of
/// spaces to one space.
pub fn tidy_spacing(text: &str) -> (r: String)
    ensures
        r@ == tidied(text@),
{
    let c = chars_of(text);
    let c = trim_chars(&c);
    let c = remove_space_before(&c, ',');
    let c = remove_space_before(&c, '.');
    let c = remove_space_before(&c, '?');
    let c = remove_space_before(&c, '!');
    let c = remove_space_before(&c, '%');
    let c = collapse_space_runs(&c);
    string_of(c.as_slice())
}

/// Replace the first character of `text` by `upper` when `lower` is set
/// (as `char::is_lowercase` and `char::to_uppercase` report for it).
pub fn capitalize_first(text: &str, lower: bool, upper: &str) -> (r: String)
    ensures
        r@ == with_capital(text@, lower, upper@),
{
    let c = chars_of(text);
    if c.len() > 0 && lower {
        let mut out = chars_of(upper);
        let mut i: usize = 1;
        while i < c.len()
            invariant
                1 <= i <= c@.len(),
                out@ == upper@ + c@.subrange(1, i as int),
            decreases c@.len() - i,
        {
            out.push(c[i]);
            proof {
                assert(upper@ + c@.subrange(1, i as int + 1) =~= (upper@ + c@.subrange(1, i as int)).push(c@[i as int]));
            }
            i = i + 1;
        }
        assert(c@.subrange(1, c@.len() as int) =~= c@.drop_first());
        string_of(out.as_slice())
    } else {
        string_of(c.as_slice())
    }
}

/// Clean a raw transcript: trim it, remove the spaces before `,` `.` `?`
/// `!` `%`, reduce runs of spaces to one, and capitalise a lower-case
/// first letter.
pub fn clean_transcript(text: &str) -> (r: String)
    ensures
        r@ == cleaned(text@),
{
    let t = tidy_spacing(text);
    let c = chars_of(t.as_str());
    if c.len() > 0 {
        let lower = char_is_lowercase(c[0]);
        let up = char_to_uppercase(c[0]);
        let ups = string_of(up.as_slice());
        capitalize_first(t.as_str(), lower, ups.as_str())
    } else {
        t
    }
}

/// The text to type into the focused application after a session: the
/// trimmed transcript, or nothing when it is blank or the silence marker.
pub fn text_to_insert(text: &str) -> (r: Option<String>)
    ensures
        (trimmed(text@).len() == 0 || trimmed(text@) == "[silence]"@) ==> r is None,
        !(trimmed(text@).len() == 0 || trimmed(text@) == "[silence]"@) ==> (r matches Some(t) && t@ == trimmed(text@)),
{
    let c = chars_of(text);
    let t = trim_chars(&c);
    let marker = chars_of("[silence]");
    let mut same = t.len() == marker.len();
    let mut i: usize = 0;
    while same && i < t.len()
        invariant
            same ==> t@.len() == marker@.len(),
            i <= t@.len(),
            same ==> forall|j: int| 0 <= j < i ==> t@[j] == marker@[j],
            !same ==> t@ != marker@,
        decreases t@.len() - i,
    {
        if t[i] != marker[i] {
            same = false;
        }
        i = i + 1;
    }
    if same {
        assert(t@ =~= marker@);
    }
    if t.len() == 0 || same {
        None
    } else {
        Some(string_of(t.as_slice()))
    }
}

} // verus!
