//! Text patterns for the named conditions.
//!
//! A condition such as "has class" or "has attribute" compares a value
//! fetched from the remote resource against a caller-supplied pattern:
//! the whole string, a substring, or a whole word, each either case
//! sensitive or not. The comparison itself is delegated to the
//! `stringmatch` crate; the functions here state exactly what that
//! comparison answers and wrap it into the checks the conditions use.

use vstd::prelude::*;

verus! {

/// How much of the fetched value the pattern text must cover.
#[derive(Debug, Clone, Copy, PartialEq, Eq, Structural)]
pub enum MatchMode {
    /// The pattern text must equal the whole value.
    Full,
    /// The pattern text may be any substring of the value.
    Partial,
    /// The pattern text must appear in the value delimited by spaces or
    /// the value's ends.
    Word,
}

/// A text pattern: the text to look for, how much of the value it must
/// cover, and whether case matters. Fresh patterns are full-match and
/// case sensitive, like the matcher they delegate to.
#[derive(Debug, Clone)]
pub struct TextPattern {
    text: String,
    mode: MatchMode,
    case_sensitive: bool,
}

/// Whether `needle` occurs as a contiguous run inside `hay`.
pub open spec fn seq_contains(hay: Seq<char>, needle: Seq<char>) -> bool {
    exists|i: int|
        0 <= i && i + needle.len() <= hay.len() && #[trigger] hay.subrange(
            i,
            i + needle.len() as int,
        ) == needle
}

/// `s` with one space added on each side, the delimiter the word mode
/// matches between.
pub open spec fn spaced(s: Seq<char>) -> Seq<char> {
    seq![' '].add(s).push(' ')
}

/// What the case-folding of `s` is. This names the result of
/// `str::to_lowercase`, which the matcher applies to both sides before
/// a case-insensitive comparison; the folding itself depends on the
/// characters alone.
pub uninterp spec fn lower_of(s: Seq<char>) -> Seq<char>;

/// Whether `needle` covers `hay` as `mode` demands.
pub open spec fn mode_match(mode: MatchMode, needle: Seq<char>, hay: Seq<char>) -> bool {
    match mode {
        MatchMode::Full => hay == needle,
        MatchMode::Partial => seq_contains(hay, needle),
        MatchMode::Word => seq_contains(spaced(hay), spaced(needle)),
    }
}

/// Whether `hay` satisfies the pattern: its text covers `hay` as its
/// mode demands, after folding both sides when case is ignored.
pub open spec fn pattern_match_spec(p: TextPattern, hay: Seq<char>) -> bool {
    if p.is_case_sensitive() {
        mode_match(p.mode_spec(), p.text_spec(), hay)
    } else {
        mode_match(p.mode_spec(), lower_of(p.text_spec()), lower_of(hay))
    }
}

impl TextPattern {
    /// The pattern's text.
    pub closed spec fn text_spec(self) -> Seq<char> {
        self.text@
    }

    /// The pattern's coverage mode.
    pub closed spec fn mode_spec(self) -> MatchMode {
        self.mode
    }

    /// Whether the comparison is case sensitive.
    pub closed spec fn is_case_sensitive(self) -> bool {
        self.case_sensitive
    }

    /// A full-match, case-sensitive pattern for the given text.
    pub fn new(text: String) -> (r: Self)
        ensures
            r.text_spec() == text@,
            r.mode_spec() == MatchMode::Full,
            r.is_case_sensitive(),
    {
        TextPattern {
            text,
            mode: MatchMode::Full,
            case_sensitive: true,
        }
    }

    /// The same pattern with the given coverage mode.
    pub fn with_mode(self, mode: MatchMode) -> (r: Self)
        ensures
            r.text_spec() == self.text_spec(),
            r.mode_spec() == mode,
            r.is_case_sensitive() == self.is_case_sensitive(),
    {
        TextPattern {
            mode,
            ..self
        }
    }

    /// The same pattern, matching any substring of the value.
    pub fn partial(self) -> (r: Self)
        ensures
            r.text_spec() == self.text_spec(),
            r.mode_spec() == MatchMode::Partial,
            r.is_case_sensitive() == self.is_case_sensitive(),
    {
        self.with_mode(MatchMode::Partial)
    }

    /// The same pattern, matching whole space-delimited words.
    pub fn word(self) -> (r: Self)
        ensures
            r.text_spec() == self.text_spec(),
            r.mode_spec() == MatchMode::Word,
            r.is_case_sensitive() == self.is_case_sensitive(),
    {
        self.with_mode(MatchMode::Word)
    }

    /// The same pattern, ignoring case on both sides.
    pub fn case_insensitive(self) -> (r: Self)
        ensures
            r.text_spec() == self.text_spec(),
            r.mode_spec() == self.mode_spec(),
            !r.is_case_sensitive(),
    {
        TextPattern {
            case_sensitive: false,
            ..self
        }
    }

    /// Whether `haystack` satisfies this pattern.
    pub fn matches_str(&self, haystack: &str) -> (r: bool)
        ensures
            r == pattern_match_spec(*self, haystack@),
    {
        pattern_is_match(self, haystack)
    }
}

/// Relies on `stringmatch::StringMatch::is_match`: equality for a full
/// match, substring search for a partial match, substring search with a
/// space appended to each side of both strings for a word match; for a
/// case-insensitive pattern both sides are first folded with
/// `str::to_lowercase`.
#[verifier::external_body]
fn pattern_is_match(p: &TextPattern, haystack: &str) -> (r: bool)
    ensures
        p.is_case_sensitive() ==> r == mode_match(p.mode_spec(), p.text_spec(), haystack@),
        !p.is_case_sensitive() ==> r == mode_match(
            p.mode_spec(),
            lower_of(p.text_spec()),
            lower_of(haystack@),
        ),
{
    let mut needle = stringmatch::StringMatch::new(p.text.as_str());
    needle = match p.mode {
        MatchMode::Full => needle.full(),
        MatchMode::Partial => needle.partial(),
        MatchMode::Word => needle.word(),
    };
    if !p.case_sensitive {
        needle = needle.case_insensitive();
    }
    stringmatch::Needle::is_match(&needle, haystack)
}

/// Whether an optional fetched value is present and satisfies the
/// pattern — the "has" form of the attribute, property, class and
/// value conditions: a missing value never satisfies them.
pub fn check_has(value: &Option<String>, pattern: &TextPattern) -> (r: bool)
    ensures
        r == (value is Some && pattern_match_spec(*pattern, value->Some_0@)),
{
    match value {
        Some(v) => pattern.matches_str(v.as_str()),
        None => false,
    }
}

/// Whether an optional fetched value is absent or fails the pattern —
/// the "lacks" form of the same conditions: a missing value always
/// lacks.
pub fn check_lacks(value: &Option<String>, pattern: &TextPattern) -> (r: bool)
    ensures
        r == !(value is Some && pattern_match_spec(*pattern, value->Some_0@)),
{
    !check_has(value, pattern)
}

/// Whether every fetched value in a list is present and satisfies its
/// pattern — the bulk "has all" conditions.
pub fn check_has_all(values: &Vec<Option<String>>, patterns: &Vec<TextPattern>) -> (r: bool)
    requires
        values@.len() == patterns@.len(),
    ensures
        r == forall|i: int|
            0 <= i < values@.len() ==> (values@[i] is Some && pattern_match_spec(
                patterns@[i],
                values@[i]->Some_0@,
            )),
{
    let n = values.len();
    let mut k: usize = 0;
    while k < n
        invariant
            n == values@.len(),
            values@.len() == patterns@.len(),
            k <= n,
            forall|i: int|
                0 <= i < k ==> (values@[i] is Some && pattern_match_spec(
                    patterns@[i],
                    values@[i]->Some_0@,
                )),
        decreases n - k,
    {
        if !check_has(&values[k], &patterns[k]) {
            return false;
        }
        k = k + 1;
    }
    true
}

/// Whether every fetched value in a list is absent or fails its
/// pattern — the bulk "lacks all" conditions.
pub fn check_lacks_all(values: &Vec<Option<String>>, patterns: &Vec<TextPattern>) -> (r: bool)
    requires
        values@.len() == patterns@.len(),
    ensures
        r == forall|i: int|
            0 <= i < values@.len() ==> !(values@[i] is Some && pattern_match_spec(
                patterns@[i],
                values@[i]->Some_0@,
            )),
{
    let n = values.len();
    let mut k: usize = 0;
    while k < n
        invariant
            n == values@.len(),
            values@.len() == patterns@.len(),
            k <= n,
            forall|i: int|
                0 <= i < k ==> !(values@[i] is Some && pattern_match_spec(
                    patterns@[i],
                    values@[i]->Some_0@,
                )),
        decreases n - k,
    {
        if !check_lacks(&values[k], &patterns[k]) {
            return false;
        }
        k = k + 1;
    }
    true
}

} // verus!
