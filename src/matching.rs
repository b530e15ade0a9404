//! Line predicates: literal substring containment and regular-expression
//! search, and the per-line match flags they produce.
use vstd::prelude::*;

verus! {

/// Whether `needle` occurs in `s` as a contiguous run of characters.
pub open spec fn has_substring(s: Seq<char>, needle: Seq<char>) -> bool {
    exists|i: int|
        0 <= i <= s.len() - needle.len() && #[trigger] s.subrange(i, i + needle.len()) == needle
}

/// Relies on `str::contains` with a `&str` pattern: true exactly when the
/// pattern occurs in the string as a contiguous sub-slice.
#[verifier::external_body]
fn str_contains(s: &str, needle: &str) -> (r: bool)
    ensures
        r == has_substring(s@, needle@),
{
    s.contains(needle)
}

/// Flags of literal containment: entry `i` tells whether `lines[i]` holds `needle`.
pub open spec fn contains_flags_of(lines: Seq<String>, needle: Seq<char>) -> Seq<bool> {
    Seq::new(lines.len(), |i: int| has_substring(lines[i]@, needle))
}

/// Evaluates literal containment of `needle` on every line.
pub fn contains_flags(lines: &Vec<String>, needle: &str) -> (flags: Vec<bool>)
    ensures
        flags@ == contains_flags_of(lines@, needle@),
{
    let mut flags: Vec<bool> = Vec::new();
    let n = lines.len();
    for i in 0..n
        invariant
            n == lines.len(),
            flags@ == contains_flags_of(lines@.take(i as int), needle@),
    {
        flags.push(str_contains(lines[i].as_str(), needle));
        assert(flags@ =~= contains_flags_of(lines@.take(i as int + 1), needle@));
    }
    assert(lines@.take(n as int) =~= lines@);
    flags
}

#[verifier::external_type_specification]
#[verifier::external_body]
pub struct ExRegex(regex::Regex);

#[verifier::external_type_specification]
#[verifier::external_body]
pub struct ExRegexError(regex::Error);

/// Whether `regex::Regex::new` accepts `pattern`.
pub uninterp spec fn pattern_compiles(pattern: Seq<char>) -> bool;

/// Whether the regular expression compiled from `pattern` finds a match
/// anywhere in `line`.
pub uninterp spec fn pattern_finds(pattern: Seq<char>, line: Seq<char>) -> bool;

/// Relies on `regex::Regex::new`: whether it succeeds depends on the pattern
/// text alone.
#[verifier::external_body]
fn compile_regex(pattern: &str) -> (r: Result<regex::Regex, regex::Error>)
    ensures
        r is Ok <==> pattern_compiles(pattern@),
{
    regex::Regex::new(pattern)
}

/// Relies on the `Display` impl of `regex::Error` for a readable message.
#[verifier::external_body]
fn regex_error_text(e: &regex::Error) -> (r: String) {
    e.to_string()
}

/// Why a pattern was rejected.
#[derive(Debug)]
pub struct PatternError {
    pub pattern: String,
    pub message: String,
}

/// A regular expression together with the text it was compiled from.
pub struct Pattern {
    source: String,
    compiled: regex::Regex,
}

/// Relies on `regex::Regex::is_match`: true exactly when the expression,
/// which `Pattern::new` compiled from the pattern's source, matches somewhere
/// in `line`.
#[verifier::external_body]
fn regex_is_match(p: &Pattern, line: &str) -> (r: bool)
    ensures
        r == pattern_finds(p.source_view(), line@),
{
    p.compiled.is_match(line)
}

impl Pattern {
    /// The text the pattern was compiled from.
    pub closed spec fn source_view(&self) -> Seq<char> {
        self.source@
    }

    /// Compiles `source`; fails exactly when the regex crate rejects it.
    pub fn new(source: &str) -> (r: Result<Pattern, PatternError>)
        ensures
            r is Ok <==> pattern_compiles(source@),
            r is Ok ==> r->Ok_0.source_view() == source@,
            r is Err ==> r->Err_0.pattern@ == source@,
    {
        match compile_regex(source) {
            Ok(compiled) => Ok(Pattern { source: String::from_str(source), compiled }),
            Err(e) => Err(PatternError { pattern: String::from_str(source), message: regex_error_text(&e) }),
        }
    }

    /// The text the pattern was compiled from.
    pub fn as_str(&self) -> (r: &str)
        ensures
            r@ == self.source_view(),
    {
        self.source.as_str()
    }
}

/// Flags of pattern search: entry `i` tells whether `p` finds a match in `lines[i]`.
pub open spec fn pattern_flags_of(lines: Seq<String>, p: Seq<char>) -> Seq<bool> {
    Seq::new(lines.len(), |i: int| pattern_finds(p, lines[i]@))
}

/// Evaluates the pattern on every line.
pub fn pattern_flags(lines: &Vec<String>, pattern: &Pattern) -> (flags: Vec<bool>)
    ensures
        flags@ == pattern_flags_of(lines@, pattern.source_view()),
{
    let mut flags: Vec<bool> = Vec::new();
    let n = lines.len();
    for i in 0..n
        invariant
            n == lines.len(),
            flags@ == pattern_flags_of(lines@.take(i as int), pattern.source_view()),
    {
        flags.push(regex_is_match(pattern, lines[i].as_str()));
        assert(flags@ =~= pattern_flags_of(lines@.take(i as int + 1), pattern.source_view()));
    }
    assert(lines@.take(n as int) =~= lines@);
    flags
}

/// A line predicate: literal containment of a needle, or a regular
/// expression that finds a match somewhere in the line.
pub enum LineMatcher {
    Literal(String),
    Regex(Pattern),
}

impl LineMatcher {
    /// Whether the predicate holds of a line with characters `line`.
    pub open spec fn accepts(&self, line: Seq<char>) -> bool {
        match self {
            LineMatcher::Literal(needle) => has_substring(line, needle@),
            LineMatcher::Regex(p) => pattern_finds(p.source_view(), line),
        }
    }

    /// Evaluates the predicate on `line`.
    pub fn is_match(&self, line: &str) -> (r: bool)
        ensures
            r == self.accepts(line@),
    {
        match self {
            LineMatcher::Literal(needle) => str_contains(line, needle.as_str()),
            LineMatcher::Regex(p) => regex_is_match(p, line),
        }
    }
}

/// Flags of a line predicate: entry `i` tells whether `m` accepts `lines[i]`.
pub open spec fn matcher_flags_of(lines: Seq<String>, m: LineMatcher) -> Seq<bool> {
    Seq::new(lines.len(), |i: int| m.accepts(lines[i]@))
}

/// Evaluates the predicate on every line.
pub fn matcher_flags(lines: &Vec<String>, matcher: &LineMatcher) -> (flags: Vec<bool>)
    ensures
        flags@ == matcher_flags_of(lines@, *matcher),
{
    let mut flags: Vec<bool> = Vec::new();
    let n = lines.len();
    for i in 0..n
        invariant
            n == lines.len(),
            flags@ == matcher_flags_of(lines@.take(i as int), *matcher),
    {
        flags.push(matcher.is_match(lines[i].as_str()));
        assert(flags@ =~= matcher_flags_of(lines@.take(i as int + 1), *matcher));
    }
    assert(lines@.take(n as int) =~= lines@);
    flags
}

} // verus!
