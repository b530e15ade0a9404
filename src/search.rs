//! Searches over a sequence of lines: numbered literal matches, pattern
//! matches, context windows around literal matches, and line measurements.
use vstd::prelude::*;
use vstd::utf8::encode_utf8;
use crate::context::{
    ContextMatches, extract_context, is_context_of, lemma_matching_indices_sorted, match_tags,
    matching_indices, tags_view,
};
use crate::matching::{
    LineMatcher, Pattern, PatternError, contains_flags, matcher_flags, matcher_flags_of,
    pattern_compiles, contains_flags_of, pattern_flags, pattern_flags_of,
};

verus! {

/// The flagged lines, in input order.
pub open spec fn selected_lines(lines: Seq<String>, flags: Seq<bool>) -> Seq<String> {
    matching_indices(flags).map_values(|i: int| lines[i])
}

/// The flagged lines, each paired with its 1-based line number.
pub open spec fn numbered_lines(lines: Seq<String>, flags: Seq<bool>) -> Seq<(usize, String)> {
    matching_indices(flags).map_values(|i: int| ((i + 1) as usize, lines[i]))
}

/// The lines at the indices of the set flags, in input order.
fn select_flagged(lines: &Vec<String>, flags: &Vec<bool>) -> (r: Vec<String>)
    requires
        flags.len() == lines.len(),
    ensures
        r@ == selected_lines(lines@, flags@),
{
    let tags = match_tags(flags);
    proof {
        lemma_matching_indices_sorted(flags@);
    }
    let mut r: Vec<String> = Vec::new();
    let m = tags.len();
    for k in 0..m
        invariant
            m == tags.len(),
            flags.len() == lines.len(),
            tags_view(tags@) == matching_indices(flags@),
            forall|q: int| 0 <= q < m ==> #[trigger] tags_view(tags@)[q] < flags.len(),
            r@ == tags_view(tags@).take(k as int).map_values(|i: int| lines@[i]),
    {
        assert(tags_view(tags@)[k as int] == tags[k as int] as int);
        r.push(lines[tags[k]].clone());
        assert(r@ =~= tags_view(tags@).take(k as int + 1).map_values(|i: int| lines@[i]));
    }
    assert(tags_view(tags@).take(m as int) =~= tags_view(tags@));
    r
}

/// The lines that contain `needle`, each with its 1-based line number.
pub fn basic_grep(lines: &Vec<String>, needle: &str) -> (r: Vec<(usize, String)>)
    ensures
        r@ == numbered_lines(lines@, contains_flags_of(lines@, needle@)),
{
    let flags = contains_flags(lines, needle);
    let tags = match_tags(&flags);
    let ghost all = tags_view(tags@);
    proof {
        lemma_matching_indices_sorted(flags@);
    }
    let mut r: Vec<(usize, String)> = Vec::new();
    let m = tags.len();
    for k in 0..m
        invariant
            m == tags.len(),
            flags.len() == lines.len(),
            all == tags_view(tags@),
            all == matching_indices(flags@),
            forall|q: int| 0 <= q < m ==> #[trigger] all[q] < flags.len(),
            r@ == all.take(k as int).map_values(|i: int| ((i + 1) as usize, lines@[i])),
    {
        assert(all[k as int] == tags[k as int] as int);
        let t = tags[k];
        r.push((t + 1, lines[t].clone()));
        assert(r@ =~= all.take(k as int + 1).map_values(|i: int| ((i + 1) as usize, lines@[i])));
    }
    assert(all.take(m as int) =~= all);
    r
}

/// The lines in which `pattern` finds a match, in input order.
pub fn grep_lines(pattern: &Pattern, lines: &Vec<String>) -> (r: Vec<String>)
    ensures
        r@ == selected_lines(lines@, pattern_flags_of(lines@, pattern.source_view())),
{
    let flags = pattern_flags(lines, pattern);
    select_flagged(lines, &flags)
}

/// Compiles `pattern` and returns the lines in which it finds a match; fails
/// exactly when the pattern does not compile.
pub fn pattern_grep(pattern: &str, lines: &Vec<String>) -> (r: Result<Vec<String>, PatternError>)
    ensures
        r is Ok <==> pattern_compiles(pattern@),
        r is Ok ==> r->Ok_0@ == selected_lines(lines@, pattern_flags_of(lines@, pattern@)),
        r is Err ==> r->Err_0.pattern@ == pattern@,
{
    match Pattern::new(pattern) {
        Ok(p) => Ok(grep_lines(&p, lines)),
        Err(e) => Err(e),
    }
}

/// Context windows of `radius` lines around every line that contains `needle`.
pub fn vector_grep(lines: &Vec<String>, needle: &str, radius: usize) -> (r: ContextMatches)
    ensures
        is_context_of(r, lines@, contains_flags_of(lines@, needle@), radius as int),
{
    let flags = contains_flags(lines, needle);
    extract_context(lines, &flags, radius)
}

/// Context windows of `radius` lines around every line that `matcher` accepts.
pub fn context_search(lines: &Vec<String>, matcher: &LineMatcher, radius: usize) -> (r:
    ContextMatches)
    ensures
        is_context_of(r, lines@, matcher_flags_of(lines@, *matcher), radius as int),
{
    let flags = matcher_flags(lines, matcher);
    extract_context(lines, &flags, radius)
}

/// Relies on `str::len`: the length of the string in bytes, which is the
/// length of its UTF-8 encoding.
#[verifier::external_body]
fn byte_len(s: &str) -> (r: usize)
    ensures
        r as nat == encode_utf8(s@).len(),
{
    s.len()
}

/// Each line paired with its length in bytes.
pub fn measure_lines(lines: &Vec<String>) -> (r: Vec<(String, usize)>)
    ensures
        r.len() == lines.len(),
        forall|i: int|
            0 <= i < lines.len() ==> (#[trigger] r[i]).0 == lines[i] && r[i].1 as nat
                == encode_utf8(lines[i]@).len(),
{
    let mut r: Vec<(String, usize)> = Vec::new();
    let n = lines.len();
    for i in 0..n
        invariant
            n == lines.len(),
            r.len() == i,
            forall|q: int|
                0 <= q < i ==> (#[trigger] r[q]).0 == lines[q] && r[q].1 as nat == encode_utf8(
                    lines[q]@,
                ).len(),
    {
        let len = byte_len(lines[i].as_str());
        r.push((lines[i].clone(), len));
    }
    r
}

} // verus!
