//! The built-in sample texts, the small array exercise, and the combined
//! walk-through that runs the searches on the samples.
use vstd::prelude::*;
use crate::context::{lemma_matching_indices_sorted, matching_indices};
use crate::matching::{PatternError, pattern_finds};
use crate::context::{ContextMatches, is_context_of};
use crate::matching::{contains_flags_of, pattern_compiles, pattern_flags_of};
use crate::search::{
    basic_grep, numbered_lines, pattern_grep, selected_lines, vector_grep,
};

verus! {

/// The views of a sequence of strings.
pub open spec fn views_of(lines: Seq<String>) -> Seq<Seq<char>> {
    lines.map_values(|s: String| s@)
}

/// The three-line quotation that the searches run on.
pub open spec fn quote_view() -> Seq<Seq<char>> {
    seq![
        "Every face, every shop, bedroom window, public-house and"@,
        "dark square is a picture feverishly turned--in search of what?"@,
        "It is the same with books. What do we seek through millions of pages?"@,
    ]
}

/// The same quotation broken into seven shorter lines.
pub open spec fn haystack_view() -> Seq<Seq<char>> {
    seq![
        "Every face, every shop,"@,
        "bedroom window, public-house, and"@,
        "dark square is a picture"@,
        "feverishly turned--in search of what?"@,
        "It is the same with books."@,
        "What do we seek"@,
        "through millions of pages?"@,
    ]
}

/// The quotation, one `String` per line.
pub fn quote_lines() -> (r: Vec<String>)
    ensures
        views_of(r@) == quote_view(),
{
    let mut r: Vec<String> = Vec::new();
    r.push(String::from_str("Every face, every shop, bedroom window, public-house and"));
    r.push(String::from_str("dark square is a picture feverishly turned--in search of what?"));
    r.push(
        String::from_str("It is the same with books. What do we seek through millions of pages?"),
    );
    assert(views_of(r@) =~= quote_view());
    r
}

/// The seven-line haystack, one `String` per line.
pub fn haystack_lines() -> (r: Vec<String>)
    ensures
        views_of(r@) == haystack_view(),
{
    let mut r: Vec<String> = Vec::new();
    r.push(String::from_str("Every face, every shop,"));
    r.push(String::from_str("bedroom window, public-house, and"));
    r.push(String::from_str("dark square is a picture"));
    r.push(String::from_str("feverishly turned--in search of what?"));
    r.push(String::from_str("It is the same with books."));
    r.push(String::from_str("What do we seek"));
    r.push(String::from_str("through millions of pages?"));
    assert(views_of(r@) =~= haystack_view());
    r
}

/// An array of three numbers, each number plus ten, and the sum.
pub struct ArraySummary {
    pub values: [u8; 3],
    pub shifted: [u16; 3],
    pub sum: u16,
}

/// Whether `s` describes the array `values`.
pub open spec fn is_summary_of(s: ArraySummary, values: Seq<u8>) -> bool {
    &&& s.values@ == values
    &&& forall|i: int| 0 <= i < 3 ==> #[trigger] s.shifted@[i] == values[i] + 10
    &&& s.sum == values[0] + values[1] + values[2]
}

/// Adds ten to each element and sums the elements.
pub fn summarize_array(values: [u8; 3]) -> (r: ArraySummary)
    ensures
        is_summary_of(r, values@),
{
    let mut sum: u16 = 0;
    for i in 0..3
        invariant
            sum == (if i == 0 {
                0
            } else if i == 1 {
                values@[0] as int
            } else if i == 2 {
                values@[0] + values@[1]
            } else {
                values@[0] + values@[1] + values@[2]
            }),
    {
        sum += values[i] as u16;
    }
    let shifted: [u16; 3] = [values[0] as u16 + 10, values[1] as u16 + 10, values[2] as u16 + 10];
    let r = ArraySummary { values, shifted, sum };
    assert(r.shifted@ =~= seq![values@[0] + 10, values@[1] + 10, values@[2] + 10].map_values(|x: int| x as u16));
    r
}

/// What the array exercise yields: `[1, 2, 3]` twice, then `[0, 0, 0]`
/// twice, each summarised.
pub open spec fn is_array_exercise(r: Seq<ArraySummary>) -> bool {
    &&& r.len() == 4
    &&& is_summary_of(r[0], seq![1u8, 2, 3])
    &&& is_summary_of(r[1], seq![1u8, 2, 3])
    &&& is_summary_of(r[2], seq![0u8, 0, 0])
    &&& is_summary_of(r[3], seq![0u8, 0, 0])
}

/// Summarises the four fixed arrays of the exercise.
pub fn arrays() -> (r: Vec<ArraySummary>)
    ensures
        is_array_exercise(r@),
{
    let one: [u8; 3] = [1, 2, 3];
    let two: [u8; 3] = [1, 2, 3];
    let blank1: [u8; 3] = [0; 3];
    let blank2: [u8; 3] = [0; 3];
    assert(one@ =~= seq![1u8, 2, 3]);
    assert(two@ =~= seq![1u8, 2, 3]);
    assert(blank1@ =~= seq![0u8, 0, 0]);
    assert(blank2@ =~= seq![0u8, 0, 0]);
    let mut r: Vec<ArraySummary> = Vec::new();
    r.push(summarize_array(one));
    r.push(summarize_array(two));
    r.push(summarize_array(blank1));
    r.push(summarize_array(blank2));
    r
}

/// The views of the flagged lines, in input order.
proof fn lemma_selected_views(lines: Seq<String>, flags: Seq<bool>)
    requires
        flags.len() == lines.len(),
    ensures
        views_of(selected_lines(lines, flags)) == matching_indices(flags).map_values(
            |i: int| views_of(lines)[i],
        ),
{
    lemma_matching_indices_sorted(flags);
    let m = matching_indices(flags);
    assert forall|k: int| 0 <= k < m.len() implies views_of(selected_lines(lines, flags))[k]
        == views_of(lines)[m[k]] by {
        let i = m[k];
        assert(0 <= i < lines.len());
    }
    assert(views_of(selected_lines(lines, flags)) =~= m.map_values(|i: int| views_of(lines)[i]));
}

/// The quotation lines in which the regular expression `picture` finds a
/// match; fails only if that expression does not compile.
pub fn no_input_grep() -> (r: Result<Vec<String>, PatternError>)
    ensures
        r is Ok <==> pattern_compiles("picture"@),
        r is Ok ==> views_of(r->Ok_0@) == matching_indices(
            Seq::new(3, |i: int| pattern_finds("picture"@, quote_view()[i])),
        ).map_values(|i: int| quote_view()[i]),
{
    let quote = quote_lines();
    let r = pattern_grep("picture", &quote);
    proof {
        let flags = pattern_flags_of(quote@, "picture"@);
        assert(views_of(quote@).len() == quote@.len());
        assert(quote_view().len() == 3);
        assert forall|i: int| 0 <= i < 3 implies quote@[i]@ == quote_view()[i] by {
            assert(views_of(quote@)[i] == quote@[i]@);
        }
        assert(flags =~= Seq::new(3, |i: int| pattern_finds("picture"@, quote_view()[i])));
        lemma_selected_views(quote@, flags);
    }
    r
}

/// Everything the walk-through computes: numbered literal matches of
/// `picture` in the quotation, the array exercise, and two-line context
/// windows around `book` in the seven-line haystack.
pub struct TrainerReport {
    pub quote: Vec<String>,
    pub numbered: Vec<(usize, String)>,
    pub arrays: Vec<ArraySummary>,
    pub haystack: Vec<String>,
    pub context: ContextMatches,
}

/// Runs the walk-through on the built-in samples.
pub fn trainer() -> (r: TrainerReport)
    ensures
        views_of(r.quote@) == quote_view(),
        r.numbered@ == numbered_lines(r.quote@, contains_flags_of(r.quote@, "picture"@)),
        is_array_exercise(r.arrays@),
        views_of(r.haystack@) == haystack_view(),
        is_context_of(r.context, r.haystack@, contains_flags_of(r.haystack@, "book"@), 2),
{
    let quote = quote_lines();
    let numbered = basic_grep(&quote, "picture");
    let arrays = arrays();
    let haystack = haystack_lines();
    let context = vector_grep(&haystack, "book", 2);
    TrainerReport { quote, numbered, arrays, haystack, context }
}

} // verus!
