//! Context-window extraction: tag the lines that match, then gather for each
//! tag the lines that lie within a radius of it.
use vstd::prelude::*;

verus! {

/// The indices `i` with `flags[i]` set, in ascending order.
pub open spec fn matching_indices(flags: Seq<bool>) -> Seq<int>
    decreases flags.len(),
{
    if flags.len() == 0 {
        Seq::empty()
    } else {
        let rest = matching_indices(flags.drop_last());
        if flags.last() {
            rest.push(flags.len() - 1)
        } else {
            rest
        }
    }
}

/// A tag list seen as mathematical integers.
pub open spec fn tags_view(tags: Seq<usize>) -> Seq<int> {
    tags.map_values(|t: usize| t as int)
}

/// Lowest index of the window around `tag`: `tag - radius`, clamped at zero.
pub open spec fn window_low(tag: int, radius: int) -> int {
    if tag - radius < 0 {
        0
    } else {
        tag - radius
    }
}

/// Whether index `i` lies in the closed window `[max(0, tag - radius), tag + radius]`.
pub open spec fn in_window(i: int, tag: int, radius: int) -> bool {
    window_low(tag, radius) <= i <= tag + radius
}

/// Number of input lines that fall inside the window of `tag`.
pub open spec fn window_count(n_lines: int, tag: int, radius: int) -> int {
    let lo = window_low(tag, radius);
    let hi = if tag + radius + 1 < n_lines {
        tag + radius + 1
    } else {
        n_lines
    };
    if lo < hi {
        hi - lo
    } else {
        0
    }
}

/// The context group of `tag`: every line whose index lies in the window of
/// `tag`, paired with that index, in ascending index order.
pub open spec fn window_group(lines: Seq<String>, tag: int, radius: int) -> Seq<(usize, String)> {
    let lo = window_low(tag, radius);
    Seq::new(
        window_count(lines.len() as int, tag, radius) as nat,
        |k: int| ((lo + k) as usize, lines[lo + k]),
    )
}

/// Pass one: the indices of the set flags, in ascending order.
pub fn match_tags(flags: &Vec<bool>) -> (tags: Vec<usize>)
    ensures
        tags_view(tags@) == matching_indices(flags@),
{
    let mut tags: Vec<usize> = Vec::new();
    let n = flags.len();
    for i in 0..n
        invariant
            n == flags.len(),
            tags_view(tags@) == matching_indices(flags@.take(i as int)),
    {
        proof {
            assert(flags@.take(i as int + 1).drop_last() == flags@.take(i as int));
        }
        if flags[i] {
            tags.push(i);
            proof {
                assert(tags_view(tags@) == tags_view(tags@.drop_last()).push(i as int));
            }
        }
    }
    proof {
        assert(flags@.take(n as int) == flags@);
    }
    tags
}

/// Pass two for one tag: every line within `radius` of `tag`, with its index.
pub fn window_lines(lines: &Vec<String>, tag: usize, radius: usize) -> (group: Vec<(usize, String)>)
    ensures
        group@ == window_group(lines@, tag as int, radius as int),
{
    let mut group: Vec<(usize, String)> = Vec::new();
    let lower_bound = tag.saturating_sub(radius);
    let n = lines.len();
    for i in 0..n
        invariant
            n == lines.len(),
            lower_bound == window_low(tag as int, radius as int),
            group@ == window_group(lines@.take(i as int), tag as int, radius as int),
    {
        if lower_bound <= i && (i <= tag || i - tag <= radius) {
            group.push((i, lines[i].clone()));
        }
        assert(group@ =~= window_group(lines@.take(i as int + 1), tag as int, radius as int));
    }
    assert(lines@.take(n as int) =~= lines@);
    group
}

/// Pass two: one context group per tag, in tag order. Windows of nearby
/// tags may overlap; each tag still owns a complete group of its own.
pub fn context_groups(lines: &Vec<String>, tags: &Vec<usize>, radius: usize) -> (groups: Vec<
    Vec<(usize, String)>,
>)
    ensures
        groups.len() == tags.len(),
        forall|j: int|
            0 <= j < tags.len() ==> #[trigger] groups[j]@ == window_group(
                lines@,
                tags[j] as int,
                radius as int,
            ),
{
    let mut groups: Vec<Vec<(usize, String)>> = Vec::new();
    let m = tags.len();
    for j in 0..m
        invariant
            m == tags.len(),
            groups.len() == j,
            forall|k: int|
                0 <= k < j ==> #[trigger] groups[k]@ == window_group(
                    lines@,
                    tags[k] as int,
                    radius as int,
                ),
    {
        groups.push(window_lines(lines, tags[j], radius));
    }
    groups
}

/// The outcome of a context search: the tags (indices of the matching
/// lines) and, for each tag in the same order, its context group.
#[derive(Debug)]
pub struct ContextMatches {
    pub tags: Vec<usize>,
    pub groups: Vec<Vec<(usize, String)>>,
}

/// What a context search over `lines` with match flags `flags` yields:
/// the tags are exactly the flagged indices, ascending, and group `j` is the
/// window group of tag `j`.
pub open spec fn is_context_of(
    r: ContextMatches,
    lines: Seq<String>,
    flags: Seq<bool>,
    radius: int,
) -> bool {
    &&& tags_view(r.tags@) == matching_indices(flags)
    &&& r.groups.len() == r.tags.len()
    &&& forall|j: int|
        0 <= j < r.tags.len() ==> #[trigger] r.groups[j]@ == window_group(
            lines,
            r.tags[j] as int,
            radius,
        )
}

/// Both passes over `lines`, where `flags[i]` tells whether line `i` matches.
/// When no line matches, the second pass is skipped.
pub fn extract_context(lines: &Vec<String>, flags: &Vec<bool>, radius: usize) -> (r:
    ContextMatches)
    requires
        flags.len() == lines.len(),
    ensures
        is_context_of(r, lines@, flags@, radius as int),
{
    let tags = match_tags(flags);
    if tags.len() == 0 {
        return ContextMatches { tags, groups: Vec::new() };
    }
    let groups = context_groups(lines, &tags, radius);
    ContextMatches { tags, groups }
}

/// Every element of `matching_indices(flags)` is a flagged index, and the
/// elements ascend strictly.
pub proof fn lemma_matching_indices_sorted(flags: Seq<bool>)
    ensures
        forall|k: int|
            0 <= k < matching_indices(flags).len() ==> {
                let i = #[trigger] matching_indices(flags)[k];
                0 <= i < flags.len() && flags[i]
            },
        forall|a: int, b: int|
            0 <= a < b < matching_indices(flags).len() ==> matching_indices(flags)[a]
                < matching_indices(flags)[b],
    decreases flags.len(),
{
    if flags.len() > 0 {
        let front = flags.drop_last();
        lemma_matching_indices_sorted(front);
        let rest = matching_indices(front);
        let all = matching_indices(flags);
        assert forall|k: int| 0 <= k < rest.len() implies rest[k] < flags.len() - 1 && flags[rest[k]] by {
            assert(front[rest[k]] == flags[rest[k]]);
        }
        if flags.last() {
            assert(all == rest.push(flags.len() - 1));
            assert forall|k: int| 0 <= k < all.len() implies {
                let i = #[trigger] all[k];
                0 <= i < flags.len() && flags[i]
            } by {
                if k < rest.len() {
                    assert(all[k] == rest[k]);
                }
            }
            assert forall|a: int, b: int| 0 <= a < b < all.len() implies all[a] < all[b] by {
                assert(all[a] == rest[a]);
                if b < rest.len() {
                    assert(all[b] == rest[b]);
                }
            }
        } else {
            assert(all == rest);
        }
    }
}

/// Every flagged index occurs in `matching_indices(flags)`.
pub proof fn lemma_matching_indices_complete(flags: Seq<bool>, i: int)
    requires
        0 <= i < flags.len(),
        flags[i],
    ensures
        matching_indices(flags).contains(i),
    decreases flags.len(),
{
    let rest = matching_indices(flags.drop_last());
    if i == flags.len() - 1 {
        assert(matching_indices(flags).last() == i);
    } else {
        lemma_matching_indices_complete(flags.drop_last(), i);
        let k = choose|k: int| 0 <= k < rest.len() && rest[k] == i;
        assert(matching_indices(flags)[k] == i);
    }
}

/// Tag completeness: the set of tags is exactly the set of indices of the
/// lines that match, and the tags ascend strictly, so none repeats.
pub proof fn law_tags_are_the_matches(r: ContextMatches, lines: Seq<String>, flags: Seq<bool>, radius: int)
    requires
        is_context_of(r, lines, flags, radius),
    ensures
        tags_view(r.tags@).to_set() == Set::new(|i: int| 0 <= i < flags.len() && flags[i]),
        forall|a: int, b: int| 0 <= a < b < r.tags.len() ==> r.tags[a] < r.tags[b],
{
    let t = tags_view(r.tags@);
    lemma_matching_indices_sorted(flags);
    assert forall|i: int| t.to_set().contains(i) <==> (0 <= i < flags.len() && flags[i]) by {
        if 0 <= i < flags.len() && flags[i] {
            lemma_matching_indices_complete(flags, i);
        }
        if t.to_set().contains(i) {
            let k = choose|k: int| 0 <= k < t.len() && t[k] == i;
            assert(matching_indices(flags)[k] == i);
        }
    }
    assert(t.to_set() =~= Set::new(|i: int| 0 <= i < flags.len() && flags[i]));
    assert forall|a: int, b: int| 0 <= a < b < r.tags.len() implies r.tags[a] < r.tags[b] by {
        assert(t[a] == r.tags[a] as int && t[b] == r.tags[b] as int);
    }
}

/// Group count: there is one group per tag, so the groups are empty exactly
/// when no line matches.
pub proof fn law_one_group_per_tag(r: ContextMatches, lines: Seq<String>, flags: Seq<bool>, radius: int)
    requires
        is_context_of(r, lines, flags, radius),
    ensures
        r.groups.len() == r.tags.len(),
        r.groups.len() == 0 <==> !(exists|i: int| 0 <= i < flags.len() && flags[i]),
{
    if exists|i: int| 0 <= i < flags.len() && flags[i] {
        let i = choose|i: int| 0 <= i < flags.len() && flags[i];
        lemma_matching_indices_complete(flags, i);
        assert(tags_view(r.tags@).len() > 0);
    } else if r.tags.len() > 0 {
        lemma_matching_indices_sorted(flags);
        assert(matching_indices(flags)[0] == r.tags[0] as int);
    }
}

/// Window containment: each entry of the group of tag `j` has an index inside
/// that tag's window and within the input, and carries that line's text.
pub proof fn law_entries_lie_in_window(r: ContextMatches, lines: Seq<String>, flags: Seq<bool>, radius: int, j: int, k: int)
    requires
        radius >= 0,
        lines.len() <= usize::MAX,
        is_context_of(r, lines, flags, radius),
        0 <= j < r.groups.len(),
        0 <= k < r.groups[j].len(),
    ensures
        in_window(r.groups[j][k].0 as int, r.tags[j] as int, radius),
        (r.groups[j][k].0 as int) < lines.len(),
        lines[r.groups[j][k].0 as int] == r.groups[j][k].1,
{
    assert(r.groups[j]@ == window_group(lines, r.tags[j] as int, radius));
    assert(r.groups[j]@[k] == r.groups[j][k]);
}

/// Group completeness: every input line whose index lies in the window of
/// tag `j` occurs in the group of tag `j`, paired with its index.
pub proof fn law_window_lines_all_present(r: ContextMatches, lines: Seq<String>, flags: Seq<bool>, radius: int, j: int, i: int)
    requires
        radius >= 0,
        lines.len() <= usize::MAX,
        is_context_of(r, lines, flags, radius),
        0 <= j < r.groups.len(),
        0 <= i < lines.len(),
        in_window(i, r.tags[j] as int, radius),
    ensures
        r.groups[j]@.contains((i as usize, lines[i])),
{
    assert(r.groups[j]@ == window_group(lines, r.tags[j] as int, radius));
    let k = i - window_low(r.tags[j] as int, radius);
    assert(r.groups[j]@[k] == (i as usize, lines[i]));
}

/// Group order: within each group the indices ascend strictly, so no index
/// occurs twice in one group.
pub proof fn law_group_indices_ascend(r: ContextMatches, lines: Seq<String>, flags: Seq<bool>, radius: int, j: int, a: int, b: int)
    requires
        radius >= 0,
        lines.len() <= usize::MAX,
        is_context_of(r, lines, flags, radius),
        0 <= j < r.groups.len(),
        0 <= a < b < r.groups[j].len(),
    ensures
        r.groups[j][a].0 < r.groups[j][b].0,
{
    assert(r.groups[j]@ == window_group(lines, r.tags[j] as int, radius));
    assert(r.groups[j]@[a] == r.groups[j][a]);
    assert(r.groups[j]@[b] == r.groups[j][b]);
}

/// Clamping at the start: when the radius reaches past index zero, the
/// window starts at zero (it never wraps round) and the group starts with
/// the first line.
pub proof fn law_low_end_clamps(lines: Seq<String>, tag: int, radius: int)
    requires
        0 <= tag <= radius,
        lines.len() > 0,
    ensures
        window_low(tag, radius) == 0,
        window_group(lines, tag, radius).len() > 0,
        window_group(lines, tag, radius)[0] == (0usize, lines[0]),
{
}

} // verus!
