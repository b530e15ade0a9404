use grep_lite::context::{context_groups, extract_context, match_tags, window_lines};
use grep_lite::matching::{LineMatcher, Pattern};
use grep_lite::search::{context_search, vector_grep};

fn lines_of(texts: &[&str]) -> Vec<String> {
    texts.iter().map(|t| t.to_string()).collect()
}

fn entry(i: usize, text: &str) -> (usize, String) {
    (i, text.to_string())
}

#[test]
fn zero_radius_groups_hold_only_the_match() {
    let lines = lines_of(&["a picture", "plain", "another picture"]);
    let r = vector_grep(&lines, "picture", 0);
    assert_eq!(r.tags, vec![0, 2]);
    assert_eq!(
        r.groups,
        vec![vec![entry(0, "a picture")], vec![entry(2, "another picture")]]
    );
}

#[test]
fn overlapping_windows_each_own_a_full_group() {
    let lines = lines_of(&["x", "book here", "y", "z", "books too", "w"]);
    let r = vector_grep(&lines, "book", 2);
    assert_eq!(r.tags, vec![1, 4]);
    assert_eq!(
        r.groups[0],
        vec![entry(0, "x"), entry(1, "book here"), entry(2, "y"), entry(3, "z")]
    );
    assert_eq!(
        r.groups[1],
        vec![entry(2, "y"), entry(3, "z"), entry(4, "books too"), entry(5, "w")]
    );
}

#[test]
fn no_match_gives_no_tags_and_no_groups() {
    let lines = lines_of(&["alpha", "beta", "gamma"]);
    let r = vector_grep(&lines, "delta", 3);
    assert!(r.tags.is_empty());
    assert!(r.groups.is_empty());
}

#[test]
fn empty_input_gives_nothing() {
    let r = vector_grep(&Vec::new(), "x", 1);
    assert!(r.tags.is_empty());
    assert!(r.groups.is_empty());
}

#[test]
fn low_end_clamps_to_zero() {
    let lines = lines_of(&["a", "b", "c", "d", "e", "f", "g", "h", "i"]);
    let group = window_lines(&lines, 2, 5);
    let indices: Vec<usize> = group.iter().map(|e| e.0).collect();
    assert_eq!(indices, vec![0, 1, 2, 3, 4, 5, 6, 7]);
}

#[test]
fn huge_radius_takes_every_line() {
    let lines = lines_of(&["a", "b", "c"]);
    let group = window_lines(&lines, 1, usize::MAX);
    assert_eq!(group, vec![entry(0, "a"), entry(1, "b"), entry(2, "c")]);
}

#[test]
fn tag_beyond_input_gives_empty_group() {
    let lines = lines_of(&["a", "b"]);
    assert!(window_lines(&lines, 10, 3).is_empty());
    assert_eq!(window_lines(&lines, 4, 3), vec![entry(1, "b")]);
}

#[test]
fn tags_are_exactly_the_flagged_indices() {
    let flags = vec![false, true, true, false, true, false];
    assert_eq!(match_tags(&flags), vec![1, 2, 4]);
    assert!(match_tags(&vec![false, false]).is_empty());
}

#[test]
fn one_group_per_tag_in_tag_order() {
    let lines = lines_of(&["m", "n", "m", "n", "m"]);
    let tags = vec![0, 2, 4];
    let groups = context_groups(&lines, &tags, 1);
    assert_eq!(groups.len(), 3);
    assert_eq!(groups[0], vec![entry(0, "m"), entry(1, "n")]);
    assert_eq!(groups[1], vec![entry(1, "n"), entry(2, "m"), entry(3, "n")]);
    assert_eq!(groups[2], vec![entry(3, "n"), entry(4, "m")]);
}

#[test]
fn group_entries_lie_in_window_and_ascend() {
    let lines = lines_of(&["k", "x", "k", "x", "x", "x", "k", "x"]);
    let flags: Vec<bool> = lines.iter().map(|l| l == "k").collect();
    let radius = 2;
    let r = extract_context(&lines, &flags, radius);
    assert_eq!(r.tags, vec![0, 2, 6]);
    for (j, group) in r.groups.iter().enumerate() {
        let tag = r.tags[j];
        for (idx, text) in group {
            assert!(tag.saturating_sub(radius) <= *idx && *idx <= tag + radius);
            assert_eq!(&lines[*idx], text);
        }
        for pair in group.windows(2) {
            assert!(pair[0].0 < pair[1].0);
        }
    }
}

#[test]
fn identical_windows_are_not_merged() {
    let lines = lines_of(&["hit", "hit"]);
    let r = vector_grep(&lines, "hit", 5);
    assert_eq!(r.tags, vec![0, 1]);
    assert_eq!(r.groups[0], r.groups[1]);
    assert_eq!(r.groups[0], vec![entry(0, "hit"), entry(1, "hit")]);
}

#[test]
fn one_predicate_for_literal_and_regex() {
    let lines = lines_of(&["a picture", "plain", "another picture", "pictures"]);
    let literal = LineMatcher::Literal("picture".to_string());
    assert!(literal.is_match("picture frame"));
    assert!(!literal.is_match("pic ture"));
    let by_literal = context_search(&lines, &literal, 1);
    assert_eq!(by_literal.tags, vec![0, 2, 3]);
    assert_eq!(by_literal.groups[1], vec![entry(1, "plain"), entry(2, "another picture"), entry(3, "pictures")]);
    let regex = LineMatcher::Regex(Pattern::new("picture$").unwrap());
    assert!(regex.is_match("a picture"));
    assert!(!regex.is_match("pictures"));
    let by_regex = context_search(&lines, &regex, 0);
    assert_eq!(by_regex.tags, vec![0, 2]);
    assert_eq!(by_regex.groups, vec![vec![entry(0, "a picture")], vec![entry(2, "another picture")]]);
}
