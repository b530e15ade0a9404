use grep_lite::demo::{arrays, haystack_lines, no_input_grep, quote_lines, summarize_array, trainer};
use grep_lite::matching::{contains_flags, pattern_flags, Pattern};
use grep_lite::render::{push_decimal, render_tags};
use grep_lite::search::{basic_grep, grep_lines, measure_lines, pattern_grep};

fn lines_of(texts: &[&str]) -> Vec<String> {
    texts.iter().map(|t| t.to_string()).collect()
}

#[test]
fn tags_render_in_brackets() {
    assert_eq!(render_tags(&vec![1, 4]), "[1, 4]");
    assert_eq!(render_tags(&vec![]), "[]");
    assert_eq!(render_tags(&vec![7]), "[7]");
    assert_eq!(render_tags(&vec![0, 10, 123, 4096]), "[0, 10, 123, 4096]");
}

#[test]
fn decimal_appends_digits() {
    let mut s = String::from("n=");
    push_decimal(&mut s, 18446744073709551615);
    assert_eq!(s, "n=18446744073709551615");
}

#[test]
fn literal_flags_follow_containment() {
    let lines = lines_of(&["abc", "", "xbcx", "b c"]);
    assert_eq!(contains_flags(&lines, "bc"), vec![true, false, true, false]);
    assert_eq!(contains_flags(&lines, ""), vec![true, true, true, true]);
}

#[test]
fn basic_grep_numbers_from_one() {
    let quote = quote_lines();
    let r = basic_grep(&quote, "picture");
    assert_eq!(
        r,
        vec![(2, "dark square is a picture feverishly turned--in search of what?".to_string())]
    );
}

#[test]
fn pattern_selects_matching_lines() {
    let lines = lines_of(&["cat", "dog", "concat", "cot"]);
    let p = Pattern::new("c[ao]t").unwrap();
    assert_eq!(p.as_str(), "c[ao]t");
    assert_eq!(pattern_flags(&lines, &p), vec![true, false, true, true]);
    assert_eq!(grep_lines(&p, &lines), lines_of(&["cat", "concat", "cot"]));
    let anchored = Pattern::new("^c.t$").unwrap();
    assert_eq!(grep_lines(&anchored, &lines), lines_of(&["cat", "cot"]));
}

#[test]
fn invalid_pattern_is_rejected() {
    let lines = lines_of(&["a"]);
    let e = pattern_grep("foo(bar", &lines).unwrap_err();
    assert_eq!(e.pattern, "foo(bar");
    assert!(!e.message.is_empty());
    assert!(Pattern::new("[").is_err());
}

#[test]
fn regex_on_the_quote() {
    assert_eq!(
        no_input_grep().unwrap(),
        vec!["dark square is a picture feverishly turned--in search of what?".to_string()]
    );
    let r = pattern_grep("^It|^Every", &quote_lines()).unwrap();
    assert_eq!(r.len(), 2);
}

#[test]
fn lines_are_measured_in_bytes() {
    let lines = lines_of(&["abc", "", "é", "日本"]);
    let r = measure_lines(&lines);
    let lengths: Vec<usize> = r.iter().map(|e| e.1).collect();
    assert_eq!(lengths, vec![3, 0, 2, 6]);
    assert_eq!(r[3].0, "日本");
}

#[test]
fn array_summaries() {
    let s = summarize_array([200, 255, 7]);
    assert_eq!(s.shifted, [210, 265, 17]);
    assert_eq!(s.sum, 462);
    let all = arrays();
    assert_eq!(all.len(), 4);
    assert_eq!(all[0].values, [1, 2, 3]);
    assert_eq!(all[0].shifted, [11, 12, 13]);
    assert_eq!(all[0].sum, 6);
    assert_eq!(all[3].values, [0, 0, 0]);
    assert_eq!(all[3].shifted, [10, 10, 10]);
    assert_eq!(all[3].sum, 0);
}

#[test]
fn walk_through_on_samples() {
    let r = trainer();
    assert_eq!(r.quote.len(), 3);
    assert_eq!(r.numbered.len(), 1);
    assert_eq!(r.numbered[0].0, 2);
    assert_eq!(r.haystack, haystack_lines());
    assert_eq!(r.context.tags, vec![4]);
    let indices: Vec<usize> = r.context.groups[0].iter().map(|e| e.0).collect();
    assert_eq!(indices, vec![2, 3, 4, 5, 6]);
    assert_eq!(r.context.groups[0][2].1, "It is the same with books.");
    assert_eq!(render_tags(&r.context.tags), "[4]");
}
