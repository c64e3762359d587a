use memcards::text::{
    contains_str, find_char, query_param_str, rfind_char, split_lines_str, split_on_char,
    starts_with_str, str_eq, strip_prefix_all_str, to_lowercase_str, trim_str, usize_to_string,
};

#[test]
fn find_first_and_last_char() {
    assert_eq!(find_char("a:b:c", ':'), Some(1));
    assert_eq!(find_char("abc", ':'), None);
    assert_eq!(rfind_char("a:b:c", ':'), Some(3));
    assert_eq!(rfind_char("abc", ':'), None);
}

#[test]
fn string_equality_and_prefixes() {
    assert!(str_eq("hello", "hello"));
    assert!(!str_eq("hello", "hell"));
    assert!(starts_with_str("Bearer abc", "Bearer "));
    assert!(!starts_with_str("Basic abc", "Bearer "));
}

#[test]
fn substring_search() {
    assert!(contains_str("please reveal now", "reveal"));
    assert!(!contains_str("nothing here", "reveal"));
    assert!(contains_str("anything", ""));
}

#[test]
fn trimming() {
    assert_eq!(trim_str("  spaced  "), "spaced");
    assert_eq!(trim_str("\t\n"), "");
    assert_eq!(trim_str("solid"), "solid");
}

#[test]
fn splitting_on_char() {
    let parts = split_on_char("a,b,,c", ',');
    let views: Vec<&str> = parts.iter().map(|s| s.as_str()).collect();
    assert_eq!(views, vec!["a", "b", "", "c"]);
    let single = split_on_char("abc", ',');
    assert_eq!(single.len(), 1);
    assert_eq!(single[0], "abc");
}

#[test]
fn splitting_lines() {
    let lines = split_lines_str("one\r\ntwo\nthree\n");
    let views: Vec<&str> = lines.iter().map(|s| s.as_str()).collect();
    assert_eq!(views, vec!["one", "two", "three"]);
    assert!(split_lines_str("").is_empty());
}

#[test]
fn query_parameters() {
    assert_eq!(query_param_str("a=1&b=2", "b").as_deref(), Some("2"));
    assert_eq!(query_param_str("a=1&b=2", "a").as_deref(), Some("1"));
    assert_eq!(query_param_str("a=1&a=2", "a").as_deref(), Some("1"));
    assert_eq!(query_param_str("a=x=y", "a").as_deref(), Some("x=y"));
    assert_eq!(query_param_str("plain&b=2", "plain"), None);
    assert_eq!(query_param_str("a=1", "c"), None);
}

#[test]
fn lowercasing_and_numbers() {
    assert_eq!(to_lowercase_str("ReVeAl"), "reveal");
    assert_eq!(usize_to_string(0), "0");
    assert_eq!(usize_to_string(7), "7");
    assert_eq!(usize_to_string(105), "105");
}

#[test]
fn prefix_stripping() {
    assert_eq!(strip_prefix_all_str("#sep:#sep:tab", "#sep:"), "tab");
    assert_eq!(strip_prefix_all_str("plain", "#sep:"), "plain");
}
