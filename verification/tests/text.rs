use mass_rs::endpoint::strip_query_and_fragment;
use mass_rs::text::{split_fields, trim_leading, trim_trailing};

#[test]
fn split_fields_matches_the_standard_split() {
    for s in ["", ":", "a", "a:b", "k:t:s", "::", ":a::b:", "é:ü", "a:b:c:d"] {
        let expected: Vec<&str> = s.split(':').collect();
        assert_eq!(split_fields(s, ':'), expected);
    }
    assert_eq!(split_fields("k:t:s", ':'), vec!["k", "t", "s"]);
    assert_eq!(split_fields("::", ':'), vec!["", "", ""]);
    assert_eq!(split_fields("", ':'), vec![""]);
}

#[test]
fn trim_trailing_removes_the_whole_run() {
    assert_eq!(trim_trailing("http://h/", '/'), "http://h");
    assert_eq!(trim_trailing("http://h///", '/'), "http://h");
    assert_eq!(trim_trailing("http://h", '/'), "http://h");
    assert_eq!(trim_trailing("/a/b", '/'), "/a/b");
    assert_eq!(trim_trailing("////", '/'), "");
    assert_eq!(trim_trailing("", '/'), "");
    assert_eq!(trim_trailing("é/ü//", '/'), "é/ü");
}

#[test]
fn trim_leading_removes_the_whole_run() {
    assert_eq!(trim_leading("/machines/", '/'), "machines/");
    assert_eq!(trim_leading("///machines/", '/'), "machines/");
    assert_eq!(trim_leading("machines/", '/'), "machines/");
    assert_eq!(trim_leading("////", '/'), "");
    assert_eq!(trim_leading("", '/'), "");
    assert_eq!(trim_leading("//é/ü", '/'), "é/ü");
}

#[test]
fn strip_stops_at_the_first_mark() {
    assert_eq!(strip_query_and_fragment("http://h/a?b=c#d"), "http://h/a");
    assert_eq!(strip_query_and_fragment("http://h/a#d?b"), "http://h/a");
    assert_eq!(strip_query_and_fragment("http://h/a"), "http://h/a");
    assert_eq!(strip_query_and_fragment("?x"), "");
    assert_eq!(strip_query_and_fragment(""), "");
    assert_eq!(strip_query_and_fragment("http://h/é?ü"), "http://h/é");
}
