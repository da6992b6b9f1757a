use rustgrep::{search, search_case_insensitive, try_search, SearchError};

#[test]
fn case_sensitive() {
    let query = "duct";
    let contents = "\
Rust:
safe, fast, productive.
Pick three.
Duct tape.";
    assert_eq!(vec!["safe, fast, productive."], search(&query, contents));
}

#[test]
fn case_insensitive() {
    let query = "rUst";
    let contents = "\
Rust:
safe, fast, productive.
Pick three.
Trust me.";
    assert_eq!(
        vec!["Rust:", "Trust me."],
        search_case_insensitive(&query, contents)
    );
}

#[test]
fn search_twice_same_result() {
    let query = "st";
    let contents = "Rust:\nsafe, fast, productive.\nPick three.\nTrust me.";
    assert_eq!(search(query, contents), search(query, contents));
}

#[test]
fn case_insensitive_superset_of_sensitive() {
    let query = "rUst";
    let contents = "Rust:\nsafe, fast, productive.\nPick three.\nTrust me.";
    let sensitive = search(query, contents);
    let insensitive = search_case_insensitive(query, contents);
    for line in &sensitive {
        assert!(insensitive.contains(line));
    }
    assert!(sensitive.len() <= insensitive.len());
}

#[test]
fn empty_contents_empty_result() {
    let empty: Vec<&str> = Vec::new();
    assert_eq!(empty, search("anything", ""));
    assert_eq!(empty, search_case_insensitive("anything", ""));
}

#[test]
fn no_matching_line_empty_result() {
    let empty: Vec<&str> = Vec::new();
    assert_eq!(empty, search("zebra", "one line\nanother line"));
}

#[test]
fn full_regex_syntax_is_accepted() {
    let contents = "Rust:\nsafe, fast, productive.\nPick three.\nDuct tape.";
    assert_eq!(
        vec!["safe, fast, productive."],
        search("s.*f[au]st", contents)
    );
    assert_eq!(
        vec!["safe, fast, productive.", "Pick three.", "Duct tape."],
        search("e\\.$", contents)
    );
}

#[test]
fn match_is_not_anchored() {
    assert_eq!(vec!["abcde"], search("cd", "abcde\nxyz"));
}

#[test]
fn try_search_rejects_invalid_pattern() {
    assert_eq!(
        Err(SearchError::InvalidPattern),
        try_search("foo(bar", "some contents")
    );
}

#[test]
fn try_search_ok_on_valid_pattern() {
    let r = try_search("three", "Pick three.\nDuct tape.").unwrap();
    assert_eq!(vec!["Pick three."], r);
}
