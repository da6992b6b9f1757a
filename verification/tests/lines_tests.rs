use rustgrep::{run, search, split_lines_exec, try_search_case_insensitive, Config, SearchError};

#[test]
fn trailing_newline_adds_no_empty_line() {
    assert_eq!(vec!["a", "b"], split_lines_exec("a\nb\n"));
}

#[test]
fn empty_contents_have_no_lines() {
    let empty: Vec<&str> = Vec::new();
    assert_eq!(empty, split_lines_exec(""));
}

#[test]
fn inner_empty_lines_are_kept() {
    assert_eq!(vec!["a", "", "b"], split_lines_exec("a\n\nb"));
}

#[test]
fn carriage_return_is_not_stripped() {
    assert_eq!(vec!["a\r", "b"], split_lines_exec("a\r\nb"));
    // A line kept its carriage return, so a pattern anchored at the end
    // sees it.
    let empty: Vec<&str> = Vec::new();
    assert_eq!(empty, search("a$", "a\r\nb"));
}

#[test]
fn search_via_lines_matches_every_line_of_all_pattern() {
    assert_eq!(vec!["one", "two", "three"], search("", "one\ntwo\nthree\n"));
}

#[test]
fn run_picks_case_sensitivity_from_config() {
    let contents = "Rust:\nsafe, fast, productive.\nPick three.\nTrust me.";
    let sensitive = Config {
        query: String::from("rUst"),
        file_path: String::from("unused"),
        ignore_case: false,
    };
    let insensitive = Config {
        query: String::from("rUst"),
        file_path: String::from("unused"),
        ignore_case: true,
    };
    let empty: Vec<&str> = Vec::new();
    assert_eq!(Ok(empty), run(&sensitive, contents));
    assert_eq!(Ok(vec!["Rust:", "Trust me."]), run(&insensitive, contents));
}

#[test]
fn run_reports_invalid_pattern() {
    let config = Config {
        query: String::from("foo(bar"),
        file_path: String::from("unused"),
        ignore_case: false,
    };
    assert_eq!(Err(SearchError::InvalidPattern), run(&config, "contents"));
}

#[test]
fn case_insensitive_checked_form() {
    let r = try_search_case_insensitive("RUST", "Rust:\nTrust me.\nnothing").unwrap();
    assert_eq!(vec!["Rust:", "Trust me."], r);
    assert_eq!(
        Err(SearchError::InvalidPattern),
        try_search_case_insensitive("foo(bar", "contents")
    );
}
