use minigrep::config::{run_search, Config};
use minigrep::search::{search, search_case_insensitive};
use minigrep::text::{chars_of, contains_query, split_lines};

fn get_contents() -> &'static str {
    "\
Rust
safe, fast, productive.
Pick three."
}

#[test]
fn case_sensitive() {
    assert_eq!(vec!["Pick three."], search("Pick", get_contents()));
    assert_eq!(vec![] as Vec<&str>, search("pick", get_contents()));
}

#[test]
fn case_insensitive() {
    assert_eq!(
        vec!["Pick three."],
        search_case_insensitive("Pick", get_contents())
    );
    assert_eq!(
        vec!["Pick three."],
        search_case_insensitive("pick", get_contents())
    );
}

#[test]
fn empty_query_returns_every_line() {
    let all = vec!["Rust", "safe, fast, productive.", "Pick three."];
    assert_eq!(all, search("", get_contents()));
    assert_eq!(all, search_case_insensitive("", get_contents()));
}

#[test]
fn matches_keep_line_order() {
    let contents = "one duck\ntwo\nthree ducks\nduck four\n";
    assert_eq!(
        vec!["one duck", "three ducks", "duck four"],
        search("duck", contents)
    );
    assert_eq!(
        vec!["one duck", "three ducks", "duck four"],
        search_case_insensitive("DUCK", contents)
    );
}

#[test]
fn repeated_search_gives_same_result() {
    let first = search("fast", get_contents());
    let second = search("fast", get_contents());
    assert_eq!(first, second);
    assert_eq!(vec!["safe, fast, productive."], first);
    let first = search_case_insensitive("RUST", get_contents());
    let second = search_case_insensitive("RUST", get_contents());
    assert_eq!(first, second);
    assert_eq!(vec!["Rust"], first);
}

#[test]
fn case_insensitive_keeps_original_casing() {
    let contents = "Grüße AUS Köln\nnichts\nKÖLN";
    assert_eq!(
        vec!["Grüße AUS Köln", "KÖLN"],
        search_case_insensitive("köln", contents)
    );
    assert_eq!(vec!["Grüße AUS Köln"], search("Köln", contents));
}

#[test]
fn no_match_gives_empty() {
    assert!(search("xyz", get_contents()).is_empty());
    assert!(search_case_insensitive("XYZ", get_contents()).is_empty());
    assert!(search("Rust", "").is_empty());
}

#[test]
fn split_lines_drops_final_newline() {
    assert_eq!(vec!["a", "b"], split_lines("a\nb\n"));
    assert_eq!(vec!["a", "b"], split_lines("a\nb"));
    assert!(split_lines("").is_empty());
    assert_eq!(vec![""], split_lines("\n"));
    assert_eq!(vec!["", "", "x"], split_lines("\n\nx"));
}

#[test]
fn split_lines_handles_carriage_returns() {
    assert_eq!(vec!["a", "b"], split_lines("a\r\nb\r\n"));
    assert_eq!(vec!["a", "b\r"], split_lines("a\r\nb\r"));
    assert_eq!(vec!["a\rb"], split_lines("a\rb"));
    assert_eq!(vec![""], split_lines("\r\n"));
}

#[test]
fn contains_query_is_substring_test() {
    assert!(contains_query("productive", "duct"));
    assert!(contains_query("abc", ""));
    assert!(contains_query("", ""));
    assert!(!contains_query("", "a"));
    assert!(!contains_query("ab", "abc"));
    assert!(!contains_query("Pick", "pick"));
    assert!(contains_query("aaab", "aab"));
    assert!(contains_query("Köln", "öl"));
}

#[test]
fn chars_of_keeps_every_character() {
    assert_eq!(vec!['K', 'ö', 'l', 'n'], chars_of("Köln"));
    assert!(chars_of("").is_empty());
}

fn args(items: &[&str]) -> Vec<String> {
    items.iter().map(|s| s.to_string()).collect()
}

#[test]
fn config_without_filename_fails() {
    let r = Config::new(&args(&["minigrep", "Pick"]), false);
    assert_eq!(Some("No filename supplied"), r.err());
}

#[test]
fn config_without_query_fails() {
    assert_eq!(
        Some("No query supplied"),
        Config::new(&args(&["minigrep"]), false).err()
    );
    assert_eq!(Some("No query supplied"), Config::new(&[], true).err());
}

#[test]
fn config_takes_query_and_filename() {
    let c = Config::new(&args(&["minigrep", "Pick", "poem.txt", "extra"]), true).ok().unwrap();
    assert_eq!("Pick", c.query);
    assert_eq!("poem.txt", c.filename);
    assert!(c.case_insensitive);
    let c = Config::new(&args(&["minigrep", "Pick", "poem.txt"]), false).ok().unwrap();
    assert!(!c.case_insensitive);
}

#[test]
fn run_search_follows_the_mode() {
    let sensitive = Config::new(&args(&["minigrep", "pick", "poem.txt"]), false).ok().unwrap();
    assert!(run_search(&sensitive, get_contents()).is_empty());
    let insensitive = Config::new(&args(&["minigrep", "pick", "poem.txt"]), true).ok().unwrap();
    assert_eq!(vec!["Pick three."], run_search(&insensitive, get_contents()));
}
