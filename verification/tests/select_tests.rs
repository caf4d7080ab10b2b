use context_budget::error::ErrorKind;
use context_budget::select::{normalize_path, split_glob, Selector};

fn globs(items: &[&str]) -> Vec<String> {
    items.iter().map(|item| item.to_string()).collect()
}

#[test]
fn a_leading_mark_makes_an_exclusion() {
    assert_eq!(split_glob("*.rs"), (false, "*.rs"));
    assert_eq!(split_glob("!target/**"), (true, "target/**"));
    assert_eq!(split_glob("!"), (true, ""));
    assert_eq!(split_glob(""), (false, ""));
    assert_eq!(split_glob("a!b"), (false, "a!b"));
    assert_eq!(split_glob("!!x"), (true, "!x"));
    assert_eq!(split_glob("!\u{e9}t\u{e9}"), (true, "\u{e9}t\u{e9}"));
}

#[test]
fn one_leading_dot_slash_is_stripped() {
    assert_eq!(normalize_path("./src/main.rs"), "src/main.rs");
    assert_eq!(normalize_path("src/main.rs"), "src/main.rs");
    assert_eq!(normalize_path("././a"), "./a");
    assert_eq!(normalize_path("./"), "");
    assert_eq!(normalize_path("."), ".");
    assert_eq!(normalize_path(""), "");
    assert_eq!(normalize_path("../a"), "../a");
    assert_eq!(normalize_path("./\u{4e16}.txt"), "\u{4e16}.txt");
}

#[test]
fn include_patterns_select() {
    let selector = Selector::new(&globs(&["*.txt", "src/**/*.rs"])).unwrap();
    assert!(selector.selects("a.txt"));
    assert!(selector.selects("./a.txt"));
    assert!(selector.selects("./src/bin/tool.rs"));
    assert!(!selector.selects("./Cargo.toml"));
    assert!(!selector.selects("./tests/a.rs"));
}

#[test]
fn without_include_patterns_nothing_is_selected() {
    let none = Selector::new(&globs(&[])).unwrap();
    assert!(!none.selects("a.txt"));
    let only_exclusions = Selector::new(&globs(&["!*.log"])).unwrap();
    assert!(!only_exclusions.selects("a.txt"));
    assert!(!only_exclusions.selects("a.log"));
}

#[test]
fn exclusion_takes_precedence() {
    let selector = Selector::new(&globs(&["*.txt", "!secret*"])).unwrap();
    assert!(selector.selects("./notes.txt"));
    assert!(!selector.selects("./secret.txt"));
    let reordered = Selector::new(&globs(&["!secret*", "*.txt"])).unwrap();
    assert!(reordered.selects("./notes.txt"));
    assert!(!reordered.selects("./secret.txt"));
}

#[test]
fn the_path_is_matched_without_its_dot_slash() {
    let selector = Selector::new(&globs(&["a.txt"])).unwrap();
    assert!(selector.selects("./a.txt"));
    assert!(selector.selects("a.txt"));
    assert!(!selector.selects("././a.txt"));
}

#[test]
fn a_malformed_include_pattern_is_a_usage_error() {
    let error = Selector::new(&globs(&["*.txt", "["])).err().unwrap();
    assert_eq!(error.kind(), ErrorKind::Usage);
    assert!(error.message().starts_with("Invalid include glob pattern: "));
    assert!(error.message().contains("unclosed character class"));
}

#[test]
fn a_malformed_exclude_pattern_is_a_usage_error() {
    let error = Selector::new(&globs(&["*.txt", "!a{b"])).err().unwrap();
    assert_eq!(error.kind(), ErrorKind::Usage);
    assert!(error.message().starts_with("Invalid exclude glob pattern: "));
    assert!(error.message().contains("a{b"));
}

#[test]
fn the_first_malformed_pattern_is_reported() {
    let error = Selector::new(&globs(&["ok", "![", "a{b"])).err().unwrap();
    assert!(error.message().starts_with("Invalid exclude glob pattern: "));
    let error = Selector::new(&globs(&["a{b", "!["])).err().unwrap();
    assert!(error.message().starts_with("Invalid include glob pattern: "));
}
