use dotlinker::entries::{is_literal_pattern, is_space_char, parse_ignore_text, to_chars, IgnoreEntry};
use dotlinker::ignore::{IgnoreError, IgnoreList};

fn literal_text(entry: &IgnoreEntry) -> Option<&str> {
    match entry {
        IgnoreEntry::Literal(text) => Some(text.as_str()),
        IgnoreEntry::Glob(_) => None,
    }
}

fn glob_text(entry: &IgnoreEntry) -> Option<&str> {
    match entry {
        IgnoreEntry::Glob(text) => Some(text.as_str()),
        IgnoreEntry::Literal(_) => None,
    }
}

fn sorted(mut paths: Vec<String>) -> Vec<String> {
    paths.sort();
    paths
}

#[test]
fn chars_are_taken_one_by_one() {
    assert_eq!(to_chars("a/é\n"), vec!['a', '/', 'é', '\n']);
    assert_eq!(to_chars(""), Vec::<char>::new());
}

#[test]
fn white_space_is_unicode_white_space() {
    for c in [' ', '\t', '\n', '\r', '\u{b}', '\u{c}', '\u{85}', '\u{a0}', '\u{1680}', '\u{2003}', '\u{2028}', '\u{2029}', '\u{202f}', '\u{205f}', '\u{3000}'] {
        assert!(is_space_char(c), "{:?}", c);
    }
    for c in ['a', '#', '/', '\u{200b}', '\u{1c}', '\u{180e}', '\0'] {
        assert!(!is_space_char(c), "{:?}", c);
    }
}

#[test]
fn white_space_agrees_with_std_on_every_char() {
    let mut n: u32 = 0;
    while n <= 0x10FFFF {
        if let Some(c) = char::from_u32(n) {
            assert_eq!(is_space_char(c), c.is_whitespace(), "{:?}", c);
        }
        n += 1;
    }
}

#[test]
fn literal_patterns_hold_no_metacharacter() {
    assert!(is_literal_pattern("README.md"));
    assert!(is_literal_pattern(""));
    assert!(is_literal_pattern("dir/file.txt"));
    assert!(!is_literal_pattern("*.log"));
    assert!(!is_literal_pattern("file?"));
    assert!(!is_literal_pattern("[ab]"));
    assert!(!is_literal_pattern("a]"));
    assert!(!is_literal_pattern("a["));
}

#[test]
fn lines_are_classified_in_order() {
    let entries = parse_ignore_text("# comment\n*.log\n\nnotes.txt\n   \n  .git*  \n");
    assert_eq!(entries.len(), 3);
    assert_eq!(glob_text(&entries[0]), Some("*.log"));
    assert_eq!(literal_text(&entries[1]), Some("notes.txt"));
    assert_eq!(glob_text(&entries[2]), Some(".git*"));
}

#[test]
fn comment_may_follow_white_space() {
    let entries = parse_ignore_text("   # indented comment\n\t#another\nkept");
    assert_eq!(entries.len(), 1);
    assert_eq!(literal_text(&entries[0]), Some("kept"));
}

#[test]
fn carriage_returns_are_trimmed() {
    let entries = parse_ignore_text("a.txt\r\n*.bak\r\n\r\n");
    assert_eq!(entries.len(), 2);
    assert_eq!(literal_text(&entries[0]), Some("a.txt"));
    assert_eq!(glob_text(&entries[1]), Some("*.bak"));
}

#[test]
fn last_line_needs_no_line_feed() {
    let entries = parse_ignore_text("one\ntwo");
    assert_eq!(entries.len(), 2);
    assert_eq!(literal_text(&entries[1]), Some("two"));
    assert_eq!(parse_ignore_text("").len(), 0);
    assert_eq!(parse_ignore_text("\n\n").len(), 0);
}

#[test]
fn one_slash_is_stripped_trailing_first() {
    let entries = parse_ignore_text("build/\n/rooted\n/both/\nin/side\n//\n/\nx*/\n");
    assert_eq!(entries.len(), 7);
    assert_eq!(literal_text(&entries[0]), Some("build"));
    assert_eq!(literal_text(&entries[1]), Some("rooted"));
    assert_eq!(literal_text(&entries[2]), Some("/both"));
    assert_eq!(literal_text(&entries[3]), Some("in/side"));
    assert_eq!(literal_text(&entries[4]), Some("/"));
    assert_eq!(literal_text(&entries[5]), Some(""));
    assert_eq!(glob_text(&entries[6]), Some("x*"));
}

#[test]
fn new_list_ignores_nothing() {
    let list = IgnoreList::new();
    assert!(!list.is_ignored("/src/a.log"));
    assert!(!list.is_ignored("/"));
    assert!(list.literal_paths().is_empty());
    assert!(list.pattern_texts().is_empty());
    let list = IgnoreList::default();
    assert!(list.literal_paths().is_empty());
    assert!(list.pattern_texts().is_empty());
}

#[test]
fn added_literals_are_ignored_under_the_base() {
    let mut list = IgnoreList::new();
    list.add_literals(Some(vec!["notes.txt".to_string(), "sub/x".to_string()]), "/src");
    assert!(list.is_ignored("/src/notes.txt"));
    assert!(list.is_ignored("/src/sub/x"));
    assert!(!list.is_ignored("/other/notes.txt"));
    assert!(!list.is_ignored("/src/notes.txt.bak"));
    assert!(!list.is_ignored("/src"));
    assert_eq!(sorted(list.literal_paths()), vec!["/src/notes.txt".to_string(), "/src/sub/x".to_string()]);
}

#[test]
fn adding_nothing_changes_nothing() {
    let mut list = IgnoreList::new();
    list.add_literals(Some(vec!["a".to_string()]), "/src");
    list.add_literals(None, "/src");
    list.add_literals(Some(Vec::new()), "/src");
    assert_eq!(list.literal_paths(), vec!["/src/a".to_string()]);
    assert!(list.pattern_texts().is_empty());
}

#[test]
fn a_literal_is_held_once() {
    let mut list = IgnoreList::new();
    list.add_literals(Some(vec!["a".to_string(), "a".to_string()]), "/src");
    assert!(list.load_from_file(Some("a\nb\n"), "/src").is_ok());
    assert_eq!(sorted(list.literal_paths()), vec!["/src/a".to_string(), "/src/b".to_string()]);
}

#[test]
fn literal_is_a_full_path_not_a_prefix() {
    let mut list = IgnoreList::new();
    assert!(list.load_from_file(Some("dir\n"), "/src").is_ok());
    assert!(list.is_ignored("/src/dir"));
    assert!(!list.is_ignored("/src/dir/file"));
    assert!(!list.is_ignored("dir"));
}

#[test]
fn patterns_match_the_file_name_in_any_directory() {
    let mut list = IgnoreList::new();
    assert!(list.load_from_file(Some("*.log\nfile?.txt\n[ab]c\n"), "/src").is_ok());
    assert!(list.is_ignored("/src/a.log"));
    assert!(list.is_ignored("/elsewhere/deep/b.log"));
    assert!(list.is_ignored("c.log"));
    assert!(list.is_ignored("/x/file1.txt"));
    assert!(list.is_ignored("/y/ac"));
    assert!(list.is_ignored("/y/bc"));
    assert!(!list.is_ignored("/y/cc"));
    assert!(!list.is_ignored("/x/file12.txt"));
    assert!(!list.is_ignored("/a.log/readme"));
    assert_eq!(
        list.pattern_texts(),
        vec!["*.log".to_string(), "file?.txt".to_string(), "[ab]c".to_string()]
    );
}

#[test]
fn path_without_file_name_matches_no_pattern() {
    let mut list = IgnoreList::new();
    assert!(list.load_from_file(Some("*\n"), "/src").is_ok());
    assert!(!list.is_ignored("/"));
    assert!(!list.is_ignored("/src/.."));
    assert!(!list.is_ignored(""));
    assert!(list.is_ignored("/src/anything"));
    assert!(list.is_ignored("/src/dir/"));
}

#[test]
fn missing_file_is_config_not_found() {
    let mut list = IgnoreList::new();
    list.add_literals(Some(vec!["a".to_string()]), "/src");
    let result = list.load_from_file(None, "/src");
    assert!(matches!(result, Err(IgnoreError::ConfigNotFound)));
    assert_eq!(list.literal_paths(), vec!["/src/a".to_string()]);
    assert!(list.pattern_texts().is_empty());
}

#[test]
fn malformed_pattern_stops_the_load() {
    let mut list = IgnoreList::new();
    let result = list.load_from_file(Some("first\n*.ok\n[abc\nlater\n*.late\n"), "/src");
    match result {
        Err(IgnoreError::Pattern { pattern, pos, message }) => {
            assert_eq!(pattern, "[abc");
            assert_eq!(pos, 0);
            assert_eq!(message, "invalid range pattern");
        }
        other => panic!("unexpected: {:?}", other),
    }
    assert_eq!(list.literal_paths(), vec!["/src/first".to_string()]);
    assert_eq!(list.pattern_texts(), vec!["*.ok".to_string()]);
    assert!(!list.is_ignored("/src/later"));
}

#[test]
fn three_stars_are_rejected() {
    let mut list = IgnoreList::new();
    let result = list.load_from_file(Some("a***b\n"), "/src");
    match result {
        Err(IgnoreError::Pattern { pattern, pos, message }) => {
            assert_eq!(pattern, "a***b");
            assert_eq!(pos, 3);
            assert_eq!(message, "wildcards are either regular `*` or recursive `**`");
        }
        other => panic!("unexpected: {:?}", other),
    }
    assert!(list.pattern_texts().is_empty());
}

#[test]
fn entries_are_taken_in_by_add_entries() {
    let mut list = IgnoreList::new();
    let entries = vec![
        IgnoreEntry::Literal("x".to_string()),
        IgnoreEntry::Glob("*.tmp".to_string()),
    ];
    assert!(list.add_entries(&entries, "/base").is_ok());
    assert!(list.is_ignored("/base/x"));
    assert!(list.is_ignored("/any/y.tmp"));
    assert!(!list.is_ignored("/any/y.txt"));
}

#[test]
fn log_pattern_and_literal_leave_only_b_txt() {
    let mut list = IgnoreList::new();
    assert!(list.load_from_file(Some("*.log\nnotes.txt\n"), "/src").is_ok());
    assert!(list.is_ignored("/src/a.log"));
    assert!(list.is_ignored("/src/notes.txt"));
    assert!(!list.is_ignored("/src/b.txt"));
    let listing = vec![
        "/src/a.log".to_string(),
        "/src/notes.txt".to_string(),
        "/src/b.txt".to_string(),
    ];
    assert_eq!(list.candidates(&listing), vec!["/src/b.txt".to_string()]);
}

#[test]
fn candidates_keep_the_order_of_the_listing() {
    let mut list = IgnoreList::new();
    assert!(list.load_from_file(Some("*.bak\n"), "/src").is_ok());
    let listing = vec![
        "/src/z".to_string(),
        "/src/a.bak".to_string(),
        "/src/a".to_string(),
        "/src/z".to_string(),
    ];
    assert_eq!(
        list.candidates(&listing),
        vec!["/src/z".to_string(), "/src/a".to_string(), "/src/z".to_string()]
    );
    assert!(list.candidates(&Vec::new()).is_empty());
}
