use basicgrep::regex_search;
use basicgrep::run_search;
use basicgrep::search;
use basicgrep::search_case_insensitive;

#[test]
fn case_sensitive() {
    let query = "duct";
    let contents = "\
Rust:
safe, fast, productive.
Pick three.
Duct tape.";

    assert_eq!(
        vec!["safe, fast, productive.".to_string()],
        search(query, contents)
    );
}

#[test]
fn case_insensitive() {
    let query = "rUsT";
    let contents = "\
Rust:
safe, fast, productive.
Pick three.
Trust me.";

    assert_eq!(
        vec!["Rust:".to_string(), "Trust me.".to_string()],
        search_case_insensitive(query, contents)
    );
}

#[test]
fn start_token_test() {
    let pattern = "^[a,e,i,o,u].*";
    let contents = "\
actually, I dunno
wowzers! thanks, bro
entitled, affirmatively;
amerliorate your own issues
not unless..
";

    assert_eq!(
        vec![
            "actually, I dunno".to_string(),
            "entitled, affirmatively;".to_string(),
            "amerliorate your own issues".to_string(),
        ],
        regex_search(pattern, contents).unwrap()
    );
}

#[test]
fn numerical_set_test() {
    let pattern = ".*[0-9]{3}-?[0-9]{3}-?[0-9]{4}";
    let content = "\
+1 123-456-7890
+12 (123) 456-7890
1234567890
123 456 7890
(123) 456 7890
(123) 456-7890
123-456-7890
0000000000 1112223344
";

    assert_eq!(
        vec![
            "+1 123-456-7890".to_string(),
            "1234567890".to_string(),
            "123-456-7890".to_string(),
            "0000000000 1112223344".to_string()
        ],
        regex_search(pattern, content).unwrap()
    );
}

#[test]
fn no_match_is_empty_not_error() {
    assert_eq!(Vec::<String>::new(), search("zzz", "a\nb\nc"));
    assert_eq!(Vec::<String>::new(), search_case_insensitive("zzz", "a\nb\nc"));
    assert_eq!(
        Vec::<String>::new(),
        regex_search("zzz", "a\nb\nc").unwrap()
    );
}

#[test]
fn empty_pattern_keeps_nonempty_lines_only() {
    // A blank line "contains" the empty pattern, yet is never emitted.
    assert_eq!(
        vec!["a".to_string(), "b".to_string()],
        search("", "a\n\nb")
    );
    assert_eq!(
        vec!["a".to_string(), "b".to_string()],
        search_case_insensitive("", "a\n\nb")
    );
}

#[test]
fn blank_lines_never_match() {
    assert_eq!(Vec::<String>::new(), search("", "\n\n\n"));
    assert_eq!(Vec::<String>::new(), search_case_insensitive("", "\n\n"));
}

#[test]
fn empty_corpus_is_fine() {
    assert_eq!(Vec::<String>::new(), search("x", ""));
    assert_eq!(Vec::<String>::new(), search_case_insensitive("x", ""));
    assert_eq!(Vec::<String>::new(), regex_search("x", "").unwrap());
}

#[test]
fn pattern_longer_than_corpus() {
    assert_eq!(Vec::<String>::new(), search("abcdef", "abc"));
}

#[test]
fn insensitive_folds_both_sides() {
    // Fails if either the pattern or the line were not case-folded.
    assert_eq!(
        vec!["RuSt me".to_string()],
        search_case_insensitive("rust", "RuSt me\nnothing here")
    );
    assert_eq!(
        vec!["rust me".to_string()],
        search_case_insensitive("RUST", "rust me\nnothing here")
    );
}

#[test]
fn insensitive_agrees_with_search_on_folded_corpus() {
    let contents = "\
Rust:
safe, fast, productive.
Pick three.
Trust me.";
    let folded: String = contents
        .lines()
        .map(|l| l.to_lowercase())
        .collect::<Vec<String>>()
        .join("\n");
    let insensitive = search_case_insensitive("rUsT", contents);
    let on_folded = search("rust", &folded);
    let insensitive_folded: Vec<String> =
        insensitive.iter().map(|l| l.to_lowercase()).collect();
    assert_eq!(insensitive_folded, on_folded);
}

#[test]
fn regex_search_is_repeatable() {
    let pattern = "[0-9]+";
    let contents = "a1\nb22\nc";
    let first = regex_search(pattern, contents).unwrap();
    let second = regex_search(pattern, contents).unwrap();
    assert_eq!(first, second);
    assert_eq!(vec!["1".to_string(), "22".to_string()], first);
}

#[test]
fn regex_groups_fan_out() {
    // The whole match comes first, then each participating group.
    assert_eq!(
        vec!["ab".to_string(), "a".to_string(), "b".to_string()],
        regex_search("(a)(b)?", "ab").unwrap()
    );
}

#[test]
fn regex_empty_fragments_suppressed() {
    // The first group matches the empty string and is not emitted.
    assert_eq!(
        vec!["b".to_string()],
        regex_search("(a*)b", "b").unwrap()
    );
}

#[test]
fn regex_absent_groups_skipped() {
    assert_eq!(
        vec!["a".to_string(), "a".to_string()],
        regex_search("(a)(b)?", "a").unwrap()
    );
}

#[test]
fn invalid_regex_is_an_error() {
    assert!(regex_search("[unbalanced", "anything").is_err());
    assert!(regex_search("a(b", "anything").is_err());
    let err = regex_search("[", "x").unwrap_err();
    assert!(!err.message.is_empty());
}

#[test]
fn run_search_selects_strategy() {
    let contents = "abc\nABC";
    // Regex mode takes precedence over the case flag.
    assert_eq!(
        vec!["abc".to_string()],
        run_search("a.c", contents, true, false).unwrap()
    );
    assert_eq!(
        vec!["ABC".to_string()],
        run_search("A", contents, false, true).unwrap()
    );
    assert_eq!(
        vec!["abc".to_string(), "ABC".to_string()],
        run_search("A", contents, false, false).unwrap()
    );
    assert!(run_search("[", contents, true, true).is_err());
    assert!(run_search("[", contents, false, true).is_ok());
}

#[test]
fn trailing_newline_opens_no_line() {
    assert_eq!(vec!["b".to_string()], search("b", "a\nb\n"));
}

#[test]
fn carriage_return_is_kept() {
    // Only '\n' separates lines; a trailing '\r' stays on the line.
    assert_eq!(vec!["safe\r".to_string()], search("safe", "safe\r\nfast"));
}

#[test]
fn non_ascii_text() {
    assert_eq!(vec!["café au lait".to_string()], search("café", "café au lait\nbar"));
    assert_eq!(
        vec!["CAFÉ".to_string()],
        search_case_insensitive("café", "CAFÉ\nbar")
    );
}
