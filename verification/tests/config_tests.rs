use basicgrep::config::Config;

fn args(list: &[&str]) -> Vec<String> {
    list.iter().map(|s| s.to_string()).collect()
}

#[test]
fn plain_pattern_and_file() {
    let c = Config::new(&args(&["prog", "pat", "file.txt"]), false).unwrap();
    assert_eq!(c.pattern, "pat");
    assert_eq!(c.filenames, vec!["file.txt".to_string()]);
    assert!(c.case_sensitive);
    assert!(!c.regex);
    assert!(!c.count);
    assert!(!c.piped);
    assert_eq!(c.piped_text, "");
}

#[test]
fn several_files() {
    let c = Config::new(&args(&["prog", "pat", "a.txt", "b.txt"]), false).unwrap();
    assert_eq!(c.pattern, "pat");
    assert_eq!(
        c.filenames,
        vec!["a.txt".to_string(), "b.txt".to_string()]
    );
}

#[test]
fn ignore_case_flag() {
    let c = Config::new(&args(&["prog", "-i", "pat", "f"]), false).unwrap();
    assert!(!c.case_sensitive);
    assert_eq!(c.pattern, "pat");
    assert_eq!(c.filenames, vec!["f".to_string()]);
}

#[test]
fn environment_sets_insensitive_and_flag_overrides() {
    let c = Config::new(&args(&["prog", "pat", "f"]), true).unwrap();
    assert!(!c.case_sensitive);
    let c = Config::new(&args(&["prog", "--no-ignore-case", "pat", "f"]), true).unwrap();
    assert!(c.case_sensitive);
}

#[test]
fn count_flag() {
    let c = Config::new(&args(&["prog", "--count", "pat", "f"]), false).unwrap();
    assert!(c.count);
    let c = Config::new(&args(&["prog", "-c", "pat", "f"]), false).unwrap();
    assert!(c.count);
}

#[test]
fn regex_flag_takes_pattern_and_files() {
    let c = Config::new(&args(&["prog", "-e", "p.t", "f1", "f2"]), false).unwrap();
    assert!(c.regex);
    assert_eq!(c.pattern, "p.t");
    assert_eq!(c.filenames, vec!["f1".to_string(), "f2".to_string()]);
}

#[test]
fn too_few_arguments() {
    assert_eq!(
        Config::new(&args(&["prog", "pat"]), false).unwrap_err(),
        "not enough arguments"
    );
}

#[test]
fn regex_flag_without_pattern() {
    assert_eq!(
        Config::new(&args(&["prog", "-c", "-e"]), false).unwrap_err(),
        "Please provide the regex pattern after the -e flag."
    );
}

#[test]
fn regex_flag_without_filenames() {
    assert_eq!(
        Config::new(&args(&["prog", "-e", "pat"]), false).unwrap_err(),
        "Couldn't parse file name(s). Should be present after flags and pattern."
    );
}

#[test]
fn pipe_plain_pattern() {
    let c = Config::new_from_pipe(&args(&["prog", "pat"]), "piped text", false).unwrap();
    assert_eq!(c.pattern, "pat");
    assert!(c.piped);
    assert_eq!(c.piped_text, "piped text");
    assert!(c.filenames.is_empty());
    assert!(c.case_sensitive);
}

#[test]
fn pipe_flags() {
    let c = Config::new_from_pipe(&args(&["prog", "-i", "-c", "pat"]), "t", false).unwrap();
    assert!(!c.case_sensitive);
    assert!(c.count);
    assert_eq!(c.pattern, "pat");
}

#[test]
fn pipe_regex_flag() {
    let c = Config::new_from_pipe(&args(&["prog", "-e", "p.t"]), "t", false).unwrap();
    assert!(c.regex);
    assert_eq!(c.pattern, "p.t");
}

#[test]
fn pipe_regex_flag_without_pattern() {
    assert_eq!(
        Config::new_from_pipe(&args(&["prog", "-e"]), "t", false).unwrap_err(),
        "a regex pattern should directly follow the -e flag"
    );
}

#[test]
fn pipe_too_few_arguments() {
    assert_eq!(
        Config::new_from_pipe(&args(&["prog"]), "t", false).unwrap_err(),
        "not enough arguments"
    );
}
