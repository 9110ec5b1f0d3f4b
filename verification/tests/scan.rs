use grep_lite::GrepLiteError;
use grep_lite::Matcher;
use grep_lite::grep_lines;
use grep_lite::scan_lines;

fn lines_of(text: &str) -> Vec<String> {
    text.lines().map(|l| l.to_string()).collect()
}

#[test]
fn matches_an_in_banana() {
    let lines = lines_of("apple\nbanana\ncherry");
    let out = grep_lines(&"an".to_string(), &lines).unwrap();
    assert_eq!(out, vec!["banana".to_string()]);
}

#[test]
fn digit_class_keeps_both_numbered_lines() {
    let lines = lines_of("foo123\nbar\nbaz456");
    let out = grep_lines(&"\\d+".to_string(), &lines).unwrap();
    assert_eq!(out, vec!["foo123".to_string(), "baz456".to_string()]);
}

#[test]
fn zero_matches_is_empty_success() {
    let lines = lines_of("apple\nbanana\ncherry");
    let out = grep_lines(&"zzz".to_string(), &lines).unwrap();
    assert!(out.is_empty());
}

#[test]
fn empty_input_is_empty_success() {
    let lines: Vec<String> = Vec::new();
    let out = grep_lines(&"a".to_string(), &lines).unwrap();
    assert!(out.is_empty());
}

#[test]
fn unbalanced_group_is_regex_error() {
    let lines = lines_of("apple\nbanana");
    let err = grep_lines(&"(".to_string(), &lines).unwrap_err();
    assert!(err.is_regex());
    assert!(!err.is_io());
    assert!(!err.text().is_empty());
}

#[test]
fn matcher_accepts_valid_and_rejects_invalid() {
    let m = Matcher::new("an".to_string()).unwrap();
    assert_eq!(m.pattern().as_str(), "an");
    assert!(Matcher::new("(".to_string()).is_err());
}

#[test]
fn is_match_decides_per_line() {
    let m = Matcher::new("an".to_string()).unwrap();
    assert!(m.is_match(&"banana".to_string()));
    assert!(!m.is_match(&"cherry".to_string()));
}

#[test]
fn output_keeps_input_order() {
    let lines = lines_of("banana\ncherry\nberry\nbread");
    let m = Matcher::new("^b".to_string()).unwrap();
    let out = scan_lines(&m, &lines);
    assert_eq!(
        out,
        vec!["banana".to_string(), "berry".to_string(), "bread".to_string()]
    );
}

#[test]
fn anchors_select_the_empty_line() {
    let lines = lines_of("a\n\nb");
    let out = grep_lines(&"^$".to_string(), &lines).unwrap();
    assert_eq!(out, vec!["".to_string()]);
}

#[test]
fn scanning_twice_gives_identical_output() {
    let lines = lines_of("foo123\nbar\nbaz456");
    let pattern = "\\d+".to_string();
    let first = grep_lines(&pattern, &lines).unwrap();
    let second = grep_lines(&pattern, &lines).unwrap();
    assert_eq!(first, second);

    let m = Matcher::new(pattern).unwrap();
    assert_eq!(scan_lines(&m, &lines), scan_lines(&m, &lines));
}

#[test]
fn io_error_carries_its_text() {
    let err = GrepLiteError::Io("no such file".to_string());
    assert!(err.is_io());
    assert!(!err.is_regex());
    assert_eq!(err.text().as_str(), "no such file");
}

#[test]
fn regex_error_carries_its_text() {
    let err = GrepLiteError::Regex("unclosed group".to_string());
    assert!(err.is_regex());
    assert!(!err.is_io());
    assert_eq!(err.text().as_str(), "unclosed group");
}
