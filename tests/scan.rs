use cargo_todox::lines::split_lines;
use cargo_todox::marker::{does_line_contain_todox, is_flagged};
use cargo_todox::report::{does_file_contain_todox, push_decimal, push_diagnostic};
use cargo_todox::scan::{run, Scan};
use cargo_todox::text::{chars_of, contains_chars, string_of};
use unindent::unindent;

fn tree(files: &[(&str, &str)]) -> Vec<(String, String)> {
    files.iter().map(|(p, c)| (p.to_string(), c.to_string())).collect()
}

fn scan_tree(files: &[(&str, &str)]) -> (i32, String) {
    let mut output = String::new();
    let status = run(&mut output, &tree(files));
    (status, output)
}

#[test]
fn test_success() {
    let (status, output) = scan_tree(&[(
        "tests/success/example.txt",
        "This file is clean.\n// ALLOW TODOX: the override keeps this line quiet\n",
    )]);
    assert_eq!(status, 0);
    assert_eq!(output, "");
}

#[test]
fn test_failure() {
    let (status, output) = scan_tree(&[(
        "tests/failure/example.txt",
        "// TODOX: upper case\n// todox: lower case\n// ToDoX: mixed case, allow todox is not an override\n",
    )]);
    assert_eq!(status, 1);
    assert_eq!(
        output,
        unindent(
            r#"
        tests/failure/example.txt:1: contains todox
        tests/failure/example.txt:2: contains todox
        tests/failure/example.txt:3: contains todox
    "#,
        )
    );
}

#[test]
fn clean_tree_is_silent() {
    let (status, output) = scan_tree(&[
        ("a.rs", "fn main() {}\n"),
        ("b.rs", "// nothing to do\nlet x = 1;"),
    ]);
    assert_eq!(status, 0);
    assert_eq!(output, "");
}

#[test]
fn dirty_tree_reports_each_flagged_line() {
    let (status, output) = scan_tree(&[("example.txt", "// TODOX: fix\nok\n// todox again\n")]);
    assert_eq!(status, 1);
    assert_eq!(output, "example.txt:1: contains todox\nexample.txt:3: contains todox\n");
}

#[test]
fn override_on_the_same_line_suppresses() {
    let (status, output) = scan_tree(&[("x.rs", "// TODOX ALLOW TODOX")]);
    assert_eq!(status, 0);
    assert_eq!(output, "");
}

#[test]
fn diagnostics_follow_file_then_line_order() {
    let (status, output) = scan_tree(&[
        ("z.rs", "a\ntodox\nb\nTODOX"),
        ("clean.rs", "nothing\n"),
        ("a.rs", "ToDoX\n"),
    ]);
    assert_eq!(status, 1);
    assert_eq!(output, "z.rs:2: contains todox\nz.rs:4: contains todox\na.rs:1: contains todox\n");
}

#[test]
fn scanning_twice_gives_the_same_result() {
    let files = [("one.rs", "todox\nfine\n"), ("two.rs", "fine\n")];
    let first = scan_tree(&files);
    let second = scan_tree(&files);
    assert_eq!(first, second);
    assert_eq!(first.0, 1);
}

#[test]
fn empty_tree_and_empty_file_are_clean() {
    assert_eq!(scan_tree(&[]), (0, String::new()));
    assert_eq!(scan_tree(&[("empty.txt", "")]), (0, String::new()));
}

#[test]
fn run_appends_to_existing_output() {
    let mut output = String::from("earlier\n");
    let status = run(&mut output, &tree(&[("f", "todox")]));
    assert_eq!(status, 1);
    assert_eq!(output, "earlier\nf:1: contains todox\n");
}

#[test]
fn marker_is_case_insensitive() {
    assert!(does_line_contain_todox("TODOX"));
    assert!(does_line_contain_todox("todox"));
    assert!(does_line_contain_todox("ToDoX"));
    assert!(does_line_contain_todox("ATODOXB"));
    assert!(!does_line_contain_todox("TODO"));
    assert!(!does_line_contain_todox("to do x"));
}

#[test]
fn override_is_exact_and_case_sensitive() {
    assert!(!does_line_contain_todox("ALLOW TODOX"));
    assert!(!does_line_contain_todox("todox ALLOW TODOX ToDoX"));
    assert!(does_line_contain_todox("allow todox"));
    assert!(does_line_contain_todox("Allow Todox"));
    assert!(does_line_contain_todox("ALLOW  TODOX"));
}

#[test]
fn flagged_uses_the_given_folded_form() {
    assert!(is_flagged("TODOX", "todox"));
    assert!(!is_flagged("TODOX", "TODOX"));
    assert!(!is_flagged("ALLOW TODOX", "allow todox"));
    assert!(is_flagged("allow todox", "allow todox"));
    assert!(!is_flagged("", ""));
}

#[test]
fn file_scan_reports_and_returns_dirtiness() {
    let mut output = String::new();
    assert!(does_file_contain_todox(&mut output, "p.txt", "x\r\ntodox\r\n\r\nTODOX"));
    assert_eq!(output, "p.txt:2: contains todox\np.txt:4: contains todox\n");
    let mut quiet = String::new();
    assert!(!does_file_contain_todox(&mut quiet, "q.txt", "\n\n\n"));
    assert_eq!(quiet, "");
}

#[test]
fn line_numbers_count_empty_lines() {
    let mut output = String::new();
    let text = "\n".repeat(11) + "todox";
    assert!(does_file_contain_todox(&mut output, "gap", &text));
    assert_eq!(output, "gap:12: contains todox\n");
}

#[test]
fn scan_state_stays_dirty() {
    let mut scan = Scan::new();
    assert_eq!(scan.status(), 0);
    let mut output = String::new();
    assert!(!scan.scan_file(&mut output, "a", "clean"));
    assert_eq!(scan.status(), 0);
    assert!(scan.scan_file(&mut output, "b", "todox"));
    assert_eq!(scan.status(), 1);
    assert!(!scan.scan_file(&mut output, "c", "clean"));
    assert_eq!(scan.status(), 1);
    assert_eq!(output, "b:1: contains todox\n");
}

#[test]
fn split_lines_handles_terminators() {
    assert_eq!(split_lines(""), Vec::<String>::new());
    assert_eq!(split_lines("a"), vec!["a"]);
    assert_eq!(split_lines("a\n"), vec!["a"]);
    assert_eq!(split_lines("a\r\nb"), vec!["a", "b"]);
    assert_eq!(split_lines("a\n\nb\n"), vec!["a", "", "b"]);
    assert_eq!(split_lines("a\rb\n"), vec!["a\rb"]);
    assert_eq!(split_lines("\n"), vec![""]);
    assert_eq!(split_lines("tail\r"), vec!["tail\r"]);
    assert_eq!(split_lines("é\nü"), vec!["é", "ü"]);
}

#[test]
fn decimal_numerals() {
    for (n, text) in [(0usize, "0"), (7, "7"), (10, "10"), (1234567890, "1234567890")] {
        let mut out = String::from("#");
        push_decimal(&mut out, n);
        assert_eq!(out, format!("#{text}"));
    }
    let mut out = String::new();
    push_decimal(&mut out, usize::MAX);
    assert_eq!(out, usize::MAX.to_string());
}

#[test]
fn diagnostic_format() {
    let mut out = String::new();
    push_diagnostic(&mut out, "src/lib.rs", 42);
    assert_eq!(out, "src/lib.rs:42: contains todox\n");
}

#[test]
fn text_helpers() {
    let hay = chars_of("héllo todox");
    assert_eq!(hay.len(), 11);
    assert!(contains_chars(&hay, &chars_of("todox")));
    assert!(contains_chars(&hay, &chars_of("")));
    assert!(!contains_chars(&hay, &chars_of("TODOX")));
    assert!(!contains_chars(&chars_of("tod"), &chars_of("todox")));
    assert_eq!(string_of(&hay), "héllo todox");
}
