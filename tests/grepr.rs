use std::io::{BufRead, Cursor};

use grepr::lines::find_lines;
use grepr::pattern::Pattern;
use grepr::report::{decimal_string, format_report, multiple_targets};
use grepr::resolve::{failure_text, find_files, is_stdin, needs_walk, FileKind, Probe, Walked};
use grepr::Cli;
use rand::distributions::Alphanumeric;
use rand::Rng;

fn read_lines(text: &[u8]) -> Vec<String> {
    let mut reader = Cursor::new(text);
    let mut lines = Vec::new();
    loop {
        let mut line = String::new();
        let n = reader.read_line(&mut line).unwrap();
        if n == 0 {
            break;
        }
        lines.push(line);
    }
    lines
}

fn strings(items: &[&str]) -> Vec<String> {
    items.iter().map(|s| s.to_string()).collect()
}

fn file_probe() -> Probe {
    Probe::Found(FileKind::File, vec![])
}

fn inputs_walk() -> Vec<Walked> {
    vec![
        Walked::Entry("./tests/inputs".to_string(), FileKind::Dir),
        Walked::Entry("./tests/inputs/empty.txt".to_string(), FileKind::File),
        Walked::Entry("./tests/inputs/fox.txt".to_string(), FileKind::File),
        Walked::Entry("./tests/inputs/bustle.txt".to_string(), FileKind::File),
        Walked::Entry("./tests/inputs/nobody.txt".to_string(), FileKind::File),
    ]
}

#[test]
fn test_find_files() {
    let files = find_files(&strings(&["./tests/inputs/fox.txt"]), false, &vec![file_probe()]);
    assert_eq!(files.len(), 1);
    assert_eq!(files[0].as_ref().unwrap(), "./tests/inputs/fox.txt");

    let files = find_files(
        &strings(&["./tests/inputs"]),
        false,
        &vec![Probe::Found(FileKind::Dir, vec![])],
    );
    assert_eq!(files.len(), 1);
    if let Err(e) = &files[0] {
        assert_eq!(e.to_string(), "./tests/inputs is a directory")
    }

    let res = find_files(
        &strings(&["./tests/inputs"]),
        true,
        &vec![Probe::Found(FileKind::Dir, inputs_walk())],
    );
    let mut files: Vec<String> = res
        .iter()
        .map(|r| r.as_ref().unwrap().replace("\\", "/"))
        .collect();
    files.sort();
    assert_eq!(files.len(), 4);
    assert_eq!(
        files,
        vec![
            "./tests/inputs/bustle.txt",
            "./tests/inputs/empty.txt",
            "./tests/inputs/fox.txt",
            "./tests/inputs/nobody.txt",
        ]
    );

    let bad: String = rand::thread_rng()
        .sample_iter(Alphanumeric)
        .take(7)
        .map(char::from)
        .collect();
    let files = find_files(
        &vec![bad],
        false,
        &vec![Probe::Failed("No such file or directory (os error 2)".to_string())],
    );
    assert_eq!(files.len(), 1);
    assert!(files[0].is_err());
}

#[test]
fn test_find_lines() {
    let text = b"Lorem\nIpsum\r\nDOLOR";
    let lines = read_lines(text);

    let re1 = Pattern::new("or", false).unwrap();
    let matches = find_lines(&lines, &re1, false);
    assert_eq!(matches.len(), 1);

    let matches = find_lines(&lines, &re1, true);
    assert_eq!(matches.len(), 2);

    let re2 = Pattern::new("or", true).unwrap();

    let matches = find_lines(&lines, &re2, false);
    assert_eq!(matches.len(), 2);

    let matches = find_lines(&lines, &re2, true);
    assert_eq!(matches.len(), 1);
}

#[test]
fn kept_lines_keep_their_terminators() {
    let lines = read_lines(b"Lorem\nIpsum\r\nDOLOR");
    let re = Pattern::new("or", true).unwrap();
    assert_eq!(find_lines(&lines, &re, false), vec!["Lorem\n", "DOLOR"]);
    assert_eq!(find_lines(&lines, &re, true), vec!["Ipsum\r\n"]);
}

#[test]
fn inverting_splits_the_lines_in_two() {
    let lines = read_lines(b"a1\nb2\na3\na1\n\nc\n");
    let re = Pattern::new("a|^$", false).unwrap();
    let kept = find_lines(&lines, &re, false);
    let dropped = find_lines(&lines, &re, true);
    assert_eq!(kept, vec!["a1\n", "a3\n", "a1\n"]);
    assert_eq!(dropped, vec!["b2\n", "\n", "c\n"]);
    assert_eq!(kept.len() + dropped.len(), lines.len());
}

#[test]
fn empty_input_keeps_nothing() {
    let re = Pattern::new("x", false).unwrap();
    assert!(find_lines(&vec![], &re, false).is_empty());
    assert!(find_lines(&vec![], &re, true).is_empty());
}

#[test]
fn invalid_pattern_is_refused() {
    assert!(Pattern::new("(", false).is_err());
    assert!(Cli::new("[a-", strings(&["-"]), false, false, false, false).is_err());
    assert!(Cli::new("a+", strings(&["-"]), false, false, false, true).is_ok());
}

#[test]
fn pattern_matches_anywhere_in_the_line() {
    let re = Pattern::new("b+c", false).unwrap();
    assert!(re.is_match("aabbbcd"));
    assert!(!re.is_match("abd"));
    let re = Pattern::new("B+C", true).unwrap();
    assert!(re.is_match("abbc"));
}

fn any_probe(which: usize) -> Probe {
    match which {
        0 => Probe::Failed("gone".to_string()),
        1 => Probe::Found(FileKind::Dir, vec![]),
        2 => Probe::Found(FileKind::File, vec![]),
        _ => Probe::Found(FileKind::Other, vec![]),
    }
}

#[test]
fn stdin_resolves_whatever_was_found() {
    for which in 0..4 {
        for recursive in [false, true] {
            let files = find_files(&strings(&["-"]), recursive, &vec![any_probe(which)]);
            assert_eq!(files, vec![Ok("-".to_string())]);
        }
    }
}

#[test]
fn failure_does_not_stop_later_paths() {
    let files = find_files(
        &strings(&["nope", "a.txt", "dir", "b.txt"]),
        false,
        &vec![
            Probe::Failed("No such file or directory (os error 2)".to_string()),
            file_probe(),
            Probe::Found(FileKind::Dir, vec![]),
            file_probe(),
        ],
    );
    assert_eq!(
        files,
        vec![
            Err("nope: No such file or directory (os error 2)".to_string()),
            Ok("a.txt".to_string()),
            Err("dir is a directory".to_string()),
            Ok("b.txt".to_string()),
        ]
    );
}

#[test]
fn walk_keeps_regular_files_only() {
    let walk = vec![
        Walked::Entry("d".to_string(), FileKind::Dir),
        Walked::Entry("d/x".to_string(), FileKind::File),
        Walked::Failed,
        Walked::Entry("d/link".to_string(), FileKind::Other),
        Walked::Entry("d/sub".to_string(), FileKind::Dir),
        Walked::Entry("d/sub/y".to_string(), FileKind::File),
    ];
    let files = find_files(&strings(&["d"]), true, &vec![Probe::Found(FileKind::Dir, walk)]);
    assert_eq!(files, vec![Ok("d/x".to_string()), Ok("d/sub/y".to_string())]);
}

#[test]
fn special_files_are_dropped() {
    let files = find_files(
        &strings(&["/dev/null", "a"]),
        true,
        &vec![Probe::Found(FileKind::Other, vec![]), file_probe()],
    );
    assert_eq!(files, vec![Ok("a".to_string())]);
}

#[test]
fn sentinel_and_walk_decisions() {
    assert!(is_stdin("-"));
    assert!(!is_stdin("--"));
    assert!(!is_stdin(""));
    assert!(!is_stdin("a"));
    assert!(needs_walk(FileKind::Dir, true));
    assert!(!needs_walk(FileKind::Dir, false));
    assert!(!needs_walk(FileKind::File, true));
    assert!(!needs_walk(FileKind::Other, true));
}

#[test]
fn failure_text_joins_path_and_error() {
    assert_eq!(failure_text("x.txt", "Permission denied"), "x.txt: Permission denied");
}

#[test]
fn decimal_numerals() {
    assert_eq!(decimal_string(0), "0");
    assert_eq!(decimal_string(7), "7");
    assert_eq!(decimal_string(10), "10");
    assert_eq!(decimal_string(1234), "1234");
    assert_eq!(decimal_string(usize::MAX), usize::MAX.to_string());
}

#[test]
fn prefixes_only_for_several_targets() {
    assert!(!multiple_targets(0));
    assert!(!multiple_targets(1));
    assert!(multiple_targets(2));
    let lines = strings(&["one\n", "two"]);
    assert_eq!(format_report("f", &lines, false, false), "one\ntwo");
    assert_eq!(format_report("f", &lines, false, true), "f:one\nf:two");
    assert_eq!(format_report("f", &lines, true, false), "2\n");
    assert_eq!(format_report("f", &lines, true, true), "f:2\n");
    assert_eq!(format_report("f", &vec![], true, true), "f:0\n");
    assert_eq!(format_report("f", &vec![], false, true), "");
}

#[test]
fn end_to_end_counts() {
    let lines = read_lines(b"Lorem\nIpsum\r\nDOLOR");
    let cli = Cli::new("or", strings(&["-"]), false, true, false, false).unwrap();
    assert_eq!(cli.report("-", &lines, 1), "1\n");
    let cli = Cli::new("or", strings(&["-"]), false, true, true, false).unwrap();
    assert_eq!(cli.report("-", &lines, 1), "2\n");
    let cli = Cli::new("or", strings(&["-"]), false, true, false, true).unwrap();
    assert_eq!(cli.report("-", &lines, 1), "2\n");
    let cli = Cli::new("or", strings(&["-"]), false, true, true, true).unwrap();
    assert_eq!(cli.report("-", &lines, 1), "1\n");
}

#[test]
fn end_to_end_counts_of_two_files() {
    let cli = Cli::new("fox", strings(&["a.txt", "b.txt"]), false, true, false, false).unwrap();
    let entries = cli.resolve(&vec![file_probe(), file_probe()]);
    let names: Vec<String> = entries.into_iter().map(|e| e.unwrap()).collect();
    assert_eq!(names, strings(&["a.txt", "b.txt"]));
    let contents = [read_lines(b"the fox\nno\n"), read_lines(b"fox\nfox\nfox")];
    let out: Vec<String> = names
        .iter()
        .zip(contents.iter())
        .map(|(n, l)| cli.report(n, l, names.len()))
        .collect();
    assert_eq!(out, vec!["a.txt:1\n", "b.txt:3\n"]);
}

#[test]
fn end_to_end_lines_of_two_files() {
    let cli = Cli::new("o", strings(&["a", "b"]), false, false, false, false).unwrap();
    let out = cli.report("a", &read_lines(b"one\ntwo\nsix\n"), 2);
    assert_eq!(out, "a:one\na:two\n");
}
