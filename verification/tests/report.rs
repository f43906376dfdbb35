use wcount::compute_entries;
use wcount::config;
use wcount::read_files;
use wcount::Conf;

fn ok(name: &str, content: &str) -> (String, Result<String, String>) {
    (String::from(name), Ok(String::from(content)))
}

fn err(name: &str, message: &str) -> (String, Result<String, String>) {
    (String::from(name), Err(String::from(message)))
}

#[test]
fn missing_file_diagnostic_and_totals() {
    let c = config(false, false, false, false, false);
    let files = vec![
        ok("good.txt", "hello world\n"),
        err("missing.txt", "No such file or directory (os error 2)"),
    ];
    let entries = compute_entries(&c, &files);
    assert_eq!(entries.len(), 1);
    assert_eq!(entries[0].0, "good.txt");

    let out = read_files(&c, &files);
    assert_eq!(out.matches("wc: ").count(), 1);
    assert!(out.contains("wc: missing.txt No such file or directory (os error 2)\n"));
    // Two filenames were supplied, so the totals line prints even though
    // only one file was read.
    assert!(out.ends_with("\t12 \t1 \t2 total\n"));
}

#[test]
fn report_idempotent() {
    let c = config(false, false, false, true, false);
    let files = vec![
        ok("a.txt", "one two\n"),
        ok("b.txt", "three\n"),
        err("c.txt", "permission denied"),
    ];
    let first = read_files(&c, &files);
    let second = read_files(&c, &files);
    assert_eq!(first, second);
}

#[test]
fn single_file_no_totals() {
    let c = config(false, false, false, false, false);
    let files = vec![ok("only.txt", "plenty of words in here\n")];
    let out = read_files(&c, &files);
    assert_eq!(out, "\t24 \t1 \t5 only.txt\n");
    assert!(!out.contains("total"));
}

#[test]
fn two_files_exact_report() {
    let c = config(false, false, false, false, false);
    let files = vec![ok("a.txt", "one two\n"), ok("b.txt", "three\n")];
    let out = read_files(&c, &files);
    assert_eq!(
        out,
        "\t8 \t1 \t2 a.txt\n\t6 \t1 \t1 b.txt\n\t14 \t2 \t3 total\n"
    );
}

#[test]
fn duplicate_filename_single_entry() {
    let c = config(false, false, false, false, false);
    let files = vec![ok("same.txt", "one two\n"), ok("same.txt", "one two\n")];
    let entries = compute_entries(&c, &files);
    assert_eq!(entries.len(), 1);
    let out = read_files(&c, &files);
    // One entry line; totals count the entry once, and still print because
    // two filenames were supplied.
    assert_eq!(out, "\t8 \t1 \t2 same.txt\n\t8 \t1 \t2 total\n");
}

#[test]
fn all_failures_only_diagnostics() {
    let c = config(false, false, false, false, false);
    let files = vec![err("x.txt", "gone"), err("y.txt", "also gone")];
    let out = read_files(&c, &files);
    assert_eq!(out, "wc: x.txt gone\nwc: y.txt also gone\n");
}

#[test]
fn zero_totals_suppressed_per_slot() {
    let c = Conf {
        bytes: false,
        characters: true,
        lines: true,
        files_from: false,
        max_line_length: 0,
        words: false,
    };
    let files = vec![ok("a.txt", "abc"), ok("b.txt", "def")];
    let out = read_files(&c, &files);
    // Only characters and lines are active; the byte and word slots stay
    // zero and are suppressed from the totals line.
    assert_eq!(out, "\t3 \t1 a.txt\n\t3 \t1 b.txt\n\t6 \t2 total\n");
}

#[test]
fn empty_contents_give_no_totals_line() {
    let c = config(false, false, false, false, false);
    let files = vec![ok("a.txt", ""), ok("b.txt", "")];
    let out = read_files(&c, &files);
    // Every total is zero, so no totals line prints even for two files.
    assert_eq!(out, "\t0 \t0 \t0 a.txt\n\t0 \t0 \t0 b.txt\n");
}

#[test]
fn stream_like_single_unit() {
    // The stream path measures one nameless unit of content and, being a
    // single unit, never prints totals.
    let c = config(false, false, false, false, false);
    let files = vec![ok("", "test all the things")];
    let out = read_files(&c, &files);
    assert_eq!(out, "\t19 \t1 \t4 \n");
}
