use wcr::options::Options;
use wcr::stats::FileStatistics;
use wcr::Command;

fn run_options(files: &[&str]) -> Options {
    Options {
        files: files.iter().map(|f| String::from(*f)).collect(),
        lines: false,
        words: false,
        chars: false,
        bytes: false,
    }
}

fn counted(name: &str, lines: &[&str]) -> FileStatistics {
    let mut stats = FileStatistics::new(name);
    for l in lines {
        stats.count_line(l);
    }
    stats
}

#[test]
fn missing_source_is_left_out_of_rows_and_total() {
    let opts = run_options(&["a.txt", "missing.txt", "b.txt"]);
    let command = Command::from(&opts);
    let mut total = command.start_total();
    let a = counted("a.txt", &["abcd efgh ijkl\n"]);
    let b = counted("b.txt", &["mnop qrst\n", "uvwx\n"]);
    let mut rows = Vec::new();
    rows.push(command.finish_source(&mut total, a.clone()));
    rows.push(command.finish_source(&mut total, b.clone()));
    assert_eq!(rows, vec![" 1  3 15 a.txt", " 2  3 15 b.txt"]);
    let merged = a.add(b);
    assert_eq!(
        (total.line_count, total.word_count, total.char_count, total.byte_count),
        (merged.line_count, merged.word_count, merged.char_count, merged.byte_count)
    );
    assert_eq!(command.total_row(&total), Some(String::from(" 3  6 30 total")));
}

#[test]
fn single_source_has_no_total_row() {
    let opts = run_options(&["-"]);
    let command = Command::from(&opts);
    let mut total = command.start_total();
    assert_eq!(total.name, "total");
    let row = command.finish_source(&mut total, counted("standard input", &["x\n"]));
    assert_eq!(row, "1 1 2 standard input");
    assert_eq!(command.total_row(&total), None);
}

#[test]
fn unreadable_source_still_gives_zero_row() {
    let opts = run_options(&["d", "e"]);
    let command = Command::from(&opts);
    let mut total = command.start_total();
    let row = command.finish_source(&mut total, FileStatistics::new("d"));
    assert_eq!(row, "0 0 0 d");
    assert_eq!(command.total_row(&total), Some(String::from("0 0 0 total")));
}
