use wcr::input::{open, BufferedInput, FileOpener, Input, LineReader, OpenError, Origin, StdinOpener};

#[test]
fn dash_opens_standard_input() {
    let source = open("-");
    assert_eq!(source.name(), "standard input");
    assert!(matches!(source.opener, Origin::Stdin(_)));
}

#[test]
fn path_opens_file_under_its_name() {
    let source = open("notes.txt");
    assert_eq!(source.name(), "notes.txt");
    match source.opener {
        Origin::File(f) => assert_eq!(f.path, "notes.txt"),
        Origin::Stdin(_) => panic!("expected a file"),
    }
    let source = open("--");
    assert_eq!(source.name(), "--");
}

#[test]
fn buffered_input_keeps_name() {
    let source = BufferedInput::new("standard input", StdinOpener::new());
    assert_eq!(source.name(), "standard input");
    let opener = FileOpener::new("a/b");
    assert_eq!(opener.path, "a/b");
}

#[test]
fn directory_is_refused_before_reading() {
    let opener = FileOpener::new("dir");
    assert_eq!(opener.check_target(true), Err(OpenError::IsADirectory));
    assert_eq!(opener.check_target(false), Ok(()));
}

#[test]
fn line_reader_yields_lines_until_empty_read() {
    let mut reader: LineReader<()> = LineReader::new(());
    assert!(!reader.exhausted);
    let first = reader.next_from::<String>(Ok(String::from("a b\n")));
    assert_eq!(first, Some(Ok(String::from("a b\n"))));
    let second = reader.next_from::<String>(Ok(String::from("tail")));
    assert_eq!(second, Some(Ok(String::from("tail"))));
    assert_eq!(reader.next_from::<String>(Ok(String::new())), None);
    assert!(reader.exhausted);
    assert_eq!(reader.next_from::<String>(Ok(String::from("more\n"))), None);
}

#[test]
fn line_reader_stops_after_error() {
    let mut reader: LineReader<()> = LineReader::new(());
    let err = reader.next_from::<String>(Err(String::from("broken")));
    assert_eq!(err, Some(Err(String::from("broken"))));
    assert!(reader.exhausted);
    assert_eq!(reader.next_from::<String>(Ok(String::from("x\n"))), None);
}
