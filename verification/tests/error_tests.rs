use clipboard_warrior::error::Error;

#[test]
fn read_error_message() {
    let e = Error::ReadDBError("No such file or directory (os error 2)".to_string());
    assert_eq!(e.message(), "error reading the DB file: No such file or directory (os error 2)");
}

#[test]
fn parse_error_message() {
    let e = Error::ParseDBError("expected value at line 1 column 1".to_string());
    assert_eq!(e.message(), "error parsing the DB file: expected value at line 1 column 1");
}

#[test]
fn clipboard_error_message() {
    let e = Error::ClipboardError("no display".to_string());
    assert_eq!(e.message(), "error accessing the clipboard: no display");
}

#[test]
fn index_error_message() {
    assert_eq!(Error::IndexError.message(), "no command at the selected row");
}

#[test]
fn empty_reason_leaves_the_prefix() {
    assert_eq!(Error::ReadDBError(String::new()).message(), "error reading the DB file: ");
}
