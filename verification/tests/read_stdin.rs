use rust_fundamentals1::_read_stdin;

#[test]
fn test_read_stdin() {
    let input = "Generally a filename\n";
    let expected = "Generally a filename";
    let output = _read_stdin(input);
    assert_eq!(output, expected);
}

#[test]
fn test_read_stdin_empty() {
    let input = "\n";
    let expected = "";
    let output = _read_stdin(input);
    assert_eq!(output, expected);
}

#[test]
fn read_stdin_keeps_interior_blanks() {
    let output = _read_stdin("  a file name\t\r\n");
    assert_eq!(output, "a file name");
}

#[test]
fn read_stdin_without_surrounding_blanks() {
    let output = _read_stdin("filename.txt");
    assert_eq!(output, "filename.txt");
}

#[test]
fn read_stdin_all_blanks() {
    let output = _read_stdin(" \t\r\n");
    assert_eq!(output, "");
}

#[test]
fn read_stdin_strips_unicode_blanks() {
    let input = "\u{000B}\u{00A0}\u{3000}filename.txt\u{2003}\u{0085}\n";
    let output = _read_stdin(input);
    assert_eq!(output, "filename.txt");
    assert_eq!(output, input.trim());
}

#[test]
fn read_stdin_simulated_prompt_line() {
    let output = _read_stdin("filename.txt\n");
    assert_eq!(output, "filename.txt");
}
