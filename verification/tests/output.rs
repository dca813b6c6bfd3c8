use compose_driver::output::{format_output, merge_streams};

#[test]
fn output_newline_terminated_stdout_is_followed_by_stderr() {
    assert_eq!(format_output(b"a\n", b"b"), "a\nb");
}

#[test]
fn output_empty_stdout_gives_stderr_alone() {
    assert_eq!(format_output(b"", b"b"), "b");
}

#[test]
fn output_empty_stderr_gives_stdout_alone() {
    assert_eq!(format_output(b"a", b""), "a");
}

#[test]
fn output_missing_newline_is_supplied_between_the_streams() {
    assert_eq!(format_output(b"a", b"b"), "a\nb");
}

#[test]
fn output_of_two_empty_streams_is_empty() {
    assert_eq!(format_output(b"", b""), "");
}

#[test]
fn output_is_trimmed_at_both_ends() {
    assert_eq!(format_output(b"  a \n\n", b"\n b \n"), "a \n\n\n b");
    assert_eq!(format_output(b"\n", b"\n"), "");
}

#[test]
fn output_replaces_ill_formed_bytes() {
    assert_eq!(format_output(&[0x61, 0xFF, 0x62], b""), "a\u{FFFD}b");
    assert_eq!(format_output(b"", &[0xC3]), "\u{FFFD}");
    assert_eq!(format_output(&[0xF0, 0x9F], &[0x80, 0x62]), "\u{FFFD}\n\u{FFFD}b");
}

#[test]
fn output_decodes_well_formed_utf8() {
    assert_eq!(format_output("é\n".as_bytes(), "ü".as_bytes()), "é\nü");
}

#[test]
fn merge_streams_joins_and_trims() {
    assert_eq!(merge_streams("a\n", "b"), "a\nb");
    assert_eq!(merge_streams("a", "b"), "a\nb");
    assert_eq!(merge_streams("", "b"), "b");
    assert_eq!(merge_streams("a", ""), "a");
    assert_eq!(merge_streams(" ", "b"), "b");
}
