use mcp_shell_server::output::{LimitedOutput, MAX_OUTPUT_BYTES};

fn read(limit: usize, chunks: &[&[u8]]) -> String {
    let mut output = LimitedOutput::new(limit);
    for chunk in chunks {
        output.absorb(chunk);
    }
    output.finish()
}

#[test]
fn output_within_the_limit_is_kept_whole() {
    assert_eq!(read(10, &[]), "");
    assert_eq!(read(10, &[b"hello", b"", b"world"]), "helloworld");
    assert_eq!(MAX_OUTPUT_BYTES, 8_388_608);
}

#[test]
fn output_beyond_the_limit_is_cut_with_a_note() {
    assert_eq!(read(4, &[b"hello"]), "hell\n[output truncated at 8 MiB]");
    assert_eq!(read(0, &[b"x"]), "\n[output truncated at 8 MiB]");
}

#[test]
fn chunks_do_not_matter() {
    let whole = read(7, &[b"abcdefghij"]);
    assert_eq!(read(7, &[b"abcdefg", b"hij"]), whole);
    assert_eq!(read(7, &[b"a", b"bcd", b"efghi", b"j"]), whole);
}

#[test]
fn bytes_that_are_no_text_are_replaced() {
    assert_eq!(read(10, &[b"a\xffb"]), "a\u{fffd}b");
    assert_eq!(read(10, &["\u{e9}\u{1f600}".as_bytes()]), "\u{e9}\u{1f600}");
    assert_eq!(read(1, &["\u{e9}".as_bytes()]), "\u{fffd}\n[output truncated at 8 MiB]");
}
