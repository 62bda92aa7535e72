use sdfile::cbuf::nul_terminated;

#[test]
fn appends_single_trailing_zero() {
    let r = nul_terminated(b"abc");
    assert_eq!(r.as_slice(), b"abc\0");
}

#[test]
fn empty_content_is_just_the_terminator() {
    let r = nul_terminated(b"");
    assert_eq!(r.as_slice(), b"\0");
}

#[test]
fn embedded_zero_is_kept_in_the_buffer() {
    // The buffer carries the content unchanged; a native callee that stops
    // at the first zero byte will read only "a" from it.
    let r = nul_terminated(b"a\0b");
    assert_eq!(r.as_slice(), b"a\0b\0");
}

#[test]
fn buffer_is_exactly_sized() {
    let r = nul_terminated(b"hello");
    assert_eq!(r.len(), 6);
}
