use pgx_pg_sys::cstring::{
    copy_terminated, cstr_text, display_of, get_pg_major_minor_version_string,
    get_pg_version_string, node_to_string_for_display, AsPgCStr,
};

#[test]
fn str_becomes_a_terminated_block() {
    assert_eq!("abc".as_pg_cstr(), vec![b'a', b'b', b'c', 0]);
    assert_eq!("".as_pg_cstr(), vec![0]);
}

#[test]
fn string_becomes_a_terminated_block() {
    assert_eq!(String::from("idx").as_pg_cstr(), vec![b'i', b'd', b'x', 0]);
    assert_eq!(String::new().as_pg_cstr(), vec![0]);
}

#[test]
fn block_keeps_multibyte_text_and_inner_zeros() {
    assert_eq!("é".as_pg_cstr(), vec![0xC3, 0xA9, 0]);
    assert_eq!("a\0b".as_pg_cstr(), vec![b'a', 0, b'b', 0]);
    assert_eq!("a\0b".as_pg_cstr().len(), 4);
}

#[test]
fn copy_terminated_appends_one_zero() {
    assert_eq!(copy_terminated(&[1, 2, 3]), vec![1, 2, 3, 0]);
    assert_eq!(copy_terminated(&[]), vec![0]);
    assert_eq!(copy_terminated(&[0xFF]), vec![0xFF, 0]);
}

#[test]
fn node_text_that_is_utf8_is_shown_as_it_is() {
    assert_eq!(node_to_string_for_display(b"{QUERY :commandType 1}"), "{QUERY :commandType 1}");
    assert_eq!(node_to_string_for_display(b""), "");
    assert_eq!(node_to_string_for_display(&[0xC3, 0xA9]), "é");
}

#[test]
fn node_text_that_is_not_utf8_is_shown_as_an_error() {
    assert_eq!(
        node_to_string_for_display(&[b'f', b'o', 0xFF]),
        "<ffi error: Utf8Error { valid_up_to: 2, error_len: Some(1) }>"
    );
    assert_eq!(
        node_to_string_for_display(&[0xC3]),
        "<ffi error: Utf8Error { valid_up_to: 0, error_len: None }>"
    );
}

#[test]
fn display_of_wraps_the_error() {
    assert_eq!(display_of(Ok(String::from("{A}"))), "{A}");
    assert_eq!(display_of(Err(String::from("bad"))), "<ffi error: bad>");
    assert_eq!(display_of(Err(String::new())), "<ffi error: >");
}

#[test]
fn cstr_text_drops_the_terminator() {
    assert_eq!(cstr_text(b"12\0"), "12");
    assert_eq!(cstr_text(b"\0"), "");
}

#[test]
fn version_strings_come_from_the_constants() {
    assert_eq!(get_pg_major_minor_version_string(b"12.3\0"), "12.3");
    assert_eq!(
        get_pg_version_string(b"PostgreSQL 12.3 on x86_64-pc-linux-gnu, 64-bit\0"),
        "PostgreSQL 12.3 on x86_64-pc-linux-gnu, 64-bit"
    );
}

#[test]
fn text_copied_out_reads_back() {
    for text in ["", "relname", "é√"] {
        assert_eq!(cstr_text(&text.as_pg_cstr()), text);
        assert_eq!(cstr_text(&String::from(text).as_pg_cstr()), text);
    }
}
