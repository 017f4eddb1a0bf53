use uds_throughput::config::{buf_len_from_bytes, resolve_buf_len};

#[test]
fn resolves_default_size() {
    assert_eq!(resolve_buf_len("4KiB"), Some(4096));
}

#[test]
fn resolves_larger_size() {
    assert_eq!(resolve_buf_len("64KiB"), Some(65536));
}

#[test]
fn resolves_decimal_unit() {
    assert_eq!(resolve_buf_len("1kb"), Some(1000));
}

#[test]
fn resolves_mixed_case_unit() {
    assert_eq!(resolve_buf_len("123Kib"), Some(125952));
}

#[test]
fn resolves_bare_number() {
    assert_eq!(resolve_buf_len("10"), Some(10));
}

#[test]
fn rejects_non_size() {
    assert_eq!(resolve_buf_len("abc"), None);
}

#[test]
fn rejects_empty_string() {
    assert_eq!(resolve_buf_len(""), None);
}

#[test]
fn rejects_zero_length_buffer() {
    assert_eq!(resolve_buf_len("0"), None);
}

#[test]
fn validates_byte_counts() {
    assert_eq!(buf_len_from_bytes(0), None);
    assert_eq!(buf_len_from_bytes(1), Some(1));
    assert_eq!(buf_len_from_bytes(4096), Some(4096));
}
