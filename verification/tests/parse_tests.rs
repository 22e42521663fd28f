use procmem::{get_kb, parse_pid};

#[test]
fn kb_plain_value() {
    assert_eq!(get_kb("   128 kB"), 128);
}

#[test]
fn kb_requires_space_before_unit() {
    assert_eq!(get_kb(" 128kB"), 0);
}

#[test]
fn kb_requires_the_kb_unit() {
    assert_eq!(get_kb(" 128 MB"), 0);
}

#[test]
fn kb_unit_case_does_not_matter() {
    assert_eq!(get_kb(" 128 KB"), 128);
    assert_eq!(get_kb(" 128 kb"), 128);
}

#[test]
fn kb_trailing_content_is_ignored() {
    assert_eq!(get_kb(" 128 kB and more"), 128);
}

#[test]
fn kb_non_numeric_value_is_zero() {
    assert_eq!(get_kb(" abc kB"), 0);
    assert_eq!(get_kb(""), 0);
    assert_eq!(get_kb("   "), 0);
    assert_eq!(get_kb(" kB"), 0);
}

#[test]
fn kb_value_at_the_width_limit() {
    assert_eq!(get_kb(" 4294967295 kB"), u32::MAX);
    assert_eq!(get_kb(" 4294967296 kB"), 0);
    assert_eq!(get_kb(" 99999999999999999999999 kB"), 0);
}

#[test]
fn kb_digits_must_end_at_whitespace() {
    assert_eq!(get_kb(" 128x kB"), 0);
}

#[test]
fn pid_plain_number() {
    assert_eq!(parse_pid("100"), Some(100));
    assert_eq!(parse_pid("1"), Some(1));
    assert_eq!(parse_pid("4294967295"), Some(u32::MAX));
}

#[test]
fn pid_rejects_non_digits() {
    assert_eq!(parse_pid(""), None);
    assert_eq!(parse_pid("abc"), None);
    assert_eq!(parse_pid("12a"), None);
    assert_eq!(parse_pid("-1"), None);
    assert_eq!(parse_pid("+1"), None);
    assert_eq!(parse_pid(" 12"), None);
}

#[test]
fn pid_rejects_too_wide_numbers() {
    assert_eq!(parse_pid("4294967296"), None);
    assert_eq!(parse_pid("99999999999999999999"), None);
}
