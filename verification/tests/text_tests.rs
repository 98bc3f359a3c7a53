use todo_backend::text::decimal;
use todo_backend::text::spread_newlines;

#[test]
fn decimal_writes_zero() {
    assert_eq!(decimal(0), "0");
}

#[test]
fn decimal_writes_single_and_several_digits() {
    assert_eq!(decimal(7), "7");
    assert_eq!(decimal(10), "10");
    assert_eq!(decimal(1905), "1905");
}

#[test]
fn decimal_writes_negative_numbers_with_a_sign() {
    assert_eq!(decimal(-1), "-1");
    assert_eq!(decimal(-120), "-120");
}

#[test]
fn decimal_writes_the_extremes() {
    assert_eq!(decimal(i32::MAX), "2147483647");
    assert_eq!(decimal(i32::MIN), "-2147483648");
}

#[test]
fn decimal_agrees_with_the_standard_formatting() {
    for n in [-100_000, -99, -10, -9, 0, 9, 10, 99, 100, 101, 65_536, 999_999_999] {
        assert_eq!(decimal(n), format!("{}", n));
    }
}

#[test]
fn spread_newlines_leaves_one_line_alone() {
    assert_eq!(spread_newlines("title: too long"), "title: too long");
    assert_eq!(spread_newlines(""), "");
}

#[test]
fn spread_newlines_replaces_each_line_feed() {
    assert_eq!(spread_newlines("a\nb"), "a, b");
    assert_eq!(spread_newlines("a\n\nb\n"), "a, , b, ");
    assert_eq!(spread_newlines("\n"), ", ");
}

#[test]
fn spread_newlines_keeps_other_characters() {
    assert_eq!(spread_newlines("タイトル\r\n長さ, ok"), "タイトル\r, 長さ, ok");
}
