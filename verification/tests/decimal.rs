use pomodoro::decimal::{append_decimal, append_two_digits, decimal_text, digit_text, parse_u32};

#[test]
fn each_digit_has_its_text() {
    let all: Vec<&str> = (0..10).map(digit_text).collect();
    assert_eq!(all, vec!["0", "1", "2", "3", "4", "5", "6", "7", "8", "9"]);
}

#[test]
fn numbers_are_written_in_base_ten() {
    assert_eq!(decimal_text(0), "0");
    assert_eq!(decimal_text(9), "9");
    assert_eq!(decimal_text(10), "10");
    assert_eq!(decimal_text(1_234_567_890), "1234567890");
    assert_eq!(decimal_text(u128::MAX), "340282366920938463463374607431768211455");
}

#[test]
fn writing_goes_to_the_end_of_the_text() {
    let mut text = String::from("n = ");
    append_decimal(&mut text, 305);
    assert_eq!(text, "n = 305");
    append_two_digits(&mut text, 7);
    assert_eq!(text, "n = 30507");
    append_two_digits(&mut text, 0);
    assert_eq!(text, "n = 3050700");
    append_two_digits(&mut text, 10);
    assert_eq!(text, "n = 305070010");
    append_two_digits(&mut text, 123);
    assert_eq!(text, "n = 305070010123");
}

#[test]
fn what_is_written_reads_back() {
    for n in [0u32, 1, 9, 10, 99, 100, 65_535, 4_294_967_295] {
        assert_eq!(parse_u32(&decimal_text(n as u128)), Some(n));
    }
}
