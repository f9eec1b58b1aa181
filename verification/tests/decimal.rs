use product_limits::decimal::{append_decimal, decimal_string};

#[test]
fn zero_is_a_single_digit() {
    assert_eq!(decimal_string(0), "0");
}

#[test]
fn single_digits() {
    let expected = ["0", "1", "2", "3", "4", "5", "6", "7", "8", "9"];
    let mut n: i32 = 0;
    while n < 10 {
        assert_eq!(decimal_string(n), expected[n as usize]);
        n += 1;
    }
}

#[test]
fn several_digits_come_most_significant_first() {
    assert_eq!(decimal_string(10), "10");
    assert_eq!(decimal_string(42), "42");
    assert_eq!(decimal_string(100), "100");
    assert_eq!(decimal_string(1050), "1050");
    assert_eq!(decimal_string(9876543), "9876543");
    assert_eq!(decimal_string(1000000000), "1000000000");
}

#[test]
fn negative_numbers_carry_a_minus_sign() {
    assert_eq!(decimal_string(-1), "-1");
    assert_eq!(decimal_string(-10), "-10");
    assert_eq!(decimal_string(-907), "-907");
}

#[test]
fn extremes_of_the_range() {
    assert_eq!(decimal_string(i32::MAX), "2147483647");
    assert_eq!(decimal_string(i32::MIN), "-2147483648");
    assert_eq!(decimal_string(i32::MIN + 1), "-2147483647");
}

#[test]
fn agrees_with_the_standard_formatting() {
    let samples: [i32; 12] =
        [0, 1, -1, 9, 10, 11, 99, 100, 101, -999, 123456789, -123456789];
    for n in samples {
        assert_eq!(decimal_string(n), format!("{}", n));
    }
    let mut n: i32 = -2500;
    while n <= 2500 {
        assert_eq!(decimal_string(n), format!("{}", n));
        n += 1;
    }
}

#[test]
fn append_keeps_what_was_there() {
    let mut text = String::from("limit=");
    append_decimal(&mut text, 37);
    assert_eq!(text, "limit=37");
    append_decimal(&mut text, -4);
    assert_eq!(text, "limit=37-4");
    append_decimal(&mut text, 0);
    assert_eq!(text, "limit=37-40");
}

#[test]
fn text_reads_back_as_the_number() {
    let samples: [i32; 9] = [0, 7, -7, 10, -10, 4096, -65535, i32::MAX, i32::MIN];
    for n in samples {
        assert_eq!(decimal_string(n).parse::<i32>(), Ok(n));
    }
}

#[test]
fn different_numbers_have_different_texts() {
    let mut a: i32 = -30;
    while a <= 30 {
        let mut b: i32 = -30;
        while b <= 30 {
            assert_eq!(decimal_string(a) == decimal_string(b), a == b);
            b += 1;
        }
        a += 1;
    }
}
