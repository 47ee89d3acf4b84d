use live_counter::text::decimal_text;

#[test]
fn decimal_text_of_small_numbers() {
    assert_eq!(decimal_text(0), "0");
    assert_eq!(decimal_text(7), "7");
    assert_eq!(decimal_text(10), "10");
    assert_eq!(decimal_text(-1), "-1");
    assert_eq!(decimal_text(-10), "-10");
    assert_eq!(decimal_text(1203), "1203");
}

#[test]
fn decimal_text_at_the_ends() {
    assert_eq!(decimal_text(i32::MAX), "2147483647");
    assert_eq!(decimal_text(i32::MIN), "-2147483648");
}

#[test]
fn decimal_text_agrees_with_the_standard_library() {
    let mut n: i32 = i32::MIN;
    loop {
        assert_eq!(decimal_text(n), format!("{}", n));
        match n.checked_add(9_973_331) {
            Some(next) => n = next,
            None => break,
        }
    }
    for n in -1000..=1000 {
        assert_eq!(decimal_text(n), format!("{}", n));
    }
}
