use rusty_booru::shared::text::{decimal_string, glue, join_with_spaces, same_text};

#[test]
fn decimal_of_single_digits() {
    assert_eq!("0", decimal_string(0));
    assert_eq!("7", decimal_string(7));
    assert_eq!("9", decimal_string(9));
}

#[test]
fn decimal_of_longer_numbers() {
    assert_eq!("10", decimal_string(10));
    assert_eq!("100", decimal_string(100));
    assert_eq!("9423", decimal_string(9423));
    assert_eq!("7898595", decimal_string(7898595));
    assert_eq!("4294967295", decimal_string(u32::MAX));
}

#[test]
fn decimal_agrees_with_the_standard_library() {
    let mut n: u32 = 1;
    for _ in 0..31 {
        assert_eq!(n.to_string(), decimal_string(n));
        assert_eq!((n - 1).to_string(), decimal_string(n - 1));
        n *= 2;
    }
}

#[test]
fn digits_are_their_own_text() {
    for d in 0..10u32 {
        assert_eq!(d.to_string(), decimal_string(d));
    }
}

#[test]
fn join_of_nothing_is_empty() {
    assert_eq!("", join_with_spaces(&Vec::new()));
}

#[test]
fn join_of_one_part_is_the_part() {
    assert_eq!("chino", join_with_spaces(&vec!["chino".to_string()]));
}

#[test]
fn join_keeps_order_and_puts_single_spaces() {
    let parts = vec!["b".to_string(), "a".to_string(), "c".to_string()];
    assert_eq!("b a c", join_with_spaces(&parts));
}

#[test]
fn join_keeps_empty_parts() {
    let parts = vec!["a".to_string(), String::new(), "c".to_string()];
    assert_eq!("a  c", join_with_spaces(&parts));
}

#[test]
fn concat_puts_the_second_text_last() {
    assert_eq!("order:score", glue("order:", "score"));
    assert_eq!("score", glue("", "score"));
    assert_eq!("order:", glue("order:", ""));
}

#[test]
fn same_text_compares_characters() {
    assert!(same_text("abc", "abc"));
    assert!(!same_text("abc", "abd"));
    assert!(!same_text("abc", "ab"));
    assert!(same_text("", ""));
}
