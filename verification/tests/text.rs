use db_access::text::{
    decimal_string, push_joined, push_replaced, push_signed_decimal, push_values_list,
    push_zero_padded, replace_char_in, same_text, signed_decimal_string,
};

#[test]
fn decimal_numerals_have_no_leading_zeros() {
    assert_eq!(decimal_string(0), "0");
    assert_eq!(decimal_string(7), "7");
    assert_eq!(decimal_string(10), "10");
    assert_eq!(decimal_string(10_000), "10000");
    assert_eq!(decimal_string(u64::MAX), "18446744073709551615");
}

#[test]
fn decimal_numerals_agree_with_the_standard_library() {
    for n in [0u64, 1, 9, 10, 11, 99, 100, 101, 65_535, 4_294_967_296, u64::MAX - 1] {
        assert_eq!(decimal_string(n), n.to_string());
    }
}

#[test]
fn signed_numerals_carry_their_sign() {
    assert_eq!(signed_decimal_string(0), "0");
    assert_eq!(signed_decimal_string(-1), "-1");
    assert_eq!(signed_decimal_string(42), "42");
    assert_eq!(signed_decimal_string(i64::MAX), "9223372036854775807");
    assert_eq!(signed_decimal_string(i64::MIN), "-9223372036854775808");
    let mut out = String::from("x=");
    push_signed_decimal(&mut out, -305);
    assert_eq!(out, "x=-305");
}

#[test]
fn zero_padding_fills_up_to_the_width() {
    let mut out = String::new();
    push_zero_padded(&mut out, 7, 2);
    assert_eq!(out, "07");
    let mut out = String::new();
    push_zero_padded(&mut out, 0, 2);
    assert_eq!(out, "00");
    let mut out = String::new();
    push_zero_padded(&mut out, 33, 4);
    assert_eq!(out, "0033");
    let mut out = String::new();
    push_zero_padded(&mut out, 12, 2);
    assert_eq!(out, "12");
}

#[test]
fn zero_padding_never_cuts_a_numeral() {
    let mut out = String::new();
    push_zero_padded(&mut out, 12345, 4);
    assert_eq!(out, "12345");
    let mut out = String::new();
    push_zero_padded(&mut out, 123, 2);
    assert_eq!(out, "123");
    let mut out = String::from("n");
    push_zero_padded(&mut out, 5, 0);
    assert_eq!(out, "n5");
}

#[test]
fn replacing_a_character_keeps_all_others() {
    assert_eq!(replace_char_in("", '`', "``"), "");
    assert_eq!(replace_char_in("plain", '`', "``"), "plain");
    assert_eq!(replace_char_in("a`b", '`', "``"), "a``b");
    assert_eq!(replace_char_in("``", '`', "``"), "````");
    assert_eq!(replace_char_in("é`ü", '`', "-"), "é-ü");
    assert_eq!(replace_char_in("a.b.c", '.', ""), "abc");
}

#[test]
fn replacing_a_character_agrees_with_the_standard_library() {
    for s in ["", "'", "it's", "''''", "a'b'c'", "no quotes", "ünï'cödé"] {
        assert_eq!(replace_char_in(s, '\'', "''"), s.replace('\'', "''"));
    }
    let mut out = String::from(">");
    push_replaced(&mut out, "a\"b", '"', "\"\"");
    assert_eq!(out, ">a\"\"b");
}

#[test]
fn joining_puts_the_separator_between_neighbours() {
    let mut out = String::new();
    push_joined(&mut out, &vec![], ", ");
    assert_eq!(out, "");
    let mut out = String::new();
    push_joined(&mut out, &vec!["a".to_string()], ", ");
    assert_eq!(out, "a");
    let mut out = String::from("[");
    push_joined(&mut out, &vec!["a".to_string(), "".to_string(), "c".to_string()], ", ");
    assert_eq!(out, "[a, , c");
}

#[test]
fn rows_are_written_as_tuples_one_per_line() {
    let rows = vec![
        vec!["1".to_string(), "'a'".to_string()],
        vec!["2".to_string(), "NULL".to_string()],
    ];
    let mut out = String::new();
    push_values_list(&mut out, &rows);
    assert_eq!(out, "(1, 'a'),\n  (2, NULL)");

    let mut out = String::new();
    push_values_list(&mut out, &[]);
    assert_eq!(out, "");

    let mut out = String::new();
    push_values_list(&mut out, &[vec![]]);
    assert_eq!(out, "()");
}

#[test]
fn texts_are_the_same_when_their_characters_are() {
    assert!(same_text("", ""));
    assert!(same_text("YES", "YES"));
    assert!(!same_text("YES", "yes"));
    assert!(!same_text("YES", "YES "));
}
