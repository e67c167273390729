use ms_services::text::{first_word_of, second_word_of, str_eq};
use ms_services::validation::decimal_text;

#[test]
fn words_are_split_on_unicode_whitespace() {
    assert_eq!(first_word_of("  Bearer   tok  rest"), "Bearer");
    assert_eq!(second_word_of("  Bearer   tok  rest"), "tok");
    assert_eq!(second_word_of("Bearer\u{3000}tok"), "tok");
    assert_eq!(first_word_of(""), "");
    assert_eq!(second_word_of("Bearer"), "");
    assert_eq!(second_word_of("Bearer   "), "");
}

#[test]
fn equality() {
    assert!(str_eq("abc", "abc"));
    assert!(!str_eq("abc", "abd"));
    assert!(!str_eq("ab", "abc"));
}

#[test]
fn decimal_forms() {
    assert_eq!(decimal_text(0), "0");
    assert_eq!(decimal_text(1234), "1234");
    assert_eq!(decimal_text(-5), "-5");
    assert_eq!(decimal_text(i128::MIN), i128::MIN.to_string());
    assert_eq!(decimal_text(i128::MAX), i128::MAX.to_string());
}
