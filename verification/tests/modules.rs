use sync_primitives::data_structures::{Book, PublicEnum, PublicStruct};
use sync_primitives::math_operations;
use sync_primitives::string_utils;

#[test]
fn test_math_operations() {
    assert_eq!(math_operations::add(2, 3), 5);
    assert_eq!(math_operations::subtract(5, 3), 2);
    assert_eq!(math_operations::power(2, 3), 8);
}

#[test]
fn test_string_utils() {
    assert_eq!(string_utils::capitalize("hello"), "Hello");
    assert_eq!(string_utils::word_count("hello world rust"), 3);
}

#[test]
fn test_power_edge_cases() {
    assert_eq!(math_operations::power(2, 0), 1);
    assert_eq!(math_operations::power(0, 0), 1);
    assert_eq!(math_operations::power(0, 5), 0);
    assert_eq!(math_operations::power(-2, 3), -8);
    assert_eq!(math_operations::power(-2, 31), i32::MIN);
    assert_eq!(math_operations::power(1, 1000), 1);
    assert_eq!(math_operations::power(-1, 1001), -1);
}

#[test]
fn test_factorial_values() {
    assert_eq!(math_operations::factorial(0), 1);
    assert_eq!(math_operations::factorial(1), 1);
    assert_eq!(math_operations::factorial(5), 120);
    assert_eq!(math_operations::factorial(12), 479001600);
}

#[test]
fn test_increment_counter() {
    let mut counter: u64 = 0;
    assert_eq!(math_operations::increment_counter(&mut counter), 0);
    assert_eq!(math_operations::increment_counter(&mut counter), 1);
    assert_eq!(counter, 2);
}

#[test]
fn test_capitalize_edge_cases() {
    assert_eq!(string_utils::capitalize(""), "");
    assert_eq!(string_utils::capitalize("Hello"), "Hello");
    assert_eq!(string_utils::capitalize("1abc"), "1abc");
    assert_eq!(string_utils::capitalize("z"), "Z");
}

#[test]
fn test_capitalize_unicode() {
    assert_eq!(string_utils::capitalize("\u{e9}tude"), "\u{c9}tude");
    assert_eq!(string_utils::capitalize("\u{df}-test"), "SS-test");
}

#[test]
fn test_word_count_edge_cases() {
    assert_eq!(string_utils::word_count(""), 0);
    assert_eq!(string_utils::word_count("   "), 0);
    assert_eq!(string_utils::word_count("  a  b "), 2);
    assert_eq!(string_utils::word_count("one"), 1);
    assert_eq!(string_utils::word_count("tabs\tand\nnewlines"), 3);
}

#[test]
fn test_word_count_unicode_whitespace() {
    assert_eq!(string_utils::word_count("a\u{b}b"), 2);
    assert_eq!(string_utils::word_count("a\u{a0}b\u{3000}c"), 3);
    assert_eq!(string_utils::word_count("\u{2028}\u{2029}"), 0);
}

#[test]
fn test_public_struct() {
    let s = PublicStruct::new(String::from("Hello"));
    assert_eq!(s.public_field, "Hello");
    assert_eq!(s.get_private_field(), 42);
}

#[test]
fn test_public_enum_variants() {
    let v = PublicEnum::Variant2(String::from("World"));
    match v {
        PublicEnum::Variant1 => panic!("wrong variant"),
        PublicEnum::Variant2(s) => assert_eq!(s, "World"),
        PublicEnum::Variant3 { field: _ } => panic!("wrong variant"),
    }
}

#[test]
fn test_book_fields() {
    let b = Book::new(
        String::from("Title"),
        String::from("Author"),
        321,
        String::from("978-0000000000"),
    );
    assert_eq!(b.title, "Title");
    assert_eq!(b.author, "Author");
    assert_eq!(b.pages, 321);
}
