use rust_basics::basics::{inner_scope, plus_one};
use rust_basics::ownership::{change, gives_ownership};
use rust_basics::slices::{first_number, first_word};

#[test]
fn plus_one_adds_one() {
    assert_eq!(plus_one(4), 5);
    assert_eq!(plus_one(-1), 0);
    assert_eq!(plus_one(i32::MAX - 1), i32::MAX);
}

#[test]
fn inner_scope_adds_two() {
    assert_eq!(inner_scope(3), 5);
    assert_eq!(inner_scope(-2), 0);
    assert_eq!(inner_scope(i32::MAX - 2), i32::MAX);
}

#[test]
fn gives_ownership_returns_hello() {
    assert_eq!(gives_ownership(), "Hello");
}

#[test]
fn change_appends_world() {
    let mut s = String::from("Hello");
    change(&mut s);
    assert_eq!(s, "Hello, world");
    let mut e = String::new();
    change(&mut e);
    assert_eq!(e, ", world");
}

#[test]
fn first_word_stops_at_first_space() {
    assert_eq!(first_word("Hello, world!"), "Hello,");
    assert_eq!(first_word("one two three"), "one");
    assert_eq!(first_word("single"), "single");
    assert_eq!(first_word(""), "");
    assert_eq!(first_word(" leading"), "");
    let owned = String::from("Hello, world!");
    assert_eq!(first_word(&owned), "Hello,");
}

#[test]
fn first_word_handles_multibyte_text() {
    assert_eq!(first_word("Здравствуйте мир"), "Здравствуйте");
    assert_eq!(first_word("नमस्ते"), "नमस्ते");
}

#[test]
fn first_number_stops_at_first_zero() {
    assert_eq!(first_number(&[1, 2, 3, 0, 4, 5]), &[1, 2, 3]);
    assert_eq!(first_number(&[0, 1]), &[] as &[i32]);
    assert_eq!(first_number(&[7, 8]), &[7, 8]);
    assert_eq!(first_number(&[]), &[] as &[i32]);
}
