use rust_basics::enums::{
    add_unwrapped, coin_name, number_word, option_plus_one, quarter_state, value_in_cents, Coin,
    UsState,
};

#[test]
fn coin_values_in_cents() {
    assert_eq!(value_in_cents(Coin::Penny), 1);
    assert_eq!(value_in_cents(Coin::Nickel), 5);
    assert_eq!(value_in_cents(Coin::Dime), 10);
    assert_eq!(value_in_cents(Coin::Quarter(UsState::Alaska)), 25);
    assert_eq!(value_in_cents(Coin::Quarter(UsState::Alabama)), 25);
}

#[test]
fn coin_names() {
    assert_eq!(coin_name(Coin::Penny), "Penny");
    assert_eq!(coin_name(Coin::Nickel), "Nickel");
    assert_eq!(coin_name(Coin::Dime), "Dime");
    assert_eq!(coin_name(Coin::Quarter(UsState::Alabama)), "Quarter");
}

#[test]
fn only_quarters_have_a_state() {
    assert_eq!(quarter_state(Coin::Quarter(UsState::Alaska)), Some(UsState::Alaska));
    assert_eq!(quarter_state(Coin::Dime), None);
}

#[test]
fn option_plus_one_keeps_none() {
    assert_eq!(option_plus_one(Some(5)), Some(6));
    assert_eq!(option_plus_one(None), None);
    assert_eq!(option_plus_one(Some(-1)), Some(0));
}

#[test]
fn add_unwrapped_sums() {
    assert_eq!(add_unwrapped(1, Some(1)), 2);
    assert_eq!(add_unwrapped(-10, Some(3)), -7);
}

#[test]
fn number_words_for_small_odd_values() {
    assert_eq!(number_word(1), Some("one"));
    assert_eq!(number_word(3), Some("three"));
    assert_eq!(number_word(5), Some("five"));
    assert_eq!(number_word(7), Some("seven"));
    assert_eq!(number_word(0), None);
    assert_eq!(number_word(9), None);
    assert_eq!(number_word(255), None);
}
