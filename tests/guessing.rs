use rust_basics::guessing::{
    judge, parse_u32, play_line, read_guess, secret_number, Verdict, HIGHEST, LOWEST,
};

#[test]
fn secret_is_in_range() {
    for _ in 0..200 {
        let s = secret_number();
        assert!(LOWEST <= s && s <= HIGHEST);
    }
}

#[test]
fn parse_u32_accepts_plain_decimal() {
    assert_eq!(parse_u32("42"), Some(42));
    assert_eq!(parse_u32("0"), Some(0));
    assert_eq!(parse_u32("+7"), Some(7));
    assert_eq!(parse_u32("007"), Some(7));
    assert_eq!(parse_u32("4294967295"), Some(u32::MAX));
}

#[test]
fn parse_u32_rejects_other_text() {
    assert_eq!(parse_u32(""), None);
    assert_eq!(parse_u32("+"), None);
    assert_eq!(parse_u32("-1"), None);
    assert_eq!(parse_u32("12a"), None);
    assert_eq!(parse_u32(" 12"), None);
    assert_eq!(parse_u32("4294967296"), None);
    assert_eq!(parse_u32("99999999999999999999x"), None);
}

#[test]
fn parse_u32_matches_std() {
    for s in ["1", "65535", "+0", "++1", "1 2", "٣", "00000000000000000001", "4294967300"] {
        assert_eq!(parse_u32(s), s.parse::<u32>().ok(), "{}", s);
    }
}

#[test]
fn read_guess_ignores_surrounding_whitespace() {
    assert_eq!(read_guess("  50\n"), Some(50));
    assert_eq!(read_guess("\t7 \r\n"), Some(7));
    assert_eq!(read_guess("5 0\n"), None);
    assert_eq!(read_guess("\n"), None);
}

#[test]
fn judge_compares_with_secret() {
    assert_eq!(judge(10, 50), Verdict::TooSmall);
    assert_eq!(judge(90, 50), Verdict::TooBig);
    assert_eq!(judge(50, 50), Verdict::Win);
}

#[test]
fn verdict_messages() {
    assert_eq!(Verdict::TooSmall.message(), "Too small!");
    assert_eq!(Verdict::TooBig.message(), "Too big!");
    assert_eq!(Verdict::Win.message(), "You win!");
    assert!(Verdict::Win.ends_round());
    assert!(!Verdict::TooBig.ends_round());
}

#[test]
fn play_line_answers_each_input() {
    assert_eq!(play_line(42, "abc\n"), None);
    assert_eq!(play_line(42, "41\n"), Some((41, Verdict::TooSmall)));
    assert_eq!(play_line(42, " 43 \n"), Some((43, Verdict::TooBig)));
    assert_eq!(play_line(42, "42\n"), Some((42, Verdict::Win)));
}
