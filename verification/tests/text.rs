use fm_synth::text::{format_list, format_number, join_words, parse_number};

#[test]
fn numbers_are_read_in_decimal() {
    assert_eq!(parse_number("0"), Some(0));
    assert_eq!(parse_number("5"), Some(5));
    assert_eq!(parse_number("12"), Some(12));
    assert_eq!(parse_number("007"), Some(7));
    assert_eq!(parse_number("4096"), Some(4_096));
}

#[test]
fn a_leading_plus_sign_is_accepted() {
    assert_eq!(parse_number("+5"), Some(5));
    assert_eq!(parse_number("+0"), Some(0));
    assert_eq!(parse_number("++5"), None);
    assert_eq!(parse_number("+"), None);
    assert_eq!(parse_number("5+"), None);
}

#[test]
fn anything_else_is_no_number() {
    for text in ["", "-5", " 5", "5 ", "1 2", "12a", "a12", "1_000", "1.5", "0x10", "bell", "٣", "５", "1é"] {
        assert_eq!(parse_number(text), None, "{:?}", text);
    }
}

#[test]
fn numbers_that_do_not_fit_are_refused() {
    let largest = usize::MAX.to_string();
    assert_eq!(parse_number(&largest), Some(usize::MAX));
    assert_eq!(parse_number(&format!("+000{}", largest)), Some(usize::MAX));
    let mut digits: Vec<u8> = largest.clone().into_bytes();
    let last = digits.len() - 1;
    digits[last] += 1;
    assert_eq!(parse_number(std::str::from_utf8(&digits).unwrap()), None);
    assert_eq!(parse_number(&format!("{}0", largest)), None);
    assert_eq!(parse_number("99999999999999999999999999999999999999999"), None);
    assert_eq!(parse_number("99999999999999999999999999999999999999999x"), None);
}

#[test]
fn numbers_are_read_as_the_standard_library_reads_them() {
    let mut texts: Vec<String> = vec![
        "", "+", "-", "+1", "-1", "00", "9", "10", "18446744073709551615", "18446744073709551616",
        "4294967295", "4294967296", " 1", "1 ", "1\n", "+-1", "1e3", "١",
    ]
    .into_iter()
    .map(String::from)
    .collect();
    for n in 0..300usize {
        texts.push(n.to_string());
        texts.push(format!("+{}", n));
        texts.push(format!("{}x", n));
    }
    for text in texts {
        assert_eq!(parse_number(&text), text.parse::<usize>().ok(), "{:?}", text);
    }
}

#[test]
fn numbers_are_written_in_decimal() {
    assert_eq!(format_number(0), "0");
    assert_eq!(format_number(7), "7");
    assert_eq!(format_number(10), "10");
    assert_eq!(format_number(12), "12");
    assert_eq!(format_number(1_234_567_890), "1234567890");
    assert_eq!(format_number(usize::MAX), usize::MAX.to_string());
    for n in 0..2_000usize {
        assert_eq!(format_number(n), n.to_string());
        assert_eq!(parse_number(&format_number(n)), Some(n));
    }
}

#[test]
fn a_list_numbers_its_lines_from_one() {
    assert_eq!(format_list(&vec![]), "");
    assert_eq!(format_list(&vec!["Bell"]), "1. Bell");
    assert_eq!(format_list(&vec!["Bell", "Bass", "Electric Piano"]), "1. Bell\n2. Bass\n3. Electric Piano");
    let names: Vec<&str> = vec!["x"; 11];
    assert_eq!(
        format_list(&names),
        "1. x\n2. x\n3. x\n4. x\n5. x\n6. x\n7. x\n8. x\n9. x\n10. x\n11. x"
    );
}

#[test]
fn words_are_joined_with_single_spaces() {
    let words = vec!["play", "1", "ode", "to", "joy"];
    assert_eq!(join_words(&words, 2), "ode to joy");
    assert_eq!(join_words(&words, 4), "joy");
    assert_eq!(join_words(&words, 5), "");
    assert_eq!(join_words(&words, 0), "play 1 ode to joy");
    assert_eq!(join_words(&vec![], 0), "");
}
