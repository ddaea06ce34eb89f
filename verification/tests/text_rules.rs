use tuition_calculator::text::{
    char_is_whitespace, digit_to_text, number_to_text, parse_small_number, text_is_blank,
};

#[test]
fn whitespace_is_the_unicode_property() {
    let mut n: u32 = 0;
    while n <= 0x10FFFF {
        if let Some(c) = char::from_u32(n) {
            assert_eq!(char_is_whitespace(c), c.is_whitespace(), "U+{:04X}", n);
        }
        n += 1;
    }
}

#[test]
fn blank_means_empty_after_trimming() {
    for s in ["", " ", "\t\n", "a", " a ", "\u{a0}", "\u{2003}\u{2028}", " . ", "\u{200b}"] {
        assert_eq!(text_is_blank(s), s.trim().is_empty(), "{:?}", s);
    }
}

#[test]
fn small_numbers_are_read_as_unsigned_bytes() {
    let mut samples: Vec<String> = Vec::new();
    for n in 0..1200u32 {
        samples.push(n.to_string());
        samples.push(format!("+{}", n));
        samples.push(format!("-{}", n));
        samples.push(format!("0{}", n));
        samples.push(format!("{} ", n));
        samples.push(format!("{}x", n));
    }
    for s in ["", "+", "-", "++1", "+-1", "1+", "0x10", "1e2", "１２", "2５", "٣", "255", "256", "00000000000000000000000000255", "340282366920938463463374607431768211456"] {
        samples.push(s.to_string());
    }
    for s in samples {
        assert_eq!(parse_small_number(&s), s.parse::<u8>().ok(), "{:?}", s);
    }
}

#[test]
fn small_number_examples() {
    assert_eq!(parse_small_number("12"), Some(12));
    assert_eq!(parse_small_number("255"), Some(255));
    assert_eq!(parse_small_number("256"), None);
    assert_eq!(parse_small_number("abc"), None);
    assert_eq!(parse_small_number(""), None);
}

#[test]
fn numbers_are_written_in_decimal() {
    for n in 0..=255u8 {
        assert_eq!(number_to_text(n), n.to_string());
        assert_eq!(parse_small_number(&number_to_text(n)), Some(n));
    }
    assert_eq!(number_to_text(0), "0");
    assert_eq!(number_to_text(7), "7");
    assert_eq!(number_to_text(40), "40");
    assert_eq!(number_to_text(105), "105");
    assert_eq!(number_to_text(255), "255");
}

#[test]
fn digits_are_written_one_by_one() {
    let all = ["0", "1", "2", "3", "4", "5", "6", "7", "8", "9"];
    for d in 0..10u8 {
        assert_eq!(digit_to_text(d), all[d as usize]);
    }
}
