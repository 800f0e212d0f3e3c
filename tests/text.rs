use dynamixel_ct::text::{is_white_space, parse_i32, parse_u16, split_chars, trim_chars, replace_chars, contains_str};

fn chars(s: &str) -> Vec<char> {
    s.chars().collect()
}

fn text(v: &[char]) -> String {
    v.iter().collect()
}

#[test]
fn parse_u16_reads_decimal_text() {
    assert_eq!(parse_u16(&chars("0")), Some(0));
    assert_eq!(parse_u16(&chars("116")), Some(116));
    assert_eq!(parse_u16(&chars("+7")), Some(7));
    assert_eq!(parse_u16(&chars("65535")), Some(65535));
    assert_eq!(parse_u16(&chars("65536")), None);
    assert_eq!(parse_u16(&chars("")), None);
    assert_eq!(parse_u16(&chars("+")), None);
    assert_eq!(parse_u16(&chars("-1")), None);
    assert_eq!(parse_u16(&chars("1 2")), None);
    assert_eq!(parse_u16(&chars("0x10")), None);
}

#[test]
fn parse_i32_reads_signed_text() {
    assert_eq!(parse_i32(&chars("1020")), Some(1020));
    assert_eq!(parse_i32(&chars("-5")), Some(-5));
    assert_eq!(parse_i32(&chars("2147483647")), Some(i32::MAX));
    assert_eq!(parse_i32(&chars("-2147483648")), Some(i32::MIN));
    assert_eq!(parse_i32(&chars("2147483648")), None);
    assert_eq!(parse_i32(&chars("-")), None);
    assert_eq!(parse_i32(&chars("1,020")), None);
}

#[test]
fn split_keeps_empty_border_cells() {
    let cells = split_chars(&chars("| 0 | 2 |"), '|');
    let cells: Vec<String> = cells.iter().map(|c| text(c)).collect();
    assert_eq!(cells, vec!["", " 0 ", " 2 ", ""]);
    assert_eq!(split_chars(&chars(""), '|').len(), 1);
}

#[test]
fn trim_removes_white_space_at_both_ends() {
    assert_eq!(text(&trim_chars(&chars(" \t[Model Number] \u{a0}"))), "[Model Number]");
    assert_eq!(text(&trim_chars(&chars("   "))), "");
}

#[test]
fn replace_works_left_to_right() {
    assert_eq!(text(&replace_chars(&chars("a<br>b<br>"), "<br>", " ")), "a b ");
    assert_eq!(text(&replace_chars(&chars("4,095"), ",", "")), "4095");
    assert!(contains_str(&chars("| ... |"), "..."));
    assert!(!contains_str(&chars("| .. |"), "..."));
}

#[test]
fn white_space_agrees_with_the_standard_library() {
    for u in 0..=0x10ffffu32 {
        if let Some(c) = char::from_u32(u) {
            assert_eq!(is_white_space(c), c.is_whitespace(), "U+{:04X}", u);
        }
    }
}
