use keyframe_extractor::text::{decimal, split, trim};

#[test]
fn split_without_separator_is_one_piece() {
    assert_eq!(split("mp4", ','), vec!["mp4".to_string()]);
}

#[test]
fn split_of_empty_string_is_one_empty_piece() {
    assert_eq!(split("", ','), vec![String::new()]);
}

#[test]
fn split_cuts_at_every_separator() {
    assert_eq!(
        split("mp4,mov,avi,mkv,flv", ','),
        vec!["mp4", "mov", "avi", "mkv", "flv"]
    );
}

#[test]
fn split_keeps_empty_pieces() {
    assert_eq!(split(",a,,b,", ','), vec!["", "a", "", "b", ""]);
}

#[test]
fn split_agrees_with_std() {
    for s in ["", ",", "a", "a,b", ",,", "x,,y,", "é,ü", " a , b "] {
        let expected: Vec<String> = s.split(',').map(|p| p.to_string()).collect();
        assert_eq!(split(s, ','), expected);
    }
}

#[test]
fn split_counts_characters_not_bytes() {
    assert_eq!(split("ä,ö", ','), vec!["ä", "ö"]);
}

#[test]
fn trim_removes_white_space_at_both_ends() {
    assert_eq!(trim("  mp4\t\n"), "mp4");
}

#[test]
fn trim_keeps_inner_white_space() {
    assert_eq!(trim(" a b "), "a b");
}

#[test]
fn trim_of_white_space_is_empty() {
    assert_eq!(trim(" \t \n"), "");
    assert_eq!(trim(""), "");
}

#[test]
fn trim_leaves_a_trimmed_string_alone() {
    assert_eq!(trim("mov"), "mov");
}

#[test]
fn trim_knows_unicode_white_space() {
    assert_eq!(trim("\u{2003}mkv\u{00a0}"), "mkv");
}

#[test]
fn trim_agrees_with_std() {
    for s in ["", " ", "a", " a", "a ", "  a  b  ", "\r\nx\r\n", "\u{3000}y"] {
        assert_eq!(trim(s), s.trim());
    }
}

#[test]
fn decimal_of_single_digits() {
    assert_eq!(decimal(0), "0");
    assert_eq!(decimal(5), "5");
    assert_eq!(decimal(9), "9");
}

#[test]
fn decimal_of_two_and_three_digits() {
    assert_eq!(decimal(10), "10");
    assert_eq!(decimal(31), "31");
    assert_eq!(decimal(99), "99");
    assert_eq!(decimal(100), "100");
    assert_eq!(decimal(105), "105");
    assert_eq!(decimal(255), "255");
}

#[test]
fn decimal_agrees_with_std_on_every_value() {
    for n in 0..=255u8 {
        assert_eq!(decimal(n), n.to_string());
    }
}
