use discord::markup::{escape_string, needs_escape, DiscordFormatter, EscapedChars, InlineCodeState};
use discord::text::{
    chars_of, count_char, decimal, join_lines, padded, parse_decimal, push_decimal,
    signed_decimal, text_of, trim_end_at, trim_end_of_at, trim_start_at, with_breaks,
};

#[test]
fn decimal_writes_numbers() {
    assert_eq!(decimal(0), "0");
    assert_eq!(decimal(7), "7");
    assert_eq!(decimal(10), "10");
    assert_eq!(decimal(1234567890), "1234567890");
    assert_eq!(decimal(u64::MAX), "18446744073709551615");
    let mut s = String::from("id=");
    push_decimal(&mut s, 42);
    assert_eq!(s, "id=42");
}

#[test]
fn signed_decimal_writes_the_sign() {
    assert_eq!(signed_decimal(0), "0");
    assert_eq!(signed_decimal(-1), "-1");
    assert_eq!(signed_decimal(25), "25");
    assert_eq!(signed_decimal(i64::MIN), "-9223372036854775808");
    assert_eq!(signed_decimal(i64::MAX), "9223372036854775807");
}

#[test]
fn padded_is_two_wide_at_least() {
    assert_eq!(padded(0), " 0");
    assert_eq!(padded(9), " 9");
    assert_eq!(padded(10), "10");
    assert_eq!(padded(-1), "-1");
    assert_eq!(padded(123), "123");
}

#[test]
fn parse_decimal_reads_what_decimal_writes() {
    for n in [0u64, 1, 9, 10, 99, 100, 4294967296, u64::MAX] {
        assert_eq!(parse_decimal(&decimal(n)), Some(n));
    }
}

#[test]
fn parse_decimal_takes_a_plus_and_leading_zeros() {
    assert_eq!(parse_decimal("+5"), Some(5));
    assert_eq!(parse_decimal("007"), Some(7));
    assert_eq!(parse_decimal("+000"), Some(0));
}

#[test]
fn parse_decimal_rejects_what_is_no_number() {
    assert_eq!(parse_decimal(""), None);
    assert_eq!(parse_decimal("+"), None);
    assert_eq!(parse_decimal("-1"), None);
    assert_eq!(parse_decimal("12a"), None);
    assert_eq!(parse_decimal(" 12"), None);
    assert_eq!(parse_decimal("12 "), None);
    assert_eq!(parse_decimal("++1"), None);
    assert_eq!(parse_decimal("1+"), None);
    assert_eq!(parse_decimal("٣"), None);
}

#[test]
fn parse_decimal_rejects_what_does_not_fit() {
    assert_eq!(parse_decimal("18446744073709551615"), Some(u64::MAX));
    assert_eq!(parse_decimal("18446744073709551616"), None);
    assert_eq!(parse_decimal("99999999999999999999"), None);
    assert_eq!(parse_decimal("184467440737095516150"), None);
    assert_eq!(parse_decimal("18446744073709551616x"), None);
}

#[test]
fn chars_and_counts() {
    assert_eq!(chars_of("añ_"), vec!['a', 'ñ', '_']);
    assert_eq!(chars_of(""), Vec::<char>::new());
    assert_eq!(count_char("a_b__c", '_'), 3);
    assert_eq!(count_char("", '_'), 0);
    assert_eq!(count_char("abc", '_'), 0);
    assert_eq!(text_of(&chars_of("hello"), 1, 4), "ell");
    assert_eq!(text_of(&chars_of("hello"), 2, 2), "");
}

#[test]
fn trimming() {
    let chars = chars_of("  a b \t\n..");
    assert_eq!(trim_start_at(&chars, 0, chars.len()), 2);
    assert_eq!(trim_end_of_at(&chars, 0, chars.len(), '.'), 8);
    assert_eq!(trim_end_at(&chars, 0, 8), 5);
    assert_eq!(trim_end_at(&chars, 0, 2), 0);
    assert_eq!(trim_start_at(&chars, 5, 8), 8);
    let wide = chars_of("a\u{3000}");
    assert_eq!(trim_end_at(&wide, 0, 2), 1);
}

#[test]
fn lines_and_breaks() {
    assert_eq!(join_lines(&vec![]), "");
    assert_eq!(join_lines(&vec!["a".to_string()]), "a");
    assert_eq!(join_lines(&vec!["a".to_string(), "".to_string(), "b".to_string()]), "a\n\nb");
    assert_eq!(with_breaks("one\\ntwo"), "one\n two");
    assert_eq!(with_breaks("\\n\\n"), "\n \n ");
    assert_eq!(with_breaks("back\\slash n"), "back\\slash n");
    assert_eq!(with_breaks("end\\"), "end\\");
    assert_eq!(with_breaks(""), "");
}

#[test]
fn escape_string_escapes_markup() {
    assert_eq!(escape_string("plain text 123"), "plain text 123");
    assert_eq!(escape_string("a_b"), "a\\_b");
    assert_eq!(escape_string("\\_*|~`[]()<>"), "\\\\\\_\\*\\|\\~\\`\\[\\]\\(\\)\\<\\>");
    assert_eq!(escape_string(""), "");
    assert_eq!(escape_string("é*"), "é\\*");
    for c in ['\\', '_', '*', '|', '~', '`', '[', ']', '(', ')', '<', '>'] {
        assert!(needs_escape(c));
    }
    for c in ['a', ' ', '.', '#', '@', '{', '}', '-', '/'] {
        assert!(!needs_escape(c));
    }
}

#[test]
fn escaped_chars_come_one_at_a_time() {
    let mut it = EscapedChars::new("a*b");
    assert_eq!(it.next(), Some('a'));
    assert_eq!(it.next(), Some('\\'));
    assert_eq!(it.next(), Some('*'));
    assert_eq!(it.next(), Some('b'));
    assert_eq!(it.next(), None);
    assert_eq!(it.next(), None);
}

#[test]
fn formatter_escapes_outside_of_code() {
    let mut f = DiscordFormatter::new();
    assert_eq!(f.state(), InlineCodeState::Outside);
    f.write_str("a_b");
    f.unescaped("<@1>");
    f.write_str("");
    assert_eq!(f.state(), InlineCodeState::Outside);
    assert_eq!(f.finish(), "a\\_b<@1>");
}

#[test]
fn formatter_sets_code_between_backticks() {
    let mut f = DiscordFormatter::new();
    f.start_code();
    assert_eq!(f.state(), InlineCodeState::Starting);
    f.write_str("");
    assert_eq!(f.state(), InlineCodeState::Starting);
    f.write_str("x_y");
    assert_eq!(f.state(), InlineCodeState::Inside);
    f.write_str("*z");
    f.start_code();
    assert_eq!(f.state(), InlineCodeState::Inside);
    f.end_code();
    assert_eq!(f.state(), InlineCodeState::Ended);
    f.end_code();
    assert_eq!(f.finish(), "``x_y*z``");
}

#[test]
fn formatter_leaves_no_trace_of_empty_code() {
    let mut f = DiscordFormatter::new();
    f.write_str("a");
    f.start_code();
    f.end_code();
    assert_eq!(f.state(), InlineCodeState::Outside);
    f.end_code();
    f.write_str("b");
    assert_eq!(f.finish(), "ab");
}

#[test]
fn formatter_parts_code_from_code_by_a_space() {
    let mut f = DiscordFormatter::new();
    f.start_code();
    f.write_str("a");
    f.end_code();
    f.start_code();
    assert_eq!(f.state(), InlineCodeState::Starting);
    f.write_str("b");
    f.end_code();
    f.write_str("");
    assert_eq!(f.state(), InlineCodeState::Ended);
    f.write_str("_");
    assert_eq!(f.state(), InlineCodeState::Outside);
    assert_eq!(f.finish(), "``a`` ``b``\\_");
}
