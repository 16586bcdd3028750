use llm_wake_proxy::numeral::{decimal_text, parse_number};
use llm_wake_proxy::table::TextTable;
use llm_wake_proxy::text::{
    contains, is_white, join, lines, owned, same, split, split_once, starts_with, strip_prefix,
    trim,
};

#[test]
fn white_space_is_what_std_says_it_is() {
    for n in 0..=0x10FFFFu32 {
        if let Some(c) = char::from_u32(n) {
            assert_eq!(is_white(c), c.is_whitespace(), "{n:x}");
        }
    }
}

#[test]
fn trimming_agrees_with_std() {
    for text in ["", " ", "a", "  a b \t", "\u{a0}x\u{3000}", "\n\r\n", "x\u{200b}"] {
        assert_eq!(trim(text), text.trim());
    }
}

#[test]
fn lines_agree_with_std() {
    for text in ["", "\n", "a", "a\n", "a\nb", "a\r\nb\r", "\r\n\r\n", "a\r\r\n", "\n\na"] {
        let expected: Vec<&str> = text.lines().collect();
        assert_eq!(lines(text), expected, "{text:?}");
    }
}

#[test]
fn splitting_agrees_with_std_and_is_undone_by_joining() {
    for text in ["", ":", "a:b", "::", "a::b:", "no mark", "\u{e4}:\u{f6}"] {
        let expected: Vec<&str> = text.split(':').collect();
        let parts = split(text, ':');
        assert_eq!(parts, expected, "{text:?}");
        assert_eq!(join(&parts, ':'), text);
        assert_eq!(
            split_once(text, ':'),
            text.split_once(':').map(|(a, b)| (a.to_string(), b.to_string()))
        );
    }
    assert_eq!(join(&vec![], ':'), "");
}

#[test]
fn searching_agrees_with_std() {
    for whole in ["", "a", "aab", "abab", "\"model\"", "x \"model\": y"] {
        for part in ["", "a", "ab", "\"model\"", "abab", "ababa"] {
            assert_eq!(contains(whole, part), whole.contains(part));
            assert_eq!(starts_with(whole, part), whole.starts_with(part));
            assert_eq!(same(whole, part), whole == part);
            assert_eq!(
                strip_prefix(whole, part),
                whole.strip_prefix(part).map(|rest| rest.to_string())
            );
        }
    }
}

#[test]
fn numbers_are_printed_and_read_as_std_does() {
    for n in [0, 1, 9, 10, 99, 100, 65535, 1_717_156_800, u64::MAX] {
        assert_eq!(decimal_text(n), n.to_string());
        assert_eq!(parse_number(&decimal_text(n), 10, u64::MAX), Some(n));
    }
    for text in [
        "", "+", "-", "+0", "-0", "007", "12a", " 1", "1 ", "++1", "255", "256", "+255",
        "99999999999999999999999999", "\u{661}",
    ] {
        assert_eq!(
            parse_number(text, 10, 255),
            text.parse::<u8>().ok().map(u64::from),
            "{text:?}"
        );
        assert_eq!(
            parse_number(text, 16, 255),
            u8::from_str_radix(text, 16).ok().map(u64::from),
            "{text:?}"
        );
        assert_eq!(parse_number(text, 10, u64::MAX), text.parse::<u64>().ok(), "{text:?}");
    }
}

#[test]
fn later_entries_replace_earlier_ones() {
    let mut table = TextTable::new();
    assert!(table.get("a").is_none());
    table.insert("a".to_string(), "1".to_string());
    table.insert("b".to_string(), "2".to_string());
    table.insert("a".to_string(), "3".to_string());
    assert_eq!(table.get("a").unwrap(), "3");
    assert_eq!(table.get("b").unwrap(), "2");
    assert_eq!(table.text_or("c", "none"), "none");
    assert_eq!(table.number_or("b", 10, 7), 2);
    assert_eq!(table.number_or("b", 1, 7), 7);
    assert_eq!(table.number_or("c", 10, 7), 7);
}

#[test]
fn owned_copies() {
    assert_eq!(owned(&["a", "", "c"]), ["a", "", "c"]);
}
