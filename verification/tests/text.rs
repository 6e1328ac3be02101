use install_core::number::{parse_hex, to_decimal};
use install_core::text::{
    contains, contains_any, cut_at_space, first_word, is_whitespace, join, lines, rsplit_once,
    same, split_on, starts_with, trim,
};

const SAMPLES: [&str; 20] = [
    "",
    " ",
    "a",
    "a b",
    " a  b ",
    "\ta\u{a0}b\u{3000}",
    "a:b:c",
    ":a:",
    "::",
    "a.b.c",
    ".",
    "line\n",
    "one\ntwo",
    "one\r\ntwo\r\n",
    "one\r",
    "\n\n",
    "\r\n",
    "a\rb\nc",
    "gr\u{fc}\u{df}e \u{1f600} x",
    "aaab",
];

#[test]
fn white_space_is_that_of_unicode() {
    for n in 0..=0x10ffffu32 {
        if let Some(c) = char::from_u32(n) {
            assert_eq!(is_whitespace(c), c.is_whitespace(), "{n:x}");
        }
    }
}

#[test]
fn lines_end_in_newlines() {
    for sample in SAMPLES {
        assert_eq!(lines(sample), sample.lines().collect::<Vec<&str>>(), "{sample:?}");
    }
    assert_eq!(lines("one\r\ntwo\nthree\r"), vec!["one", "two", "three\r"]);
}

#[test]
fn splitting_keeps_empty_pieces() {
    for sample in SAMPLES {
        for sep in [' ', ':', '.', '\u{fc}'] {
            assert_eq!(split_on(sample, sep), sample.split(sep).collect::<Vec<&str>>());
            assert_eq!(rsplit_once(sample, sep), sample.rsplit_once(sep));
        }
    }
    assert_eq!(split_on("", ':'), vec![""]);
    assert_eq!(split_on("a::b", ':'), vec!["a", "", "b"]);
}

#[test]
fn trimming_takes_off_white_space() {
    for sample in SAMPLES {
        assert_eq!(trim(sample), sample.trim());
        assert_eq!(first_word(sample), sample.split_whitespace().next());
        let mut parts = sample.splitn(2, char::is_whitespace);
        let head = parts.next().unwrap();
        assert_eq!(cut_at_space(sample), (head, parts.next().unwrap_or("")));
    }
    assert_eq!(trim("\n qemu \n"), "qemu");
    assert_eq!(cut_at_space("0000:01:00.0 VGA  x"), ("0000:01:00.0", "VGA  x"));
}

#[test]
fn searching_finds_text_anywhere() {
    for text in SAMPLES {
        for needle in SAMPLES {
            assert_eq!(contains(text, needle), text.contains(needle), "{text:?} {needle:?}");
            assert_eq!(starts_with(text, needle), text.starts_with(needle));
            assert_eq!(same(text, needle), text == needle);
        }
    }
    assert!(contains("aaab", "aab"));
    assert!(contains_any("xyz", &vec!["q", "yz"]));
    assert!(!contains_any("xyz", &vec!["q", "zy"]));
    assert!(!contains_any("xyz", &vec![]));
}

#[test]
fn joining_puts_text_between() {
    assert_eq!(join(&vec![], " "), "");
    assert_eq!(join(&vec!["a"], " "), "a");
    assert_eq!(join(&vec!["a", "", "b"], ", "), "a, , b");
}

#[test]
fn hexadecimal_numbers_are_read() {
    let samples = [
        "", "+", "-", "0", "+0", "00000000000000000001", "ff", "FF", "fF", "+1f", "++1", "-1",
        "ffffffff", "100000000", "0x10", "g", "1g", " 1", "1 ", "1_0", "7fffffff",
        "00000000ffffffff", "fffffffff",
    ];
    for sample in samples {
        assert_eq!(parse_hex(sample), u32::from_str_radix(sample, 16).ok(), "{sample:?}");
    }
    assert_eq!(parse_hex("1f"), Some(31));
}

#[test]
fn decimal_numbers_are_written() {
    for n in [0, 1, 9, 10, 99, 100, 255, 1_000_000, u32::MAX as u64, u64::MAX] {
        assert_eq!(to_decimal(n), n.to_string());
    }
}
