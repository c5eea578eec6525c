use selfci::text;
use std::path::Path;

const SAMPLES: [&str; 14] = [
    "",
    "one",
    "one\n",
    "one\ntwo",
    "one\r\ntwo\r\n",
    "\n\n",
    "a\rb\n",
    "\r\n",
    "  padded  ",
    "a b\tc\u{2003}d",
    "\u{a0}x\u{85}",
    "trailing\n\n",
    "\u{feff}mark",
    "é\nü",
];

#[test]
fn white_space_is_what_the_language_calls_white_space() {
    for c in '\0'..=char::MAX {
        assert_eq!(text::char_is_white(c), c.is_whitespace(), "{:?}", c);
    }
}

#[test]
fn lines_words_and_trimming_agree_with_the_standard_library() {
    for s in SAMPLES {
        assert_eq!(text::split_lines(s), s.lines().collect::<Vec<_>>(), "{:?}", s);
        assert_eq!(text::split_whitespace(s), s.split_whitespace().collect::<Vec<_>>(), "{:?}", s);
        assert_eq!(text::trim(s), s.trim(), "{:?}", s);
        assert_eq!(text::split_on(s, 'o'), s.split('o').collect::<Vec<_>>(), "{:?}", s);
        for t in SAMPLES {
            assert_eq!(text::contains(s, t), s.contains(t), "{:?} {:?}", s, t);
            assert_eq!(text::starts_with(s, t), s.starts_with(t), "{:?} {:?}", s, t);
            assert_eq!(text::strip_prefix(s, t).as_deref(), s.strip_prefix(t), "{:?} {:?}", s, t);
            assert_eq!(text::same_text(s, t), s == t);
        }
    }
}

#[test]
fn numbers_are_written_in_decimal() {
    for n in [0u64, 7, 10, 99, 1234567890, u64::MAX] {
        assert_eq!(text::decimal_of(n), n.to_string());
    }
    for n in [0i32, -1, 42, i32::MIN, i32::MAX] {
        assert_eq!(text::signed_decimal_of(n), n.to_string());
    }
    for n in [0u16, 9, 0x10, 0xabc, u16::MAX] {
        assert_eq!(format!("0x{}", text::hexadecimal_of(n)), format!("{:#x}", n));
    }
}

#[test]
fn numbers_are_read_as_the_standard_library_reads_them() {
    for s in ["0", "7", "+7", "-7", "", "+", "007", "18446744073709551615", "18446744073709551616", "1a"] {
        assert_eq!(text::parse_natural(s, u64::MAX), s.parse::<u64>().ok(), "{:?}", s);
    }
    assert_eq!(text::parse_natural("256", 255), None);
    assert_eq!(text::parse_natural("255", 255), Some(255));
}

#[test]
fn paths_join_as_the_standard_library_joins_them() {
    for (dir, path) in [("/a", "b"), ("/a/", "b"), ("/a", "/b"), ("", "b"), ("a", "")] {
        assert_eq!(
            text::join_path(dir, path),
            Path::new(dir).join(path).to_str().unwrap(),
            "{:?} {:?}",
            dir,
            path
        );
    }
    for (a, b) in [("/a/b", "/a//b/"), ("/a/./b", "/a/b"), ("a", "/a"), ("/a/b", "/a/c")] {
        assert_eq!(text::paths_match(a, b), Path::new(a) == Path::new(b), "{:?} {:?}", a, b);
    }
}

#[test]
fn lists_are_joined() {
    let parts = vec!["a".to_string(), "b".to_string(), "c".to_string()];
    assert_eq!(text::join(&parts, ", "), parts.join(", "));
    assert_eq!(text::join(&vec![], ", "), "");
}

#[test]
fn bytes_are_counted_in_utf8() {
    for s in ["", "abc", "é", "日本", "🚀x", "a\u{7ff}\u{800}\u{ffff}\u{10000}"] {
        assert_eq!(text::underline(s), "-".repeat(s.len()), "{:?}", s);
        for n in 0..=s.len() + 2 {
            let end = n.min(s.len());
            let expected = if s.is_char_boundary(end) { Some(&s[..end]) } else { None };
            assert_eq!(text::take_bytes(s, n).as_deref(), expected, "{:?} {}", s, n);
        }
    }
}
