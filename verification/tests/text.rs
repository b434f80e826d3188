use usb_display_bridge::text;

const SAMPLES: [&str; 14] = [
    "",
    " ",
    "a",
    "  a b\t c  ",
    "\u{a0}x\u{3000}",
    "one\ntwo",
    "one\r\ntwo\r\n",
    "\n\n",
    "a\rb\n",
    "tail\r",
    "\r\n\r\n",
    "caf\u{e9} \u{1f600}\nna\u{ef}ve",
    "\u{2028}line\u{2029}",
    "x\n\ny\n",
];

#[test]
fn white_space_is_that_of_unicode() {
    for n in 0u32..0x11_0000 {
        if let Some(c) = char::from_u32(n) {
            assert_eq!(text::is_white(c), c.is_whitespace(), "{n:x}");
        }
    }
}

#[test]
fn trim_takes_both_ends() {
    for s in SAMPLES {
        assert_eq!(text::trim(s), s.trim());
    }
    assert_eq!(text::trim("\t error: no device \r\n"), "error: no device");
}

#[test]
fn words_are_split_at_white_space() {
    for s in SAMPLES {
        let want: Vec<&str> = s.split_whitespace().collect();
        assert_eq!(text::words(s), want);
    }
    assert_eq!(text::words("R58  device usb:1"), ["R58", "device", "usb:1"]);
}

#[test]
fn lines_end_at_line_breaks() {
    for s in SAMPLES {
        let want: Vec<&str> = s.lines().collect();
        assert_eq!(text::lines(s), want);
    }
    assert_eq!(text::lines("a\r\nb\n\nc\r"), ["a", "b", "", "c\r"]);
}

#[test]
fn parts_are_found_anywhere() {
    let parts: [&str; 7] = ["", "a", "two", "e\n", "\r\n", "\u{1f600}", "zzz"];
    for s in SAMPLES {
        for p in parts {
            assert_eq!(text::contains(s, p), s.contains(p), "{s:?} {p:?}");
        }
    }
    assert!(text::contains("aab", "ab"));
    assert!(!text::contains("ab", "aab"));
}

#[test]
fn what_is_found_is_found_in_a_line() {
    for s in SAMPLES {
        for p in ["a", "two", "ine", "x", "absent"] {
            let in_line: bool = text::lines(s).iter().any(|l| text::contains(l, p));
            assert_eq!(text::contains(s, p), in_line);
        }
    }
}

#[test]
fn numbers_are_written_in_decimal() {
    for n in [0u64, 7, 9, 10, 19, 99, 100, 27183, 65535, 4294967296, u64::MAX] {
        assert_eq!(text::number(n), n.to_string());
    }
    for n in [0i32, 5, -1, -10, -1094995529, i32::MIN, i32::MAX] {
        assert_eq!(text::signed_number(n), n.to_string());
    }
}

#[test]
fn different_numbers_read_differently() {
    for a in 0u64..120 {
        for b in 0u64..120 {
            assert_eq!(text::number(a) == text::number(b), a == b);
        }
    }
}

#[test]
fn slices_and_characters_are_kept() {
    assert_eq!(text::owned(&["-s", "", "x y"]), ["-s", "", "x y"]);
    assert_eq!(text::chars_of("a\u{1f600}b"), ['a', '\u{1f600}', 'b']);
}
