use calculator::command::{eq_ignore_ascii_case, is_exit_command, to_ascii_lowercase};
use calculator::trim::trim;
use calculator::whitespace::char_is_whitespace;
use calculator::words::split_whitespace;

const SAMPLES: [&str; 20] = [
    "",
    " ",
    "\n",
    "   \t  ",
    "5 + 3",
    "5  +   3",
    "  5 + 3  ",
    "5+3",
    "one",
    " one",
    "one ",
    "a b c d e f",
    "\u{a0}x\u{2003}y\u{3000}",
    "x\u{200b}y",
    "x\u{180e}y",
    "x\u{feff}y z",
    "x\u{85}y\u{1680}z\u{2028}w\u{2029}v\u{202f}u\u{205f}t",
    "tab\there\r\nnext\u{b}line\u{c}feed",
    "ünï çödé  →  ✓",
    "quit",
];

#[test]
fn whitespace_is_what_the_standard_library_calls_whitespace() {
    let mut count = 0;
    for code in 0..=0x10_ffffu32 {
        if let Some(c) = char::from_u32(code) {
            assert_eq!(char_is_whitespace(c), c.is_whitespace(), "U+{:04X}", code);
            if char_is_whitespace(c) {
                count += 1;
            }
        }
    }
    assert_eq!(count, 25);
}

#[test]
fn the_common_separators_are_whitespace() {
    for c in [' ', '\t', '\n', '\r', '\u{b}', '\u{c}', '\u{85}', '\u{a0}', '\u{3000}'] {
        assert!(char_is_whitespace(c), "{:?}", c);
    }
}

#[test]
fn characters_that_only_look_blank_are_not_whitespace() {
    let others = [
        '\u{0}', '\u{8}', '\u{e}', '\u{1f}', '\u{180e}', '\u{200b}', '\u{200c}', '\u{2060}',
        '\u{feff}', 'a', '0', '+',
    ];
    for c in others {
        assert!(!char_is_whitespace(c), "{:?}", c);
    }
}

#[test]
fn split_gives_the_words_in_order() {
    assert_eq!(split_whitespace("5 + 3"), vec!["5", "+", "3"]);
    assert_eq!(split_whitespace("5  +   3"), vec!["5", "+", "3"]);
    assert_eq!(split_whitespace("  lead and trail \n"), vec!["lead", "and", "trail"]);
    assert_eq!(split_whitespace("5+3"), vec!["5+3"]);
    assert_eq!(split_whitespace("a\tb\nc\rd"), vec!["a", "b", "c", "d"]);
}

#[test]
fn split_of_a_blank_line_is_empty() {
    assert!(split_whitespace("").is_empty());
    assert!(split_whitespace(" ").is_empty());
    assert!(split_whitespace(" \t\r\n\u{3000}").is_empty());
}

#[test]
fn split_counts_characters_not_bytes() {
    assert_eq!(split_whitespace("é ü"), vec!["é", "ü"]);
    assert_eq!(split_whitespace("\u{3000}日本\u{3000}語\u{3000}"), vec!["日本", "語"]);
    assert_eq!(split_whitespace("😀😀 😀"), vec!["😀😀", "😀"]);
}

#[test]
fn split_agrees_with_the_standard_library() {
    for line in SAMPLES {
        let expected: Vec<&str> = line.split_whitespace().collect();
        assert_eq!(split_whitespace(line), expected, "{:?}", line);
    }
}

#[test]
fn split_is_not_changed_by_more_whitespace() {
    let plain = split_whitespace("12 * 4");
    let lines =
        ["12  *  4", " 12 * 4", "12 * 4 ", "\t12\n*\r\n4\u{a0}", "12\u{2000}\u{2001}*\u{2002}4"];
    for line in lines {
        assert_eq!(split_whitespace(line), plain, "{:?}", line);
    }
}

#[test]
fn trim_removes_the_whitespace_around() {
    assert_eq!(trim("  5 + 3  "), "5 + 3");
    assert_eq!(trim("quit\n"), "quit");
    assert_eq!(trim("\r\n\t x  y \u{3000}"), "x  y");
    assert_eq!(trim("x"), "x");
    assert_eq!(trim(" x"), "x");
    assert_eq!(trim("x "), "x");
}

#[test]
fn trim_of_a_blank_line_is_empty() {
    assert_eq!(trim(""), "");
    assert_eq!(trim(" "), "");
    assert_eq!(trim("\n"), "");
    assert_eq!(trim(" \t \u{2028} "), "");
}

#[test]
fn trim_keeps_the_whitespace_inside() {
    assert_eq!(trim(" a \t b "), "a \t b");
    assert_eq!(trim("é  ü\n"), "é  ü");
}

#[test]
fn trim_agrees_with_the_standard_library() {
    for line in SAMPLES {
        assert_eq!(trim(line), line.trim(), "{:?}", line);
    }
}

#[test]
fn lowercase_maps_the_ascii_capitals_only() {
    for code in 0..=0x10_ffffu32 {
        if let Some(c) = char::from_u32(code) {
            assert_eq!(to_ascii_lowercase(c), c.to_ascii_lowercase(), "U+{:04X}", code);
        }
    }
    assert_eq!(to_ascii_lowercase('A'), 'a');
    assert_eq!(to_ascii_lowercase('Z'), 'z');
    assert_eq!(to_ascii_lowercase('q'), 'q');
    assert_eq!(to_ascii_lowercase('@'), '@');
    assert_eq!(to_ascii_lowercase('['), '[');
    assert_eq!(to_ascii_lowercase('É'), 'É');
}

#[test]
fn comparison_ignores_the_case_of_ascii_letters() {
    assert!(eq_ignore_ascii_case("quit", "QUIT"));
    assert!(eq_ignore_ascii_case("Quit", "qUIT"));
    assert!(eq_ignore_ascii_case("", ""));
    assert!(eq_ignore_ascii_case("a1-b", "A1-B"));
    assert!(!eq_ignore_ascii_case("quit", "quit "));
    assert!(!eq_ignore_ascii_case("quit", "qui"));
    assert!(!eq_ignore_ascii_case("quit", "quiz"));
    assert!(!eq_ignore_ascii_case("é", "É"));
    assert!(!eq_ignore_ascii_case("@", "`"));
    assert!(!eq_ignore_ascii_case("[", "{"));
}

#[test]
fn comparison_agrees_with_the_standard_library() {
    for a in SAMPLES {
        for b in SAMPLES {
            assert_eq!(eq_ignore_ascii_case(a, b), a.eq_ignore_ascii_case(b), "{:?} {:?}", a, b);
        }
        assert!(eq_ignore_ascii_case(a, &a.to_ascii_uppercase()));
    }
}

#[test]
fn quit_in_any_case_asks_to_stop() {
    assert!(is_exit_command("quit"));
    assert!(is_exit_command("QUIT"));
    assert!(is_exit_command("Quit"));
    assert!(is_exit_command("qUiT"));
}

#[test]
fn all_sixteen_spellings_ask_to_stop() {
    let mut count = 0;
    for q in ['q', 'Q'] {
        for u in ['u', 'U'] {
            for i in ['i', 'I'] {
                for t in ['t', 'T'] {
                    let word: String = [q, u, i, t].iter().collect();
                    assert!(is_exit_command(&word), "{:?}", word);
                    count += 1;
                }
            }
        }
    }
    assert_eq!(count, 16);
}

#[test]
fn whitespace_around_quit_is_ignored() {
    assert!(is_exit_command("quit\n"));
    assert!(is_exit_command("  Quit  "));
    assert!(is_exit_command("\tQUIT\r\n"));
}

#[test]
fn nothing_else_asks_to_stop() {
    for line in [
        "", " ", "q", "qui", "quit!", "quit now", "q u i t", "exit", "quiet", "5 + 3", "quít",
        "ｑｕｉｔ", "quit\u{200b}", "\u{feff}quit", "QUITE", "kuit", "qu1t",
    ] {
        assert!(!is_exit_command(line), "{:?}", line);
    }
}
