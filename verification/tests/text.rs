use cosmic_applet_ollama::text::{
    chars_of, contains, decimal, digit, followed_by, join, lines, matches_at, non_empty_lines, replace,
    string_of, string_of_range, trim,
};

const SAMPLES: [&str; 24] = [
    "",
    "\n",
    "\r\n",
    "\r",
    "a",
    "a\n",
    "a\nb",
    "a\r\nb\r\n",
    "a\n\nb",
    "\n\na\n\n",
    "a\rb\n",
    "a\r\r\nb",
    "last\r",
    "\r\n\r\n",
    "  padded  ",
    "\t tabs and\u{a0}no-break \u{3000}",
    "{\"done\":false}\n{\"done\":true}\n",
    "héllo wörld\nzwei\n",
    "emoji 👾\r\nline",
    " \n ",
    "/api/chat/api/chat",
    "aaa",
    "one\ntwo\nthree",
    "trailing space \n",
];

#[test]
fn lines_agree_with_std() {
    for sample in SAMPLES {
        let expected: Vec<String> = sample.lines().map(String::from).collect();
        assert_eq!(lines(sample), expected, "lines of {:?}", sample);
    }
}

#[test]
fn lines_strip_one_carriage_return_before_a_line_feed() {
    assert_eq!(lines("a\r\nb"), vec!["a", "b"]);
    assert_eq!(lines("a\r\r\nb"), vec!["a\r", "b"]);
    assert_eq!(lines("a\rb"), vec!["a\rb"]);
    assert_eq!(lines("a\r"), vec!["a\r"]);
}

#[test]
fn lines_of_empty_text_and_of_final_line_endings() {
    assert_eq!(lines(""), Vec::<String>::new());
    assert_eq!(lines("\n"), vec![""]);
    assert_eq!(lines("a\n"), vec!["a"]);
    assert_eq!(lines("a\n\n"), vec!["a", ""]);
    assert_eq!(lines("\na"), vec!["", "a"]);
}

#[test]
fn non_empty_lines_drop_the_empty_ones() {
    for sample in SAMPLES {
        let expected: Vec<String> = sample
            .lines()
            .filter(|line| !line.is_empty())
            .map(String::from)
            .collect();
        assert_eq!(non_empty_lines(sample), expected, "lines of {:?}", sample);
    }
    assert_eq!(non_empty_lines("\n\na\n\nb\n"), vec!["a", "b"]);
    assert_eq!(non_empty_lines(" \n"), vec![" "]);
}

#[test]
fn trim_agrees_with_std() {
    for sample in SAMPLES {
        assert_eq!(trim(sample), sample.trim(), "trim of {:?}", sample);
    }
    assert_eq!(trim("  a b  "), "a b");
    assert_eq!(trim("\n\t x \r\n"), "x");
    assert_eq!(trim(" \u{2003}\u{a0} "), "");
    assert_eq!(trim("x"), "x");
}

#[test]
fn replace_agrees_with_std() {
    let patterns = ["a", "aa", "/api/chat", "\n", "ab", "é", "zz", "three"];
    for sample in SAMPLES {
        for pattern in patterns {
            for to in ["", "X", "/api/tags", "aa"] {
                assert_eq!(
                    replace(sample, pattern, to),
                    sample.replace(pattern, to),
                    "replace {:?} in {:?} by {:?}",
                    pattern,
                    sample,
                    to
                );
            }
        }
    }
}

#[test]
fn replace_goes_left_to_right_without_overlap() {
    assert_eq!(replace("aaa", "aa", "b"), "ba");
    assert_eq!(replace("aaaa", "aa", "b"), "bb");
    assert_eq!(replace("abab", "ab", "ba"), "baba");
    assert_eq!(replace("abc", "abcd", "x"), "abc");
}

#[test]
fn replace_with_an_empty_pattern_changes_nothing() {
    assert_eq!(replace("abc", "", "x"), "abc");
    assert_eq!(replace("", "", "x"), "");
}

#[test]
fn contains_agrees_with_std() {
    let patterns = ["", "a", "aa", "b\n", "/api/chat", "three", "wör", "zz", "one\ntwo\nthree!"];
    for sample in SAMPLES {
        for pattern in patterns {
            assert_eq!(
                contains(sample, pattern),
                sample.contains(pattern),
                "{:?} in {:?}",
                pattern,
                sample
            );
        }
    }
}

#[test]
fn matches_at_checks_one_place() {
    let text = chars_of("hello");
    assert!(matches_at(&text, 0, &chars_of("he")));
    assert!(matches_at(&text, 3, &chars_of("lo")));
    assert!(matches_at(&text, 5, &chars_of("")));
    assert!(!matches_at(&text, 1, &chars_of("he")));
    assert!(!matches_at(&text, 4, &chars_of("lo")));
    assert!(!matches_at(&text, 6, &chars_of("")));
    assert!(!matches_at(&text, usize::MAX, &chars_of("h")));
}

#[test]
fn decimal_agrees_with_std() {
    let values = [
        0u64,
        1,
        9,
        10,
        11,
        99,
        100,
        1024,
        65535,
        1_000_000,
        4_294_967_295,
        9_007_199_254_740_993,
        u64::MAX,
    ];
    for value in values {
        assert_eq!(decimal(value), value.to_string());
    }
    assert_eq!(decimal(1024), "1024");
}

#[test]
fn digits_are_the_ascii_digits() {
    let all: String = (0..10).map(digit).collect();
    assert_eq!(all, "0123456789");
}

#[test]
fn join_puts_the_separator_between_parts() {
    let parts = vec!["a".to_string(), "b".to_string(), "c".to_string()];
    assert_eq!(join(&parts, ", "), "a, b, c");
    assert_eq!(join(&parts, ""), "abc");
    assert_eq!(join(&parts[..1].to_vec(), "\n\n"), "a");
    assert_eq!(join(&Vec::new(), "\n\n"), "");
    let with_empty = vec![String::new(), "x".to_string(), String::new()];
    assert_eq!(join(&with_empty, "-"), "-x-");
    assert_eq!(join(&with_empty, "-"), with_empty.join("-"));
}

#[test]
fn chars_and_strings_convert_back_and_forth() {
    for sample in SAMPLES {
        let chars = chars_of(sample);
        assert_eq!(chars, sample.chars().collect::<Vec<char>>());
        assert_eq!(string_of(&chars), sample);
    }
    let chars = chars_of("héllo");
    assert_eq!(string_of_range(&chars, 1, 4), "éll");
    assert_eq!(string_of_range(&chars, 2, 2), "");
    assert_eq!(followed_by("ab", "cd"), "abcd");
    assert_eq!(followed_by("", ""), "");
}

/// Texts over a small alphabet that is rich in line endings and white space.
fn generated(count: usize) -> Vec<String> {
    let alphabet = ['a', 'b', '\n', '\r', ' ', '\t', '/', 'é', '\u{a0}', '👾'];
    let mut state: u64 = 0x9e37_79b9_7f4a_7c15;
    let mut texts = Vec::new();
    for _ in 0..count {
        state ^= state << 13;
        state ^= state >> 7;
        state ^= state << 17;
        let length = (state % 12) as usize;
        let mut bits = state >> 8;
        let mut text = String::new();
        for _ in 0..length {
            text.push(alphabet[(bits % alphabet.len() as u64) as usize]);
            bits /= alphabet.len() as u64;
        }
        texts.push(text);
    }
    texts
}

#[test]
fn generated_texts_split_and_trim_as_std_does() {
    for text in generated(5000) {
        let expected: Vec<String> = text.lines().map(String::from).collect();
        assert_eq!(lines(&text), expected, "lines of {:?}", text);
        assert_eq!(trim(&text), text.trim(), "trim of {:?}", text);
    }
}

#[test]
fn generated_texts_search_and_replace_as_std_does() {
    let patterns = ["a", "ab", "a\n", "\r\n", " ", "aa", "é", "//", "ba b"];
    for text in generated(2000) {
        for pattern in patterns {
            assert_eq!(
                contains(&text, pattern),
                text.contains(pattern),
                "{:?} in {:?}",
                pattern,
                text
            );
            assert_eq!(
                replace(&text, pattern, "<>"),
                text.replace(pattern, "<>"),
                "replace {:?} in {:?}",
                pattern,
                text
            );
        }
    }
}

/// The characters with the Unicode property White_Space.
fn listed_as_white_space(c: char) -> bool {
    matches!(
        c,
        '\u{9}'..='\u{d}'
            | '\u{20}'
            | '\u{85}'
            | '\u{a0}'
            | '\u{1680}'
            | '\u{2000}'..='\u{200a}'
            | '\u{2028}'
            | '\u{2029}'
            | '\u{202f}'
            | '\u{205f}'
            | '\u{3000}'
    )
}

#[test]
fn white_space_is_the_unicode_set_for_every_character() {
    let mut count = 0;
    for code in 0..=0x10ffffu32 {
        let Some(c) = char::from_u32(code) else {
            continue;
        };
        let listed = listed_as_white_space(c);
        assert_eq!(c.is_whitespace(), listed, "U+{:04X}", code);
        if listed {
            count += 1;
        }
        // trimming removes exactly these, at either end
        if listed || code < 0x3100 || code % 257 == 0 {
            let text = format!("{}x{}", c, c);
            let expected = if listed { "x".to_string() } else { text.clone() };
            assert_eq!(trim(&text), expected, "U+{:04X}", code);
        }
    }
    assert_eq!(count, 25);
}
