use dotfiles::text::{
    decimal_string, equal, is_whitespace, lines, matches_keyword, split, to_chars, trim,
};

#[test]
fn to_chars_lists_the_characters() {
    assert_eq!(to_chars("añ/"), vec!['a', 'ñ', '/']);
    assert_eq!(to_chars(""), Vec::<char>::new());
}

#[test]
fn split_cuts_at_every_separator() {
    assert_eq!(split("a|b|c", '|'), vec!["a", "b", "c"]);
    assert_eq!(split("| n1 | app.conf |", '|'), vec!["", " n1 ", " app.conf ", ""]);
    assert_eq!(split("||", '|'), vec!["", "", ""]);
    assert_eq!(split("no separator", '|'), vec!["no separator"]);
    assert_eq!(split("", '|'), vec![""]);
}

#[test]
fn split_agrees_with_the_standard_split() {
    for text in ["", "|", "a|", "|a", "a||b", "| n | s | d | op |", "ünï|cödé|"] {
        let expected: Vec<String> = text.split('|').map(String::from).collect();
        assert_eq!(split(text, '|'), expected);
    }
}

#[test]
fn lines_end_at_line_feeds() {
    assert_eq!(lines("a\nb\nc"), vec!["a", "b", "c"]);
    assert_eq!(lines("a\nb\n"), vec!["a", "b"]);
    assert_eq!(lines("a\n\nb"), vec!["a", "", "b"]);
    assert_eq!(lines("\n"), vec![""]);
    assert_eq!(lines(""), Vec::<String>::new());
    assert_eq!(lines("single"), vec!["single"]);
}

#[test]
fn lines_drop_a_carriage_return_before_the_line_feed_only() {
    assert_eq!(lines("a\r\nb\r\n"), vec!["a", "b"]);
    assert_eq!(lines("a\rb\n"), vec!["a\rb"]);
    assert_eq!(lines("a\r"), vec!["a\r"]);
    assert_eq!(lines("a\r\r\n"), vec!["a\r"]);
    assert_eq!(lines("\r\n"), vec![""]);
}

#[test]
fn lines_agree_with_the_standard_lines() {
    for text in ["", "\n", "\r\n", "a", "a\n", "a\r\nb", "a\n\r\n\nb\r", "x\r\ny\n\n", "\n\n"] {
        let expected: Vec<String> = text.lines().map(String::from).collect();
        assert_eq!(lines(text), expected);
    }
}

#[test]
fn trim_removes_whitespace_at_both_ends() {
    assert_eq!(trim("  n1 "), "n1");
    assert_eq!(trim("\t a b \r\n"), "a b");
    assert_eq!(trim("   "), "");
    assert_eq!(trim(""), "");
    assert_eq!(trim("x"), "x");
    assert_eq!(trim("\u{3000}wide\u{a0}"), "wide");
}

#[test]
fn trim_agrees_with_the_standard_trim() {
    for text in ["", " ", " a", "a ", " a b ", "\u{2003}em\u{2003}", "\u{feff}bom", "\u{200b}zw"] {
        assert_eq!(trim(text), text.trim());
    }
}

#[test]
fn whitespace_is_what_the_standard_library_calls_whitespace() {
    let mut code: u32 = 0;
    while code <= 0x10FFFF {
        if let Some(c) = char::from_u32(code) {
            assert_eq!(is_whitespace(c), c.is_whitespace());
        }
        code += 1;
    }
}

#[test]
fn keywords_match_in_any_ascii_case() {
    assert!(matches_keyword("symfile", "symfile"));
    assert!(matches_keyword("SYMFILE", "symfile"));
    assert!(matches_keyword("SymFile", "symfile"));
    assert!(!matches_keyword("symfiles", "symfile"));
    assert!(!matches_keyword("symfil", "symfile"));
    assert!(!matches_keyword("", "symfile"));
    assert!(!matches_keyword("symdir", "symfile"));
    assert!(matches_keyword("", ""));
}

#[test]
fn only_ascii_letters_lower_to_the_letters_of_the_keywords() {
    let letters = "symfiledrgno";
    let mut code: u32 = 0;
    while code <= 0x10FFFF {
        if let Some(c) = char::from_u32(code) {
            let lowered: String = c.to_lowercase().collect();
            if lowered.len() == 1 && letters.contains(lowered.as_str()) {
                assert!(c.is_ascii_alphabetic());
                let single = c.to_string();
                assert!(matches_keyword(single.as_str(), lowered.as_str()));
            }
        }
        code += 1;
    }
}

#[test]
fn equal_compares_character_by_character() {
    assert!(equal("org", "org"));
    assert!(!equal("org", "Org"));
    assert!(!equal("org", "orgs"));
    assert!(equal("", ""));
}

#[test]
fn decimal_string_writes_numbers() {
    assert_eq!(decimal_string(0), "0");
    assert_eq!(decimal_string(7), "7");
    assert_eq!(decimal_string(10), "10");
    assert_eq!(decimal_string(305), "305");
    assert_eq!(decimal_string(18446744073709551615), "18446744073709551615");
    assert_eq!(decimal_string(u128::MAX), "340282366920938463463374607431768211455");
}
