use lecture::text::{char_is_white_space, str_eq, trim};

#[test]
fn trim_strips_both_ends() {
    assert_eq!(trim("  1 \n"), "1");
    assert_eq!(trim("quit\r\n"), "quit");
    assert_eq!(trim("\t all"), "all");
    assert_eq!(trim("e"), "e");
}

#[test]
fn trim_of_blank_lines_is_empty() {
    assert_eq!(trim(""), "");
    assert_eq!(trim("\n"), "");
    assert_eq!(trim(" \t\r\n "), "");
    assert_eq!(trim("\u{3000}\u{00A0}"), "");
}

#[test]
fn trim_keeps_inner_whitespace() {
    assert_eq!(trim("  a b  "), "a b");
    assert_eq!(trim("p\tq\n"), "p\tq");
}

#[test]
fn trim_knows_unicode_whitespace() {
    assert_eq!(trim("\u{2003}q\u{2028}"), "q");
    assert_eq!(trim("\u{0085}p\u{1680}"), "p");
    assert_eq!(trim("\u{202F}\u{205F}x\u{2029}\u{000B}\u{000C}"), "x");
}

#[test]
fn trim_keeps_what_is_no_whitespace() {
    assert_eq!(trim("\u{200B}q"), "\u{200B}q");
    assert_eq!(trim("\u{180E}q\u{FEFF}"), "\u{180E}q\u{FEFF}");
    assert_eq!(trim("é "), "é");
}

#[test]
fn trim_agrees_with_std() {
    let lines = [
        "",
        " ",
        "1\n",
        "  previous\t\n",
        "\u{3000}全部\u{3000}",
        " a\u{00A0}b ",
        "\r\nquit\r\n",
        "x",
        " \u{1F980} ",
    ];
    for line in lines {
        assert_eq!(trim(line), line.trim());
    }
}

#[test]
fn white_space_agrees_with_std_on_every_char() {
    let mut code: u32 = 0;
    while code <= 0x10FFFF {
        if let Some(c) = char::from_u32(code) {
            assert_eq!(char_is_white_space(c), c.is_whitespace(), "U+{:04X}", code);
        }
        code += 1;
    }
}

#[test]
fn white_space_has_25_members() {
    let mut count = 0;
    let mut code: u32 = 0;
    while code <= 0x10FFFF {
        if let Some(c) = char::from_u32(code) {
            if char_is_white_space(c) {
                count += 1;
            }
        }
        code += 1;
    }
    assert_eq!(count, 25);
}

#[test]
fn str_eq_compares_characters() {
    assert!(str_eq("", ""));
    assert!(str_eq("quit", "quit"));
    assert!(str_eq("é\u{1F980}", "é\u{1F980}"));
    assert!(!str_eq("quit", "quiz"));
    assert!(!str_eq("quit", "qui"));
    assert!(!str_eq("q", "Q"));
    assert!(!str_eq("", " "));
    assert!(!str_eq("e", "é"));
}
