use handy::text::is_white_space;
use handy::text::trim;

#[test]
fn white_space_is_trimmed_at_both_ends() {
    assert_eq!(trim(" \t a b \u{3000}\n"), "a b");
    assert_eq!(trim(" \r\n"), "");
}

#[test]
fn exactly_the_white_space_characters_are_trimmed() {
    let blanks: Vec<char> = "\t\n\u{b}\u{c}\r \u{85}\u{a0}\u{1680}\u{2000}\u{2001}\u{2002}\u{2003}\
                             \u{2004}\u{2005}\u{2006}\u{2007}\u{2008}\u{2009}\u{200a}\u{2028}\u{2029}\
                             \u{202f}\u{205f}\u{3000}"
        .chars()
        .collect();
    assert_eq!(blanks.len(), 25);
    for c in '\0'..=char::MAX {
        let text = c.to_string();
        let expected = if blanks.contains(&c) { "" } else { text.as_str() };
        assert_eq!(trim(&text), expected, "at {:x}", c as u32);
        assert_eq!(is_white_space(c), c.is_whitespace(), "at {:x}", c as u32);
    }
}
