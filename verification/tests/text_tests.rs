use nekotatsu_pipeline::text::{chars_of, ends_with, is_blank_char, same_text, trimmed_is};

#[test]
fn chars_of_keeps_every_character_in_order() {
    assert_eq!(chars_of("a.ü"), vec!['a', '.', 'ü']);
    assert_eq!(chars_of(""), Vec::<char>::new());
}

#[test]
fn same_text_compares_contents() {
    assert!(same_text("zip", "zip"));
    assert!(!same_text("zip", "Zip"));
    assert!(!same_text("zip", "zipp"));
    assert!(same_text("", ""));
}

#[test]
fn ends_with_finds_a_suffix() {
    assert!(ends_with("backup.zip", ".zip"));
    assert!(ends_with(".zip", ".zip"));
    assert!(ends_with("anything", ""));
    assert!(!ends_with("zip", ".zip"));
    assert!(!ends_with("backup.zip ", ".zip"));
    assert!(!ends_with("backup.zap", ".zip"));
    assert!(!ends_with("", ".zip"));
}

#[test]
fn ends_with_counts_characters_not_bytes() {
    assert!(ends_with("übung.zip", ".zip"));
    assert!(ends_with("x.ü", ".ü"));
    assert!(!ends_with("x.u", ".ü"));
}

#[test]
fn blanks_are_the_unicode_white_space() {
    for c in [' ', '\t', '\n', '\u{0b}', '\u{0c}', '\r', '\u{85}', '\u{a0}', '\u{1680}',
        '\u{2000}', '\u{200a}', '\u{2028}', '\u{2029}', '\u{202f}', '\u{205f}', '\u{3000}'] {
        assert!(is_blank_char(c));
    }
    for c in ['a', '[', '\u{08}', '\u{0e}', '\u{200b}', '\u{1f}', '\u{feff}'] {
        assert!(!is_blank_char(c));
    }
}

#[test]
fn blanks_agree_with_std_on_every_character() {
    let mut code: u32 = 0;
    while code <= 0x10ffff {
        if let Some(c) = char::from_u32(code) {
            assert_eq!(is_blank_char(c), c.is_whitespace());
        }
        code += 1;
    }
}

#[test]
fn trimmed_is_ignores_blanks_at_both_ends_only() {
    assert!(trimmed_is("[]", "[]"));
    assert!(trimmed_is("  []\n", "[]"));
    assert!(trimmed_is("\u{3000}[]\t\r\n", "[]"));
    assert!(!trimmed_is("[ ]", "[]"));
    assert!(!trimmed_is("[]]", "[]"));
    assert!(!trimmed_is("", "[]"));
    assert!(!trimmed_is("   ", "[]"));
    assert!(trimmed_is("   ", ""));
    assert!(trimmed_is("", ""));
    assert!(trimmed_is(" a b ", "a b"));
}
