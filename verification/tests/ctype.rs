use dioxus_code::ctype::{isalpha, isspace, isupper, iswpunct, isxdigit, tolower};

#[test]
fn character_classes_match_the_c_locale() {
    for c in 0..=255i32 {
        let ch = c as u8 as char;
        assert_eq!(isalpha(c), ch.is_ascii_alphabetic() as i32, "isalpha({c})");
        assert_eq!(isupper(c), ch.is_ascii_uppercase() as i32, "isupper({c})");
        assert_eq!(isxdigit(c), ch.is_ascii_hexdigit() as i32, "isxdigit({c})");
        assert_eq!(isspace(c), (ch.is_ascii_whitespace() || c == 0x0b) as i32, "isspace({c})");
        assert_eq!(tolower(c), ch.to_ascii_lowercase() as i32, "tolower({c})");
        assert_eq!(iswpunct(c as u32), ch.is_ascii_punctuation() as i32, "iswpunct({c})");
    }
    assert_eq!(isalpha(-1), 0);
    assert_eq!(tolower(-1), -1);
    assert_eq!(tolower(0x41 + 256), 0x41 + 256);
    assert_eq!(iswpunct(0x2014), 0);
}
