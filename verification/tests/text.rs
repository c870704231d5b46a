use tetanes_store::text::chars_of;
use tetanes_store::text::contains_chars;
use tetanes_store::text::matches_at;
use tetanes_store::text::push_byte_list;
use tetanes_store::text::push_chars;
use tetanes_store::text::push_decimal;
use tetanes_store::text::push_hex8;
use tetanes_store::text::same_chars;
use tetanes_store::text::trimmed_len;

fn chars(text: &str) -> Vec<char> {
    text.chars().collect()
}

#[test]
fn text_chars_of() {
    assert_eq!(chars_of("a\u{e9}\u{1F3AE}z"), vec!['a', '\u{e9}', '\u{1F3AE}', 'z']);
    assert!(chars_of("").is_empty());
}

#[test]
fn text_push_chars() {
    let mut out = String::from("<");
    push_chars(&mut out, &chars("hello"), 4);
    assert_eq!(out, "<hell");
    push_chars(&mut out, &chars("hello"), 0);
    assert_eq!(out, "<hell");
}

#[test]
fn text_decimal() {
    for n in [0u64, 1, 9, 10, 11, 99, 100, 255, 65535, 1_000_000, u64::MAX] {
        let mut out = String::from("n=");
        push_decimal(&mut out, n);
        assert_eq!(out, format!("n={}", n));
    }
}

#[test]
fn text_hex8() {
    for value in [0u32, 1, 0xA, 0xFF, 0x1000, 0x0C47946D, 0x89ABCDEF, u32::MAX] {
        let mut out = String::from("0x");
        push_hex8(&mut out, value);
        assert_eq!(out, format!("0x{:08X}", value));
    }
}

#[test]
fn text_byte_list() {
    for bytes in [&[][..], &[0u8][..], &[1, 2][..], &[84, 69, 84, 65, 78, 69, 83, 26][..], &[255, 0, 100][..]] {
        let mut out = String::from("found: ");
        push_byte_list(&mut out, bytes);
        assert_eq!(out, format!("found: {:?}", bytes));
    }
}

#[test]
fn text_contains() {
    assert!(contains_chars(&chars("Zelda (Europe)"), &chars("Europe")));
    assert!(contains_chars(&chars("Europe"), &chars("Europe")));
    assert!(contains_chars(&chars("abc"), &chars("")));
    assert!(contains_chars(&chars(""), &chars("")));
    assert!(contains_chars(&chars("aab"), &chars("ab")));
    assert!(!contains_chars(&chars("Europ"), &chars("Europe")));
    assert!(!contains_chars(&chars(""), &chars("a")));
    assert!(!contains_chars(&chars("aba"), &chars("bb")));
}

#[test]
fn text_matches_at() {
    let text = chars("abcabc");
    assert!(matches_at(&text, 6, &chars("abc"), 3));
    assert!(!matches_at(&text, 5, &chars("abc"), 3));
    assert!(matches_at(&text, 5, &chars("ab"), 3));
    assert!(!matches_at(&text, 6, &chars("abc"), 4));
    assert!(!matches_at(&text, 6, &chars("abc"), 7));
    assert!(matches_at(&text, 6, &chars(""), 6));
}

#[test]
fn text_trimmed_len() {
    assert_eq!(trimmed_len(&chars("a.nes"), &chars(".nes")), 1);
    assert_eq!(trimmed_len(&chars("a.nes.nes"), &chars(".nes")), 1);
    assert_eq!(trimmed_len(&chars(".nes"), &chars(".nes")), 0);
    assert_eq!(trimmed_len(&chars("a.nes"), &chars("")), 5);
    assert_eq!(trimmed_len(&chars("nes"), &chars(".nes")), 3);
    assert_eq!(trimmed_len(&chars("aaa"), &chars("a")), 0);
    assert_eq!(trimmed_len(&chars("aaa"), &chars("aa")), 1);
}

#[test]
fn text_same_chars() {
    assert!(same_chars(&chars("nes"), &chars("nes")));
    assert!(same_chars(&chars(""), &chars("")));
    assert!(!same_chars(&chars("nes"), &chars("ne")));
    assert!(!same_chars(&chars("ne"), &chars("nes")));
    assert!(!same_chars(&chars("nes"), &chars("nEs")));
}
