use codex_sessions::base64url::decode;
use codex_sessions::text::{as_text, clone_option, second_dot_part, trim, white_space};

#[test]
fn white_space_is_that_of_unicode() {
    for code in 0..=0x10ffffu32 {
        if let Some(c) = char::from_u32(code) {
            assert_eq!(white_space(c), c.is_whitespace(), "{:x}", code);
        }
    }
}

#[test]
fn trimming_takes_white_space_off_both_ends() {
    let texts = [
        "",
        " ",
        "\t\n\r ",
        "a",
        "  a",
        "a  ",
        " a b ",
        "\u{3000}é\u{85}x\u{2028}",
        "\u{200b}kept\u{200b}",
    ];
    for text in texts {
        assert_eq!(trim(text), text.trim());
        assert_eq!(trim(trim(text)), trim(text));
    }
    assert_eq!(trim(" \u{a0}a b\n"), "a b");
}

#[test]
fn the_second_part_stands_between_dots() {
    let texts = ["", "a", ".", "a.", ".b", "a.b", "a.b.c", "a..c", "é.ü.x.y"];
    for text in texts {
        assert_eq!(second_dot_part(text), text.split('.').nth(1));
    }
    assert_eq!(second_dot_part("a.b.c"), Some("b"));
    assert_eq!(second_dot_part("abc"), None);
}

#[test]
fn base64_gives_back_what_was_encoded() {
    assert_eq!(decode(""), Some(vec![]));
    assert_eq!(decode("e30"), Some(b"{}".to_vec()));
    assert_eq!(decode("Zg"), Some(b"f".to_vec()));
    assert_eq!(decode("Zm8"), Some(b"fo".to_vec()));
    assert_eq!(decode("Zm9v"), Some(b"foo".to_vec()));
    assert_eq!(decode("Zm9vYmFy"), Some(b"foobar".to_vec()));
    assert_eq!(decode("-_-_"), Some(vec![0xfb, 0xff, 0xbf]));
}

#[test]
fn what_is_no_encoding_is_not_decoded() {
    for text in ["e30=", "Zh", "Zm9", "Z", "Zm9vY", "+/+/", "Zm 9", "é30=", "Zm9v\n"] {
        assert_eq!(decode(text), None, "{}", text);
    }
}

#[test]
fn optional_texts_are_copied_and_borrowed() {
    let text = Some("a".to_string());
    assert_eq!(clone_option(&text), text);
    assert_eq!(clone_option(&None), None);
    assert_eq!(as_text(&text), Some("a"));
    assert_eq!(as_text(&None), None);
}
