use clusterflux_coordinator::text::{
    begins_with, char_position, char_width, chars_of, closes_with, decimal_text, has_char,
    is_blank, part_lowercase, part_trimmed_end, part_until, signed_decimal_text, tail_within,
    text_len, text_of, text_position, trim_text, wide_decimal_text,
};

fn chars(value: &str) -> Vec<char> {
    chars_of(value)
}

#[test]
fn numbers_are_written_in_decimal() {
    for n in [0, 7, 10, 99, 1_000, u64::MAX] {
        assert_eq!(decimal_text(n), n.to_string());
    }
    for n in [0, 10, u128::MAX] {
        assert_eq!(wide_decimal_text(n), n.to_string());
    }
    for n in [0, 5, -5, i32::MAX, i32::MIN] {
        assert_eq!(signed_decimal_text(n), n.to_string());
    }
}

#[test]
fn texts_are_measured_in_bytes() {
    for text in ["", "abc", "\u{e9}", "\u{20ac}", "\u{1f600}", "a\u{e9}\u{20ac}\u{1f600}"] {
        assert_eq!(text_len(text), text.len());
        for c in text.chars() {
            assert_eq!(char_width(c), c.len_utf8());
        }
    }
    assert_eq!(tail_within("abc", 2), "bc");
    assert_eq!(tail_within("abc", 3), "abc");
    assert_eq!(tail_within("a\u{20ac}b", 3), "b");
    assert_eq!(tail_within("a\u{20ac}b", 4), "\u{20ac}b");
    assert_eq!(tail_within("abc", 0), "");
}

#[test]
fn white_space_is_trimmed_at_both_ends() {
    for text in ["", " ", "a", " a b ", "\t\n a \u{a0}", "\u{2003}x\u{3000}", "\u{200b}x"] {
        assert_eq!(trim_text(text), text.trim());
        assert_eq!(is_blank(text), text.trim().is_empty());
    }
}

#[test]
fn parts_of_texts_are_found() {
    let url = chars("https://Host/path/");
    assert!(begins_with(&url, &chars("https://")));
    assert!(!begins_with(&chars("http"), &chars("https")));
    assert!(closes_with(&url, &chars("/")));
    assert!(!closes_with(&url, &chars("path")));
    assert_eq!(char_position(&url, ':'), Some(5));
    assert_eq!(char_position(&url, '?'), None);
    assert_eq!(text_position(&url, &chars("://")), Some(5));
    assert_eq!(text_position(&url, &chars("ftp")), None);
    assert!(has_char(&url, 'H'));
    assert_eq!(text_of(&part_until(&url, ':')), "https");
    assert_eq!(text_of(&part_until(&url, '?')), "https://Host/path/");
    assert_eq!(text_of(&part_lowercase(&url)), "https://host/path/");
    assert_eq!(text_of(&part_trimmed_end(&url, '/')), "https://Host/path");
    assert_eq!(text_of(&part_trimmed_end(&chars("//"), '/')), "//".trim_end_matches('/'));
}
