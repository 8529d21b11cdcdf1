use chat_server::number::{parse_bounded, parse_i64, signed_text, unsigned_text};
use chat_server::text::{
    byte_len, chars_of, contains, is_white_space, part, plus, same, split, split_words,
    strip_prefix, trim,
};

#[test]
fn white_space_is_unicode_white_space() {
    let mut n: u32 = 0;
    while n <= 0x10FFFF {
        if let Some(c) = char::from_u32(n) {
            assert_eq!(is_white_space(c), c.is_whitespace(), "{:x}", n);
        }
        n += 1;
    }
}

#[test]
fn characters_come_in_order() {
    assert_eq!(chars_of("aé🐈"), vec!['a', 'é', '🐈']);
    assert_eq!(chars_of(""), Vec::<char>::new());
}

#[test]
fn texts_are_compared_by_their_characters() {
    assert!(same("a b", "a b"));
    assert!(!same("a b", "a  b"));
    assert!(!same("a", "A"));
    assert!(!same("ab", "ac"));
    assert!(same("", ""));
}

#[test]
fn lengths_are_counted_in_bytes() {
    assert_eq!(byte_len(""), 0);
    assert_eq!(byte_len("abc"), 3);
    assert_eq!(byte_len("é"), 2);
    assert_eq!(byte_len("🐈"), 4);
}

#[test]
fn trimming_agrees_with_std() {
    for s in ["", " ", "  a ", "\ta b\n", "\u{3000}x\u{2009}", "\u{85}", "plain", "\u{200b}z"] {
        assert_eq!(trim(s), s.trim());
        assert_eq!(trim(trim(s).as_str()), trim(s));
    }
}

#[test]
fn splitting_agrees_with_std_and_joins_back() {
    for s in ["", "d", "2d6", "dd", "a,b,,c", "no", "🐈d🐈"] {
        let expected: Vec<String> = s.split('d').map(|p| p.to_string()).collect();
        assert_eq!(split(s, 'd'), expected);
        assert_eq!(split(s, 'd').join("d"), s);
    }
}

#[test]
fn parting_agrees_with_std() {
    for s in ["", " ", "a", "a b", "a b c", " a", "a ", "/x  y"] {
        let parts: Vec<&str> = s.splitn(2, ' ').collect();
        let (first, rest) = part(s, ' ');
        assert_eq!(first, parts[0]);
        assert_eq!(rest, parts.get(1).map(|p| p.to_string()));
    }
}

#[test]
fn words_agree_with_std() {
    for s in ["", "  ", "a", " a  b\tc\n", "home 50", "\u{3000}x y"] {
        let expected: Vec<String> = s.split_whitespace().map(|p| p.to_string()).collect();
        assert_eq!(split_words(s), expected);
    }
}

#[test]
fn searching_agrees_with_std() {
    for s in ["", "a", "badword", "xbadwordx", "badwor", "UNIQUE constraint failed: users"] {
        for p in ["", "a", "badword", "UNIQUE constraint failed"] {
            assert_eq!(contains(s, p), s.contains(p), "{} {}", s, p);
        }
    }
}

#[test]
fn prefixes_agree_with_std() {
    for s in ["", "Bearer", "Bearer ", "Bearer abc", "bearer abc", "xBearer abc"] {
        assert_eq!(
            strip_prefix(s, "Bearer "),
            s.strip_prefix("Bearer ").map(|p| p.to_string())
        );
    }
}

#[test]
fn texts_are_put_together() {
    assert_eq!(plus("chat:", "home"), "chat:home");
}

#[test]
fn numbers_are_written_as_std_writes_them() {
    for n in [0u64, 1, 9, 10, 99, 100, 12345, u64::MAX] {
        assert_eq!(unsigned_text(n), n.to_string());
    }
    for n in [0i64, -1, 7, -10, i64::MAX, i64::MIN] {
        assert_eq!(signed_text(n), n.to_string());
        assert_eq!(parse_i64(signed_text(n).as_str()), Some(n));
    }
}

#[test]
fn numbers_are_read_as_std_reads_them() {
    let texts = [
        "", "+", "-", "0", "+0", "-0", "007", "12", " 12", "12 ", "1_000", "4294967295",
        "4294967296", "+4294967295", "-1", "9223372036854775807", "9223372036854775808",
        "-9223372036854775808", "-9223372036854775809", "18446744073709551615",
        "18446744073709551616", "99999999999999999999999", "٣", "1e3", "++1",
    ];
    for s in texts {
        assert_eq!(parse_i64(s), s.parse::<i64>().ok(), "{}", s);
        assert_eq!(parse_bounded(s, u64::MAX), s.parse::<u64>().ok(), "{}", s);
        assert_eq!(
            parse_bounded(s, u32::MAX as u64),
            s.parse::<u32>().ok().map(|n| n as u64),
            "{}",
            s
        );
    }
}
