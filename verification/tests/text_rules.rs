use ramp::text::{artist_names, is_whitespace_char, split_commas_of, trim};

fn strings(v: &[&str]) -> Vec<String> {
    v.iter().map(|s| s.to_string()).collect()
}

#[test]
fn trim_removes_outer_white_space_only() {
    assert_eq!(trim("  a b \t"), "a b");
    assert_eq!(trim("\u{3000}x\u{00A0}"), "x");
    assert_eq!(trim("\n\r\u{2028}"), "");
    assert_eq!(trim(""), "");
    assert_eq!(trim("plain"), "plain");
}

#[test]
fn trim_agrees_with_std_trim() {
    for s in ["  x ", "\u{85}y\u{205F}", "\u{200B}z", " a\u{1680}b ", "\t\t"] {
        assert_eq!(trim(s), s.trim());
    }
}

#[test]
fn whitespace_characters() {
    for c in ['\t', '\n', '\u{0B}', '\u{0C}', '\r', ' ', '\u{85}', '\u{A0}', '\u{1680}', '\u{2000}', '\u{200A}', '\u{2028}', '\u{2029}', '\u{202F}', '\u{205F}', '\u{3000}'] {
        assert!(is_whitespace_char(c), "{:?}", c);
        assert!(c.is_whitespace());
    }
    for c in ['a', ',', '\u{200B}', '\u{180E}', '\u{FEFF}', '0'] {
        assert!(!is_whitespace_char(c), "{:?}", c);
        assert_eq!(is_whitespace_char(c), c.is_whitespace());
    }
}

#[test]
fn split_keeps_empty_pieces() {
    assert_eq!(split_commas_of("A, B,,C"), strings(&["A", " B", "", "C"]));
    assert_eq!(split_commas_of(""), strings(&[""]));
    assert_eq!(split_commas_of(","), strings(&["", ""]));
    assert_eq!(split_commas_of("solo"), strings(&["solo"]));
}

#[test]
fn split_then_join_gives_back_the_string() {
    for s in ["a,b,c", ",x,", "", "no commas", "é, ü ,ß"] {
        assert_eq!(split_commas_of(s).join(","), s);
        assert!(split_commas_of(s).iter().all(|p| !p.contains(',')));
    }
}

#[test]
fn artist_names_are_split_and_trimmed() {
    assert_eq!(artist_names("Alice, Bob ,Carol"), strings(&["Alice", "Bob", "Carol"]));
    assert_eq!(artist_names("Unknown Artist"), strings(&["Unknown Artist"]));
    assert_eq!(artist_names(" , "), strings(&["", ""]));
    assert_eq!(artist_names(""), strings(&[""]));
}
