use gridui::glyphcode::{as_char, from_char, from_str, to_string};

fn test_str(s: &str, expected: &[u32]) {
    assert_eq!(from_str(s), Some(expected.to_vec()));
    assert_eq!(to_string(&from_str(s).unwrap()), Some(s.to_string()));
}

#[test]
fn from_strs() {
    test_str("abc", &[0x1000, 0x1010, 0x1020]);
    test_str("Abc", &[0x3000, 0x1010, 0x1020]);
}

#[test]
fn encode_decode_whole_alphabet() {
    let supported = "abcdefghijklmnopqrstuvwxyzABCDEFGHIJKLMNOPQRSTUVWXYZ0123456789 _-.,/\\:;@";
    for c in supported.chars() {
        let code = from_char(c).expect("supported character must encode");
        assert_eq!(as_char(code), Some(c));
    }
}

#[test]
fn letter_codes_differ_by_case_bit() {
    let lower = from_char('q').unwrap();
    let upper = from_char('Q').unwrap();
    assert_eq!(lower ^ 0x2000, upper);
}

#[test]
fn encode_exact_codes() {
    assert_eq!(from_char('a'), Some(0x1000));
    assert_eq!(from_char('z'), Some(0x1000 + 25 * 16));
    assert_eq!(from_char('A'), Some(0x3000));
    assert_eq!(from_char('Z'), Some(0x3000 + 25 * 16));
    assert_eq!(from_char(' '), Some(0));
    assert_eq!(from_char('@'), Some(9));
    assert_eq!(from_char('0'), Some(10));
    assert_eq!(from_char('9'), Some(19));
}

#[test]
fn unsupported_characters_do_not_encode() {
    assert_eq!(from_char('!'), None);
    assert_eq!(from_char('é'), None);
    assert_eq!(from_char('\n'), None);
    assert_eq!(from_char('€'), None);
}

#[test]
fn bad_low_nibble_does_not_decode() {
    assert_eq!(as_char(0x1001), None);
    assert_eq!(as_char(0x100F), None);
    assert_eq!(as_char(0x3005), None);
    assert_eq!(as_char(0x1190 + 1), None);
}

#[test]
fn out_of_range_codes_do_not_decode() {
    assert_eq!(as_char(20), None);
    assert_eq!(as_char(0x0FFF), None);
    assert_eq!(as_char(0x11A0), None);
    assert_eq!(as_char(0x2000), None);
    assert_eq!(as_char(0x31A0), None);
    assert_eq!(as_char(u32::MAX), None);
}

#[test]
fn string_round_trip() {
    for s in ["", "hello", "Grid@3:4", "a z", "/\\_-.,:;"] {
        let codes = from_str(s).expect("all characters supported");
        assert_eq!(to_string(&codes), Some(s.to_string()));
    }
}

#[test]
fn one_unsupported_character_fails_the_whole_string() {
    assert_eq!(from_str("ab!cd"), None);
    assert_eq!(from_str("héllo"), None);
}

#[test]
fn multi_character_grapheme_fails_the_whole_string() {
    // 'a' followed by a combining grave accent is one two-character cluster.
    assert_eq!(from_str("a\u{300}bc"), None);
}

#[test]
fn one_undecodable_code_fails_the_whole_sequence() {
    assert_eq!(to_string(&[0x1000, 0x1001, 0x1020]), None);
    assert_eq!(to_string(&[20]), None);
}

#[test]
fn empty_sequences_round_trip() {
    assert_eq!(from_str(""), Some(vec![]));
    assert_eq!(to_string(&[]), Some(String::new()));
}
