use dc::util::{decode, encode, text_of, trim_input, DecodeFailure};

#[test]
fn encode_gives_standard_base64() {
    assert_eq!(encode("hello world~"), "aGVsbG8gd29ybGR+");
    assert_eq!(encode(""), "");
    assert_eq!(encode("a"), "YQ==");
}

#[test]
fn decode_reads_back_what_encode_wrote() {
    let s = "v=0\r\no=- 4611 2 IN IP4 127.0.0.1\r\n";
    assert_eq!(decode(&encode(s)).ok().unwrap(), s);
}

#[test]
fn decode_rejects_invalid_base64() {
    assert!(matches!(decode("not base64!"), Err(DecodeFailure::InvalidBase64(_))));
}

#[test]
fn decode_rejects_invalid_utf8() {
    // "/w==" is the single byte 0xFF.
    assert!(matches!(decode("/w=="), Err(DecodeFailure::InvalidUtf8(_))));
}

#[test]
fn trim_input_cuts_surrounding_white_space() {
    assert_eq!(trim_input("  ROBOT \r\n"), "ROBOT");
    assert_eq!(trim_input("\t \n"), "");
    assert_eq!(trim_input("a b"), "a b");
    assert_eq!(trim_input("\u{3000}x\u{a0}"), "x");
}

#[test]
fn white_space_matches_std_for_every_char() {
    for u in 0u32..=0x10FFFF {
        if let Some(c) = char::from_u32(u) {
            assert_eq!(dc::util::is_white_space(c), c.is_whitespace(), "U+{:04X}", u);
        }
    }
}

#[test]
fn trim_input_agrees_with_str_trim() {
    for s in ["", " ", "x", "  x  ", "\u{2028}a b\u{205f}", "\u{200b}x", "a\u{85}", "\r\nROBOT\r\n"] {
        assert_eq!(trim_input(s), s.trim());
    }
}

#[test]
fn trimming_twice_is_trimming_once() {
    for s in ["  a  ", "\t\tb c\n", "", "   "] {
        let once = trim_input(s);
        assert_eq!(trim_input(&once), once);
    }
}

#[test]
fn message_text_reads_utf8_or_nothing() {
    assert_eq!(dc::util::message_text("héllo".as_bytes()), "héllo");
    assert_eq!(dc::util::message_text(&[0xc3]), "");
    assert_eq!(dc::util::message_text(&[]), "");
}

#[test]
fn encoded_length_is_four_per_started_group_of_three() {
    for n in 0..10 {
        let s = "x".repeat(n);
        assert_eq!(encode(&s).len(), 4 * ((n + 2) / 3));
    }
}

#[test]
fn decoded_text_encodes_back_to_its_input() {
    for s in ["", "Zg==", "Zm8=", "Zm9v", "aGVsbG8gd29ybGR+"] {
        let t = decode(s).ok().unwrap();
        assert_eq!(encode(&t), s);
    }
    assert_eq!(decode("Zg==").ok().unwrap(), "f");
    // Non-canonical forms are refused.
    assert!(matches!(decode("Zh=="), Err(DecodeFailure::InvalidBase64(_))));
    assert!(matches!(decode("Zg"), Err(DecodeFailure::InvalidBase64(_))));
}

#[test]
fn text_of_reads_utf8() {
    assert_eq!(text_of("día".as_bytes().to_vec()).ok().unwrap(), "día");
    assert!(matches!(text_of(vec![0xed, 0xa0, 0x80]), Err(DecodeFailure::InvalidUtf8(_))));
}

#[test]
fn encoding_splits_at_whole_groups_of_three() {
    let a = "abcdef";
    let b = "xy";
    assert_eq!(encode(&format!("{a}{b}")), format!("{}{}", encode(a), encode(b)));
    assert_eq!(encode("f"), "Zg==");
    assert_eq!(encode("fo"), "Zm8=");
    assert_eq!(encode("foo"), "Zm9v");
    assert_eq!(encode("+/?"), "Ky8/");
}

#[test]
fn decode_of_encode_for_multibyte_text() {
    for s in ["", "é", "日本語", "a\u{1F600}b", "line\nbreak"] {
        assert_eq!(decode(&encode(s)).ok().unwrap(), s);
    }
}
