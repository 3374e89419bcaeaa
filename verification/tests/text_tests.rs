use annex::text::{bearer_token, char_is_white_space, decimal_string, trim};

#[test]
fn white_space_matches_std_for_every_char() {
    for u in 0u32..=0x10FFFF {
        if let Some(c) = char::from_u32(u) {
            assert_eq!(char_is_white_space(c), c.is_whitespace(), "code point {:#x}", u);
        }
    }
}

#[test]
fn trim_matches_std_trim() {
    let cases = [
        "", " ", "\t\n", "abc", "  abc", "abc  ", "  a b c  ", "\u{3000}x\u{2028}", "\u{85}\u{a0}",
        " \u{1680}token\u{205f} ", "x", "  x", "x  ", "\r\nline\r\n",
    ];
    for s in cases {
        assert_eq!(trim(s), s.trim(), "input {:?}", s);
    }
}

#[test]
fn bearer_token_reads_prefixed_header() {
    assert_eq!(bearer_token(Some("Bearer abc.def.ghi")), "abc.def.ghi");
    assert_eq!(bearer_token(Some("Bearer   abc  ")), "abc");
    assert_eq!(bearer_token(Some("Bearer \tabc\t")), "abc");
}

#[test]
fn bearer_token_empty_without_header_or_prefix() {
    assert_eq!(bearer_token(None), "");
    assert_eq!(bearer_token(Some("")), "");
    assert_eq!(bearer_token(Some("Basic abc")), "");
    assert_eq!(bearer_token(Some("bearer abc")), "");
    assert_eq!(bearer_token(Some("Bearer")), "");
    assert_eq!(bearer_token(Some("Bearer ")), "");
    assert_eq!(bearer_token(Some("Bearerabc")), "");
}

#[test]
fn bearer_token_matches_std_pipeline() {
    let headers = [
        None,
        Some("Bearer t"),
        Some("Bearer  t "),
        Some("Bearer"),
        Some("xBearer t"),
        Some("Bearer \u{2003}t\u{2003}"),
    ];
    for h in headers {
        let expected = h.and_then(|v| v.strip_prefix("Bearer ")).unwrap_or("").trim();
        assert_eq!(bearer_token(h), expected, "header {:?}", h);
    }
}

#[test]
fn bearer_round_trip_law() {
    for token in ["abc", "a.b.c", "eyJhbGciOiJIUzI1NiJ9.e30.sig"] {
        let header = format!("Bearer {}", token);
        assert_eq!(bearer_token(Some(header.as_str())), token);
    }
}

#[test]
fn trim_twice_is_trim_once() {
    for s in ["  a  ", "\t b \n", "", "   "] {
        let once = trim(s);
        assert_eq!(trim(once), once);
    }
}

#[test]
fn decimal_matches_display() {
    for i in [0, 1, 9, 10, 42, 2024, -1, -2024, i32::MAX, i32::MIN, 1000000, -1000000] {
        assert_eq!(decimal_string(i), i.to_string());
    }
}
