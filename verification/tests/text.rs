use forma_fractalis::text::{
    chars_of, decimal_chars, is_float_literal_chars, parse_bool_chars, parse_u32_chars,
    parse_u64_chars, parse_unsigned_chars, trim_chars,
};

fn chars(s: &str) -> Vec<char> {
    s.chars().collect()
}

#[test]
fn trim_matches_std() {
    for s in ["", "  ", " a b ", "\t\nx\u{85}", "\u{2000}y\u{3000}", "z", "\u{200B}w"] {
        let t: String = trim_chars(&chars(s)).into_iter().collect();
        assert_eq!(t, s.trim());
    }
}

#[test]
fn decimal_parsing_matches_std() {
    for s in ["0", "+7", "007", "4294967295", "4294967296", "-1", "+", "", " 1", "1_000", "99999999999999999999"] {
        assert_eq!(parse_u32_chars(&chars(s)), s.parse::<u32>().ok(), "{s}");
        assert_eq!(parse_u64_chars(&chars(s)), s.parse::<u64>().ok(), "{s}");
    }
}

#[test]
fn radix_parsing_matches_std() {
    for s in ["ff", "FF", "+f", "100", "g", "", "7f", "80"] {
        assert_eq!(
            parse_unsigned_chars(&chars(s), 16, 255).map(|v| v as u8),
            u8::from_str_radix(s, 16).ok(),
            "{s}"
        );
    }
}

#[test]
fn decimal_writing_matches_std() {
    for n in [0u64, 5, 10, 99, 100, 123456789, u64::MAX] {
        let s: String = decimal_chars(n).into_iter().collect();
        assert_eq!(s, n.to_string());
        assert_eq!(parse_u64_chars(&chars(&s)), Some(n));
    }
}

#[test]
fn bool_parsing_matches_std() {
    for s in ["true", "false", "True", "", "truee", "fals"] {
        assert_eq!(parse_bool_chars(&chars(s)), s.parse::<bool>().ok());
    }
}

#[test]
fn float_grammar_matches_std() {
    for s in ["0", "-0.0", "1e10", "1E-7", "+.5", "5.", "inf", "+infinity", "NaN", "1e", ".", "--1", "1..", "e", "1.5e+", "٣"] {
        assert_eq!(is_float_literal_chars(&chars(s)), s.parse::<f64>().is_ok(), "{s}");
    }
}

#[test]
fn chars_of_keeps_order() {
    assert_eq!(chars_of("héllo"), vec!['h', 'é', 'l', 'l', 'o']);
}
