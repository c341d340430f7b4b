//! The hex field of the colour picker: reading `RRGGBB` (with or without a
//! leading `#`) and writing a colour back in that form.

use vstd::prelude::*;
use crate::text::{
    trim, strip_leading, chars_of, trim_chars, char_digit_value, string_from_chars,
    is_white_space, trim_start, trim_end, digit_value,
};

verus! {

/// The text that the picker reads a colour from: trimmed of white space, then
/// of any leading `#` characters.
pub open spec fn hex_field(s: Seq<char>) -> Seq<char> {
    strip_leading(trim(s), '#')
}

/// A hexadecimal digit: `0`-`9`, `a`-`f` or `A`-`F`.
pub open spec fn is_hex_digit(c: char) -> bool {
    ('0' <= c <= '9') || ('a' <= c <= 'f') || ('A' <= c <= 'F')
}

/// The byte that the two hex digits at positions `2i` and `2i + 1` of the
/// field write.
pub open spec fn hex_pair(t: Seq<char>, i: int) -> nat {
    digit_value(t[2 * i]) * 16 + digit_value(t[2 * i + 1])
}

/// The field reads as a colour: exactly six hexadecimal digits.
pub open spec fn hex_color_ok(s: Seq<char>) -> bool {
    let t = hex_field(s);
    &&& t.len() == 6
    &&& forall|i: int| 0 <= i < 6 ==> #[trigger] is_hex_digit(t[i])
}

proof fn lemma_strip_leading_skip(s: Seq<char>, c: char, i: int)
    requires
        0 <= i <= s.len(),
        forall|j: int| 0 <= j < i ==> #[trigger] s[j] == c,
    ensures
        strip_leading(s, c) == strip_leading(s.skip(i), c),
    decreases i,
{
    if i > 0 {
        lemma_strip_leading_skip(s.drop_first(), c, i - 1);
        assert(s.drop_first().skip(i - 1) =~= s.skip(i));
    } else {
        assert(s.skip(0) =~= s);
    }
}

fn pair_byte(t: &Vec<char>, i: usize) -> (r: u8)
    requires
        t.len() == 6,
        i < 3,
        forall|j: int| 0 <= j < 6 ==> #[trigger] is_hex_digit(t@[j]),
    ensures
        r as nat == hex_pair(t@, i as int),
{
    let hi = char_digit_value(t[2 * i]);
    let lo = char_digit_value(t[2 * i + 1]);
    assert(is_hex_digit(t@[2 * i as int]) && is_hex_digit(t@[2 * i + 1]));
    (hi * 16 + lo) as u8
}

/// Reads a colour from a hex colour string such as `FF0000` or `#00ff00`.
///
/// The string is trimmed of white space and of leading `#` characters; what
/// remains must be exactly six hexadecimal digits, read in pairs as the red,
/// green and blue bytes. Any other string gives `None`.
pub fn parse_hex_color(s: &str) -> (r: Option<[u8; 3]>)
    ensures
        r is Some <==> hex_color_ok(s@),
        r matches Some(rgb) ==> {
            let t = hex_field(s@);
            &&& rgb[0] as nat == hex_pair(t, 0)
            &&& rgb[1] as nat == hex_pair(t, 1)
            &&& rgb[2] as nat == hex_pair(t, 2)
        },
{
    let v = chars_of(s);
    let trimmed = trim_chars(&v);
    let n = trimmed.len();
    let mut start: usize = 0;
    while start < n && trimmed[start] == '#'
        invariant
            n == trimmed@.len(),
            start <= n,
            forall|j: int| 0 <= j < start ==> #[trigger] trimmed@[j] == '#',
        decreases n - start,
    {
        start = start + 1;
    }
    proof {
        lemma_strip_leading_skip(trimmed@, '#', start as int);
        let rest = trimmed@.skip(start as int);
        assert(strip_leading(rest, '#') == rest);
    }
    let ghost t = hex_field(s@);
    assert(t =~= trimmed@.subrange(start as int, n as int));
    if n - start != 6 {
        return None;
    }
    let mut field: Vec<char> = Vec::new();
    let mut i: usize = start;
    while i < n
        invariant
            start <= i <= n,
            n == trimmed@.len(),
            n - start == 6,
            field@ == trimmed@.subrange(start as int, i as int),
        decreases n - i,
    {
        field.push(trimmed[i]);
        i = i + 1;
        assert(field@ =~= trimmed@.subrange(start as int, i as int));
    }
    assert(field@ == t);
    let mut k: usize = 0;
    while k < 6
        invariant
            field@ == t,
            t == hex_field(s@),
            field.len() == 6,
            k <= 6,
            forall|j: int| 0 <= j < k ==> #[trigger] is_hex_digit(t[j]),
        decreases 6 - k,
    {
        let c = field[k];
        if !(('0' <= c && c <= '9') || ('a' <= c && c <= 'f') || ('A' <= c && c <= 'F')) {
            assert(!is_hex_digit(t[k as int]));
            return None;
        }
        k = k + 1;
    }
    let r = pair_byte(&field, 0);
    let g = pair_byte(&field, 1);
    let b = pair_byte(&field, 2);
    Some([r, g, b])
}

/// Upper-case hex digit for `d < 16`.
pub open spec fn hex_digit_char(d: nat) -> char {
    if d < 10 {
        (d + 48) as char
    } else {
        (d + 55) as char
    }
}

/// `format!("{:02X}", b)`.
pub open spec fn hex_byte_text(b: u8) -> Seq<char> {
    seq![hex_digit_char((b / 16) as nat), hex_digit_char((b % 16) as nat)]
}

/// `format!("{:02X}{:02X}{:02X}", r, g, b)`.
pub open spec fn hex_color_text(rgb: Seq<u8>) -> Seq<char> {
    hex_byte_text(rgb[0]) + hex_byte_text(rgb[1]) + hex_byte_text(rgb[2])
}

fn hex_digit(d: u8) -> (c: char)
    requires
        d < 16,
    ensures
        c == hex_digit_char(d as nat),
{
    if d < 10 {
        (48 + d) as char
    } else {
        (55 + d) as char
    }
}

/// The hex text that the picker shows for a colour: six upper-case digits.
pub fn format_hex_color(rgb: [u8; 3]) -> (s: String)
    ensures
        s@ == hex_color_text(rgb@),
{
    let v = vec![
        hex_digit(rgb[0] / 16),
        hex_digit(rgb[0] % 16),
        hex_digit(rgb[1] / 16),
        hex_digit(rgb[1] % 16),
        hex_digit(rgb[2] / 16),
        hex_digit(rgb[2] % 16),
    ];
    assert(v@ =~= hex_color_text(rgb@));
    string_from_chars(&v)
}

/// The hex text written for any colour reads back as that colour.
pub proof fn lemma_hex_color_round_trip(rgb: [u8; 3])
    ensures
        hex_color_ok(hex_color_text(rgb@)),
        hex_pair(hex_field(hex_color_text(rgb@)), 0) == rgb[0] as nat,
        hex_pair(hex_field(hex_color_text(rgb@)), 1) == rgb[1] as nat,
        hex_pair(hex_field(hex_color_text(rgb@)), 2) == rgb[2] as nat,
{
    let s = hex_color_text(rgb@);
    assert(s.len() == 6);
    assert forall|i: int| 0 <= i < 6 implies !is_white_space(#[trigger] s[i]) && s[i] != '#'
        && is_hex_digit(s[i]) by {
    }
    assert(trim_start(s) == s);
    assert(trim_end(s) == s);
    assert(strip_leading(s, '#') == s);
    assert(hex_field(s) == s);
    assert forall|k: int| 0 <= k < 3 implies hex_pair(s, k) == rgb@[k] as nat by {
        let b = rgb@[k];
        assert(s[2 * k] == hex_digit_char((b / 16) as nat));
        assert(s[2 * k + 1] == hex_digit_char((b % 16) as nat));
        assert(digit_value(hex_digit_char((b / 16) as nat)) == (b / 16) as nat);
        assert(digit_value(hex_digit_char((b % 16) as nat)) == (b % 16) as nat);
        assert((b / 16) * 16 + b % 16 == b);
    }
}

} // verus!
