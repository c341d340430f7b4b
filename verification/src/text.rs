//! Character-level grammar of the values the explorer reads and writes.
//!
//! Each spec function here states, over a `Seq<char>`, what the corresponding
//! conversion of the standard library does with a string, and each executable
//! function is proved against it.

use vstd::prelude::*;

verus! {

/// `char::is_whitespace`: the characters with the Unicode `White_Space` property.
pub open spec fn is_white_space(c: char) -> bool {
    let u = c as u32;
    ||| 0x9 <= u <= 0xD
    ||| u == 0x20
    ||| u == 0x85
    ||| u == 0xA0
    ||| u == 0x1680
    ||| 0x2000 <= u <= 0x200A
    ||| u == 0x2028
    ||| u == 0x2029
    ||| u == 0x202F
    ||| u == 0x205F
    ||| u == 0x3000
}

/// What remains of `s` once leading white space is removed.
pub open spec fn trim_start(s: Seq<char>) -> Seq<char>
    decreases s.len(),
{
    if s.len() > 0 && is_white_space(s[0]) {
        trim_start(s.drop_first())
    } else {
        s
    }
}

/// What remains of `s` once trailing white space is removed.
pub open spec fn trim_end(s: Seq<char>) -> Seq<char>
    decreases s.len(),
{
    if s.len() > 0 && is_white_space(s.last()) {
        trim_end(s.drop_last())
    } else {
        s
    }
}

/// `str::trim`.
pub open spec fn trim(s: Seq<char>) -> Seq<char> {
    trim_end(trim_start(s))
}

/// `str::trim_start_matches(c)` for a single character `c`.
pub open spec fn strip_leading(s: Seq<char>, c: char) -> Seq<char>
    decreases s.len(),
{
    if s.len() > 0 && s[0] == c {
        strip_leading(s.drop_first(), c)
    } else {
        s
    }
}

pub fn is_white_space_char(c: char) -> (r: bool)
    ensures
        r == is_white_space(c),
{
    let u = c as u32;
    (0x9 <= u && u <= 0xD) || u == 0x20 || u == 0x85 || u == 0xA0 || u == 0x1680 || (0x2000 <= u
        && u <= 0x200A) || u == 0x2028 || u == 0x2029 || u == 0x202F || u == 0x205F || u == 0x3000
}

/// The characters of `s`, in order.
pub fn chars_of(s: &str) -> (v: Vec<char>)
    ensures
        v@ == s@,
{
    let n = s.unicode_len();
    let mut v: Vec<char> = Vec::new();
    let mut i: usize = 0;
    while i < n
        invariant
            n == s@.len(),
            i <= n,
            v@ == s@.take(i as int),
        decreases n - i,
    {
        let c = s.get_char(i);
        v.push(c);
        i = i + 1;
        assert(v@ =~= s@.take(i as int));
    }
    assert(v@ =~= s@);
    v
}

proof fn lemma_trim_start_skip(s: Seq<char>, i: int)
    requires
        0 <= i <= s.len(),
        forall|j: int| 0 <= j < i ==> is_white_space(#[trigger] s[j]),
    ensures
        trim_start(s) == trim_start(s.skip(i)),
    decreases i,
{
    if i > 0 {
        assert(s.skip(1) =~= s.drop_first());
        lemma_trim_start_skip(s.drop_first(), i - 1);
        assert(s.drop_first().skip(i - 1) =~= s.skip(i));
    } else {
        assert(s.skip(0) =~= s);
    }
}

proof fn lemma_trim_end_take(s: Seq<char>, k: int)
    requires
        0 <= k <= s.len(),
        forall|j: int| k <= j < s.len() ==> is_white_space(#[trigger] s[j]),
    ensures
        trim_end(s) == trim_end(s.take(k)),
    decreases s.len() - k,
{
    if k < s.len() {
        assert(s.take(s.len() - 1) =~= s.drop_last());
        lemma_trim_end_take(s.drop_last(), k);
        assert(s.drop_last().take(k) =~= s.take(k));
    } else {
        assert(s.take(k) =~= s);
    }
}

/// `str::trim` on a sequence of characters.
pub fn trim_chars(v: &Vec<char>) -> (r: Vec<char>)
    ensures
        r@ == trim(v@),
{
    let n = v.len();
    let mut start: usize = 0;
    while start < n && is_white_space_char(v[start])
        invariant
            n == v@.len(),
            start <= n,
            forall|j: int| 0 <= j < start ==> is_white_space(#[trigger] v@[j]),
        decreases n - start,
    {
        start = start + 1;
    }
    proof {
        lemma_trim_start_skip(v@, start as int);
    }
    let ghost rest = v@.skip(start as int);
    assert(trim_start(rest) == rest);
    let mut end: usize = n;
    while end > start && is_white_space_char(v[end - 1])
        invariant
            n == v@.len(),
            start <= end <= n,
            rest == v@.skip(start as int),
            forall|j: int| end <= j < n ==> is_white_space(#[trigger] v@[j]),
        decreases end,
    {
        end = end - 1;
    }
    proof {
        lemma_trim_end_take(rest, end - start);
        assert(rest.take(end - start) =~= v@.subrange(start as int, end as int));
    }
    let mut r: Vec<char> = Vec::new();
    let mut i: usize = start;
    while i < end
        invariant
            n == v@.len(),
            start <= i <= end <= n,
            r@ == v@.subrange(start as int, i as int),
        decreases end - i,
    {
        r.push(v[i]);
        i = i + 1;
        assert(r@ =~= v@.subrange(start as int, i as int));
    }
    r
}


/// `char::to_digit` for radices up to 36: the value that a digit character
/// stands for, or 36 for a character that is no digit in any radix.
pub open spec fn digit_value(c: char) -> nat {
    if '0' <= c <= '9' {
        (c as int - '0' as int) as nat
    } else if 'a' <= c <= 'z' {
        (c as int - 'a' as int + 10) as nat
    } else if 'A' <= c <= 'Z' {
        (c as int - 'A' as int + 10) as nat
    } else {
        36
    }
}

pub open spec fn is_radix_digit(c: char, radix: nat) -> bool {
    digit_value(c) < radix
}

pub open spec fn all_radix_digits(s: Seq<char>, radix: nat) -> bool {
    forall|i: int| 0 <= i < s.len() ==> #[trigger] is_radix_digit(s[i], radix)
}

/// The number that the digit string `s` writes in base `radix`.
pub open spec fn radix_value(s: Seq<char>, radix: nat) -> nat
    decreases s.len(),
{
    if s.len() == 0 {
        0
    } else {
        radix_value(s.drop_last(), radix) * radix + digit_value(s.last())
    }
}

/// The digits of an unsigned integer literal: a single leading `+` is allowed.
pub open spec fn unsigned_digits(s: Seq<char>) -> Seq<char> {
    if s.len() > 0 && s[0] == '+' {
        s.drop_first()
    } else {
        s
    }
}

/// `<uN>::from_str_radix(s, radix)`, for the unsigned type whose largest value
/// is `max`: an optional `+`, then one or more digits of the radix, and a value
/// that fits in the type.
pub open spec fn parse_unsigned(s: Seq<char>, radix: nat, max: nat) -> Option<nat> {
    let d = unsigned_digits(s);
    if d.len() > 0 && all_radix_digits(d, radix) && radix_value(d, radix) <= max {
        Some(radix_value(d, radix))
    } else {
        None
    }
}

/// `<uN as FromStr>::from_str`: the decimal case of `parse_unsigned`.
pub open spec fn parse_decimal(s: Seq<char>, max: nat) -> Option<nat> {
    parse_unsigned(s, 10, max)
}

pub fn char_digit_value(c: char) -> (d: u32)
    ensures
        d == digit_value(c),
{
    if '0' <= c && c <= '9' {
        (c as u32) - ('0' as u32)
    } else if 'a' <= c && c <= 'z' {
        (c as u32) - ('a' as u32) + 10
    } else if 'A' <= c && c <= 'Z' {
        (c as u32) - ('A' as u32) + 10
    } else {
        36
    }
}

proof fn lemma_radix_value_push(s: Seq<char>, c: char, radix: nat)
    ensures
        radix_value(s.push(c), radix) == radix_value(s, radix) * radix + digit_value(c),
{
    assert(s.push(c).drop_last() =~= s);
}

proof fn lemma_grows(x: nat, r: nat, d: nat)
    requires
        r >= 1,
    ensures
        x * r + d >= x,
{
    assert(x * r >= x) by (nonlinear_arith)
        requires
            r >= 1,
    ;
}

/// `<uN>::from_str_radix` on a sequence of characters, for the unsigned type
/// whose largest value is `max`.
pub fn parse_unsigned_chars(s: &Vec<char>, radix: u32, max: u64) -> (r: Option<u64>)
    requires
        2 <= radix <= 36,
    ensures
        r is Some == parse_unsigned(s@, radix as nat, max as nat) is Some,
        r is Some ==> r.unwrap() as nat == parse_unsigned(s@, radix as nat, max as nat).unwrap(),
{
    let n = s.len();
    let start: usize = if n > 0 && s[0] == '+' {
        1
    } else {
        0
    };
    let ghost d = unsigned_digits(s@);
    assert(d =~= s@.subrange(start as int, n as int));
    if start == n {
        return None;
    }
    let mut value: u64 = 0;
    let mut overflow = false;
    let mut i: usize = start;
    while i < n
        invariant
            n == s@.len(),
            start <= i <= n,
            2 <= radix <= 36,
            d == s@.subrange(start as int, n as int),
            d == unsigned_digits(s@),
            all_radix_digits(s@.subrange(start as int, i as int), radix as nat),
            !overflow ==> value == radix_value(s@.subrange(start as int, i as int), radix as nat)
                && value <= max,
            overflow ==> radix_value(s@.subrange(start as int, i as int), radix as nat) > max,
        decreases n - i,
    {
        let ghost p = s@.subrange(start as int, i as int);
        let c = s[i];
        let dv = char_digit_value(c);
        if dv >= radix {
            assert(d[i - start] == c);
            assert(!is_radix_digit(d[i - start], radix as nat));
            assert(!all_radix_digits(d, radix as nat));
            return None;
        }
        proof {
            assert(s@.subrange(start as int, i + 1) =~= p.push(c));
            lemma_radix_value_push(p, c, radix as nat);
            lemma_grows(radix_value(p, radix as nat), radix as nat, dv as nat);
            assert forall|j: int| 0 <= j < p.push(c).len() implies #[trigger] is_radix_digit(
                p.push(c)[j],
                radix as nat,
            ) by {
                if j < p.len() {
                    assert(p.push(c)[j] == p[j]);
                }
            }
        }
        if !overflow {
            match value.checked_mul(radix as u64) {
                Some(m) => match m.checked_add(dv as u64) {
                    Some(v) => {
                        if v <= max {
                            value = v;
                        } else {
                            overflow = true;
                        }
                    },
                    None => {
                        overflow = true;
                    },
                },
                None => {
                    proof {
                        assert(value * radix >= 0) by (nonlinear_arith)
                            requires
                                radix >= 2,
                        ;
                    }
                    overflow = true;
                },
            }
        }
        i = i + 1;
    }
    if overflow {
        None
    } else {
        Some(value)
    }
}

/// `<u32 as FromStr>::from_str`.
pub fn parse_u32_chars(s: &Vec<char>) -> (r: Option<u32>)
    ensures
        r is Some == parse_decimal(s@, u32::MAX as nat) is Some,
        r is Some ==> r.unwrap() as nat == parse_decimal(s@, u32::MAX as nat).unwrap(),
{
    match parse_unsigned_chars(s, 10, u32::MAX as u64) {
        Some(v) => Some(v as u32),
        None => None,
    }
}

/// `<u64 as FromStr>::from_str`.
pub fn parse_u64_chars(s: &Vec<char>) -> (r: Option<u64>)
    ensures
        r is Some == parse_decimal(s@, u64::MAX as nat) is Some,
        r is Some ==> r.unwrap() as nat == parse_decimal(s@, u64::MAX as nat).unwrap(),
{
    parse_unsigned_chars(s, 10, u64::MAX)
}


/// The character of a decimal digit `d < 10`.
pub open spec fn digit_char(d: nat) -> char {
    (d + 48) as char
}

/// `<uN as Display>`: the shortest decimal writing of `n`.
pub open spec fn decimal(n: nat) -> Seq<char>
    decreases n,
{
    if n < 10 {
        seq![digit_char(n)]
    } else {
        decimal(n / 10).push(digit_char(n % 10))
    }
}

proof fn lemma_digit_char(d: nat)
    requires
        d < 10,
    ensures
        digit_value(digit_char(d)) == d,
        is_radix_digit(digit_char(d), 10),
        digit_char(d) != '+',
{
}

/// The decimal writing of `n` consists of decimal digits, does not start with
/// a sign, and stands for `n`.
pub proof fn lemma_decimal_value(n: nat)
    ensures
        decimal(n).len() > 0,
        decimal(n)[0] != '+',
        all_radix_digits(decimal(n), 10),
        radix_value(decimal(n), 10) == n,
    decreases n,
{
    if n < 10 {
        lemma_digit_char(n);
        assert(decimal(n).drop_last() =~= Seq::<char>::empty());
        assert(radix_value(decimal(n), 10) == radix_value(Seq::<char>::empty(), 10) * 10 + n);
    } else {
        lemma_decimal_value(n / 10);
        lemma_digit_char(n % 10);
        let p = decimal(n / 10);
        lemma_radix_value_push(p, digit_char(n % 10), 10);
        assert forall|i: int| 0 <= i < decimal(n).len() implies #[trigger] is_radix_digit(
            decimal(n)[i],
            10,
        ) by {
            if i < p.len() {
                assert(decimal(n)[i] == p[i]);
            }
        }
        assert(decimal(n)[0] == p[0]);
        assert((n / 10) * 10 + n % 10 == n);
    }
}

/// Reading back a decimal writing gives the number written, wherever the
/// number fits in the type read.
pub proof fn lemma_parse_decimal_of_decimal(n: nat, max: nat)
    requires
        n <= max,
    ensures
        parse_decimal(decimal(n), max) == Some(n),
{
    lemma_decimal_value(n);
    assert(unsigned_digits(decimal(n)) == decimal(n));
}

fn digit_to_char(d: u64) -> (c: char)
    requires
        d < 10,
    ensures
        c == digit_char(d as nat),
{
    let b: u8 = 48 + d as u8;
    b as char
}

/// `u64::to_string`, as characters.
pub fn decimal_chars(n: u64) -> (r: Vec<char>)
    ensures
        r@ == decimal(n as nat),
{
    let mut r: Vec<char> = Vec::new();
    let mut m: u64 = n;
    while m >= 10
        invariant
            decimal(n as nat) == decimal(m as nat) + r@,
        decreases m,
    {
        let c = digit_to_char(m % 10);
        r.insert(0, c);
        proof {
            assert(decimal(m as nat) == decimal((m / 10) as nat).push(digit_char((m % 10) as nat)));
        }
        assert(decimal(n as nat) =~= decimal((m / 10) as nat) + r@);
        m = m / 10;
    }
    let c = digit_to_char(m);
    r.insert(0, c);
    assert(decimal(n as nat) =~= r@);
    r
}

/// `str::parse::<bool>`: exactly `true` or `false`.
pub open spec fn parse_bool(s: Seq<char>) -> Option<bool> {
    if s == seq!['t', 'r', 'u', 'e'] {
        Some(true)
    } else if s == seq!['f', 'a', 'l', 's', 'e'] {
        Some(false)
    } else {
        None
    }
}

/// `bool::to_string`.
pub open spec fn bool_text(b: bool) -> Seq<char> {
    if b {
        seq!['t', 'r', 'u', 'e']
    } else {
        seq!['f', 'a', 'l', 's', 'e']
    }
}

pub fn parse_bool_chars(s: &Vec<char>) -> (r: Option<bool>)
    ensures
        r == parse_bool(s@),
{
    if s.len() == 4 && s[0] == 't' && s[1] == 'r' && s[2] == 'u' && s[3] == 'e' {
        assert(s@ =~= seq!['t', 'r', 'u', 'e']);
        Some(true)
    } else if s.len() == 5 && s[0] == 'f' && s[1] == 'a' && s[2] == 'l' && s[3] == 's' && s[4]
        == 'e' {
        assert(s@ =~= seq!['f', 'a', 'l', 's', 'e']);
        Some(false)
    } else {
        proof {
            if s@ == seq!['t', 'r', 'u', 'e'] {
                assert(s@[0] == 't' && s@[1] == 'r' && s@[2] == 'u' && s@[3] == 'e');
            }
            if s@ == seq!['f', 'a', 'l', 's', 'e'] {
                assert(s@[0] == 'f' && s@[1] == 'a' && s@[2] == 'l' && s@[3] == 's' && s@[4]
                    == 'e');
            }
        }
        None
    }
}

pub fn bool_chars(b: bool) -> (r: Vec<char>)
    ensures
        r@ == bool_text(b),
{
    if b {
        let r = vec!['t', 'r', 'u', 'e'];
        assert(r@ =~= seq!['t', 'r', 'u', 'e']);
        r
    } else {
        let r = vec!['f', 'a', 'l', 's', 'e'];
        assert(r@ =~= seq!['f', 'a', 'l', 's', 'e']);
        r
    }
}

/// Booleans read back as written.
pub proof fn lemma_parse_bool_text(b: bool)
    ensures
        parse_bool(bool_text(b)) == Some(b),
{
    if !b {
        assert(seq!['f', 'a', 'l', 's', 'e'] != seq!['t', 'r', 'u', 'e']) by {
            assert(seq!['f', 'a', 'l', 's', 'e'].len() != seq!['t', 'r', 'u', 'e'].len());
        }
    }
}

/// A `String` holding the characters of `v` (`String: FromIterator<char>`).
#[verifier::external_body]
pub fn string_from_chars(v: &Vec<char>) -> (s: String)
    ensures
        s@ == v@,
{
    v.iter().collect()
}


pub open spec fn is_digit(c: char) -> bool {
    '0' <= c <= '9'
}

pub open spec fn is_sign(c: char) -> bool {
    c == '+' || c == '-'
}

/// `s` without one leading sign character, if it has one.
pub open spec fn drop_sign(s: Seq<char>) -> Seq<char> {
    if s.len() > 0 && is_sign(s[0]) {
        s.drop_first()
    } else {
        s
    }
}

/// ASCII lower case of a character.
pub open spec fn to_lower(c: char) -> char {
    if 'A' <= c <= 'Z' {
        (c as int + 32) as char
    } else {
        c
    }
}

pub open spec fn lower(s: Seq<char>) -> Seq<char> {
    s.map_values(|c: char| to_lower(c))
}

pub open spec fn count_dots(s: Seq<char>) -> nat
    decreases s.len(),
{
    if s.len() == 0 {
        0
    } else {
        count_dots(s.drop_last()) + if s.last() == '.' {
            1nat
        } else {
            0nat
        }
    }
}

/// `Digit+ | Digit+ '.' Digit* | Digit* '.' Digit+`: digits with at most one
/// point, and at least one digit.
pub open spec fn is_mantissa(m: Seq<char>) -> bool {
    &&& forall|i: int| 0 <= i < m.len() ==> is_digit(#[trigger] m[i]) || m[i] == '.'
    &&& count_dots(m) <= 1
    &&& m.len() > count_dots(m)
}

/// `Sign? Digit+`.
pub open spec fn is_exponent(e: Seq<char>) -> bool {
    let d = drop_sign(e);
    d.len() > 0 && forall|i: int| 0 <= i < d.len() ==> is_digit(#[trigger] d[i])
}

pub open spec fn is_exp_marker(c: char) -> bool {
    c == 'e' || c == 'E'
}

/// `Number ::= Mantissa Exp?` with `Exp ::= 'e' Sign? Digit+`.
pub open spec fn is_number(b: Seq<char>) -> bool {
    ||| (forall|i: int| 0 <= i < b.len() ==> !is_exp_marker(#[trigger] b[i])) && is_mantissa(b)
    ||| exists|k: int|
        0 <= k < b.len() && is_exp_marker(#[trigger] b[k]) && is_mantissa(b.take(k))
            && is_exponent(b.skip(k + 1))
}

/// The grammar that `f64::from_str` (and `f32::from_str`) accepts:
/// `Sign? ('inf' | 'infinity' | 'nan' | Number)`, letters in either case.
pub open spec fn is_float_literal(s: Seq<char>) -> bool {
    let b = drop_sign(s);
    ||| lower(b) == seq!['i', 'n', 'f']
    ||| lower(b) == seq!['i', 'n', 'f', 'i', 'n', 'i', 't', 'y']
    ||| lower(b) == seq!['n', 'a', 'n']
    ||| is_number(b)
}

fn lower_char(c: char) -> (r: char)
    ensures
        r == to_lower(c),
{
    if 'A' <= c && c <= 'Z' {
        let u: u32 = (c as u32) + 32;
        let b: u8 = u as u8;
        b as char
    } else {
        c
    }
}

/// Whether `v[lo..hi]`, in lower case, is the word `w`.
fn lower_range_is(v: &Vec<char>, lo: usize, hi: usize, w: &Vec<char>) -> (r: bool)
    requires
        lo <= hi <= v.len(),
    ensures
        r == (lower(v@.subrange(lo as int, hi as int)) == w@),
{
    let ghost t = v@.subrange(lo as int, hi as int);
    if hi - lo != w.len() {
        assert(lower(t).len() != w@.len());
        return false;
    }
    let mut i: usize = 0;
    while i < w.len()
        invariant
            lo <= hi <= v.len(),
            hi - lo == w.len(),
            t == v@.subrange(lo as int, hi as int),
            i <= w.len(),
            forall|j: int| 0 <= j < i ==> to_lower(#[trigger] t[j]) == w@[j],
        decreases w.len() - i,
    {
        if lower_char(v[lo + i]) != w[i] {
            assert(lower(t)[i as int] != w@[i as int]);
            return false;
        }
        i = i + 1;
    }
    assert(lower(t) =~= w@);
    true
}

/// Whether `v[lo..hi]` is a mantissa.
fn mantissa_range(v: &Vec<char>, lo: usize, hi: usize) -> (r: bool)
    requires
        lo <= hi <= v.len(),
    ensures
        r == is_mantissa(v@.subrange(lo as int, hi as int)),
{
    let ghost m = v@.subrange(lo as int, hi as int);
    let mut dots: usize = 0;
    let mut i: usize = lo;
    while i < hi
        invariant
            lo <= i <= hi <= v.len(),
            m == v@.subrange(lo as int, hi as int),
            dots == count_dots(v@.subrange(lo as int, i as int)),
            dots <= i - lo,
            forall|j: int| lo <= j < i ==> is_digit(#[trigger] v@[j]) || v@[j] == '.',
        decreases hi - i,
    {
        let c = v[i];
        if !(('0' <= c && c <= '9') || c == '.') {
            assert(m[i - lo] == c);
            return false;
        }
        proof {
            assert(v@.subrange(lo as int, i + 1).drop_last() =~= v@.subrange(lo as int, i as int));
        }
        if c == '.' {
            dots = dots + 1;
        }
        i = i + 1;
    }
    assert(m =~= v@.subrange(lo as int, i as int));
    assert forall|j: int| 0 <= j < m.len() implies is_digit(#[trigger] m[j]) || m[j] == '.' by {
        assert(m[j] == v@[lo + j]);
    }
    dots <= 1 && hi - lo > dots
}

/// Whether `v[lo..hi]` is an exponent.
fn exponent_range(v: &Vec<char>, lo: usize, hi: usize) -> (r: bool)
    requires
        lo <= hi <= v.len(),
    ensures
        r == is_exponent(v@.subrange(lo as int, hi as int)),
{
    let ghost e = v@.subrange(lo as int, hi as int);
    let start = if lo < hi && (v[lo] == '+' || v[lo] == '-') {
        lo + 1
    } else {
        lo
    };
    let ghost d = drop_sign(e);
    assert(d =~= v@.subrange(start as int, hi as int));
    if start == hi {
        return false;
    }
    let mut i: usize = start;
    while i < hi
        invariant
            start <= i <= hi <= v.len(),
            d == v@.subrange(start as int, hi as int),
            d == drop_sign(v@.subrange(lo as int, hi as int)),
            forall|j: int| start <= j < i ==> is_digit(#[trigger] v@[j]),
        decreases hi - i,
    {
        let c = v[i];
        if !('0' <= c && c <= '9') {
            assert(d[i - start] == c);
            return false;
        }
        i = i + 1;
    }
    assert forall|j: int| 0 <= j < d.len() implies is_digit(#[trigger] d[j]) by {
        assert(d[j] == v@[start + j]);
    }
    true
}

/// Whether `v[lo..]` is a `Number`.
fn number_range(v: &Vec<char>, lo: usize) -> (r: bool)
    requires
        lo <= v.len(),
    ensures
        r == is_number(v@.subrange(lo as int, v@.len() as int)),
{
    let n = v.len();
    let ghost b = v@.subrange(lo as int, n as int);
    let mut k: usize = lo;
    while k < n && !(v[k] == 'e' || v[k] == 'E')
        invariant
            lo <= k <= n,
            n == v@.len(),
            b == v@.subrange(lo as int, n as int),
            forall|j: int| lo <= j < k ==> !is_exp_marker(#[trigger] v@[j]),
        decreases n - k,
    {
        k = k + 1;
    }
    if k == n {
        let r = mantissa_range(v, lo, n);
        assert forall|i: int| 0 <= i < b.len() implies !is_exp_marker(#[trigger] b[i]) by {
            assert(b[i] == v@[lo + i]);
        }
        r
    } else {
        let ghost kk = (k - lo) as int;
        assert(b[kk] == v@[k as int]);
        assert(b.take(kk) =~= v@.subrange(lo as int, k as int));
        assert(b.skip(kk + 1) =~= v@.subrange(k + 1, n as int));
        let r = mantissa_range(v, lo, k) && exponent_range(v, k + 1, n);
        proof {
            assert(!(forall|i: int| 0 <= i < b.len() ==> !is_exp_marker(#[trigger] b[i])));
            if !r {
                assert forall|k2: int|
                    0 <= k2 < b.len() && is_exp_marker(#[trigger] b[k2]) implies !(is_mantissa(
                    b.take(k2),
                ) && is_exponent(b.skip(k2 + 1))) by {
                    if k2 < kk {
                        assert(b[k2] == v@[lo + k2]);
                    } else if k2 > kk {
                        assert(b.take(k2)[kk] == b[kk]);
                        assert(!is_digit(b.take(k2)[kk]) && b.take(k2)[kk] != '.');
                    }
                }
            }
        }
        r
    }
}

/// `str::parse::<f64>()` succeeds: whether `v` follows the float grammar.
pub fn is_float_literal_chars(v: &Vec<char>) -> (r: bool)
    ensures
        r == is_float_literal(v@),
{
    let n = v.len();
    let lo: usize = if n > 0 && (v[0] == '+' || v[0] == '-') {
        1
    } else {
        0
    };
    assert(drop_sign(v@) =~= v@.subrange(lo as int, n as int));
    let inf = vec!['i', 'n', 'f'];
    let infinity = vec!['i', 'n', 'f', 'i', 'n', 'i', 't', 'y'];
    let nan = vec!['n', 'a', 'n'];
    assert(inf@ =~= seq!['i', 'n', 'f']);
    assert(infinity@ =~= seq!['i', 'n', 'f', 'i', 'n', 'i', 't', 'y']);
    assert(nan@ =~= seq!['n', 'a', 'n']);
    lower_range_is(v, lo, n, &inf) || lower_range_is(v, lo, n, &infinity) || lower_range_is(
        v,
        lo,
        n,
        &nan,
    ) || number_range(v, lo)
}

} // verus!
