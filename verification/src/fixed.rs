//! Decimal quantities held as integer thousandths: formatting with a fixed
//! number of decimals and parsing of decimal text.

use vstd::prelude::*;
use crate::text::{decimal, decimal_chars, digit_char, push_all};

verus! {

/// Ten to the power `p`.
pub open spec fn pow10(p: nat) -> nat
    decreases p,
{
    if p == 0 {
        1
    } else {
        10 * pow10((p - 1) as nat)
    }
}

/// `m` thousandths rounded to a multiple of `q` thousandths, expressed as a
/// count of `q`s: to nearest, ties to even.
pub open spec fn round_units(m: nat, q: nat) -> nat
    recommends
        q > 0,
{
    let r = m / q;
    let rem = m % q;
    if 2 * rem > q || (2 * rem == q && r % 2 == 1) {
        r + 1
    } else {
        r
    }
}

/// `n` written with at least `width` digits, padded with leading zeros.
pub open spec fn padded(n: nat, width: nat) -> Seq<char>
    decreases width,
{
    if width == 0 {
        Seq::empty()
    } else {
        padded(n / 10, (width - 1) as nat).push(digit_char((n % 10) as int))
    }
}

/// Text of `u` units of `10^-places`, with exactly `places` decimals.
pub open spec fn units_text(u: nat, places: nat) -> Seq<char> {
    if places == 0 {
        decimal(u)
    } else {
        decimal(u / pow10(places)) + seq!['.'] + padded(u % pow10(places), places)
    }
}

/// Text of `v` thousandths rounded to `places` decimals (0 to 3), as the
/// `{:.places$}` format writes a number: a `-` before negative values,
/// then the rounded magnitude with exactly `places` decimals.
pub open spec fn fixed_text(v: int, places: nat) -> Seq<char>
    recommends
        places <= 3,
{
    let q = pow10((3 - places) as nat);
    let mag: nat = if v < 0 { (-v) as nat } else { v as nat };
    let body = units_text(round_units(mag, q), places);
    if v < 0 {
        seq!['-'] + body
    } else {
        body
    }
}

fn pow10_exec(p: u64) -> (r: u64)
    requires
        p <= 3,
    ensures
        r == pow10(p as nat),
        1 <= r <= 1000,
{
    proof {
        reveal_with_fuel(pow10, 4);
    }
    if p == 0 {
        1
    } else if p == 1 {
        10
    } else if p == 2 {
        100
    } else {
        1000
    }
}

fn padded_chars(n: u64, width: u64) -> (r: Vec<char>)
    requires
        width <= 3,
    ensures
        r@ == padded(n as nat, width as nat),
    decreases width,
{
    if width == 0 {
        Vec::new()
    } else {
        let mut r = padded_chars(n / 10, width - 1);
        let d = decimal_chars(n % 10);
        proof {
            assert(decimal((n % 10) as nat) == seq![digit_char((n % 10) as int)]);
        }
        r.push(d[0]);
        r
    }
}

/// Text of `v` thousandths rounded to `places` decimals (see `fixed_text`).
pub fn fixed_chars(v: i64, places: u64) -> (r: Vec<char>)
    requires
        places <= 3,
    ensures
        r@ == fixed_text(v as int, places as nat),
{
    let q = pow10_exec(3 - places);
    let mag: u64 = if v < 0 {
        (-(v as i128)) as u64
    } else {
        v as u64
    };
    let rr = mag / q;
    let rem = mag % q;
    let u: u64 = if 2 * rem > q || (2 * rem == q && rr % 2 == 1) {
        rr + 1
    } else {
        rr
    };
    let mut r: Vec<char> = Vec::new();
    if v < 0 {
        r.push('-');
    }
    if places == 0 {
        let d = decimal_chars(u);
        push_all(&mut r, &d);
    } else {
        let p = pow10_exec(places);
        let d = decimal_chars(u / p);
        push_all(&mut r, &d);
        r.push('.');
        let f = padded_chars(u % p, places);
        push_all(&mut r, &f);
    }
    proof {
        if v < 0 {
            assert(r@ =~= seq!['-'] + units_text(u as nat, places as nat));
        } else {
            assert(r@ =~= units_text(u as nat, places as nat));
        }
    }
    r
}

// ---------------------------------------------------------------------------
// Parsing
// ---------------------------------------------------------------------------

/// ASCII decimal digit.
pub open spec fn is_digit(c: char) -> bool {
    '0' <= c && c <= '9'
}

/// Value of an ASCII digit.
pub open spec fn digit_value(c: char) -> nat {
    ((c as u32) - ('0' as u32)) as nat
}

/// Value of a run of ASCII digits.
pub open spec fn digits_value(s: Seq<char>) -> nat
    decreases s.len(),
{
    if s.len() == 0 {
        0
    } else {
        digits_value(s.drop_last()) * 10 + digit_value(s.last())
    }
}

/// All characters are ASCII digits.
pub open spec fn all_digits(s: Seq<char>) -> bool {
    forall|i: int| 0 <= i < s.len() ==> is_digit(#[trigger] s[i])
}

/// The digits of an unsigned integer's text: an optional `+`, then at
/// least one ASCII digit (what `str::parse` accepts for unsigned integers).
pub open spec fn unsigned_digits(s: Seq<char>) -> Option<Seq<char>> {
    let d = if s.len() > 0 && s[0] == '+' { s.drop_first() } else { s };
    if d.len() > 0 && all_digits(d) {
        Some(d)
    } else {
        None
    }
}

/// `str::parse::<u16>`: the value of the text when it is an unsigned
/// integer that fits in 16 bits.
pub open spec fn parse_u16_spec(s: Seq<char>) -> Option<u16> {
    match unsigned_digits(s) {
        Some(d) => if digits_value(d) <= 65535 {
            Some(digits_value(d) as u16)
        } else {
            None
        },
        None => None,
    }
}

/// `str::parse::<u8>`: the value of the text when it is an unsigned
/// integer that fits in 8 bits.
pub open spec fn parse_u8_spec(s: Seq<char>) -> Option<u8> {
    match unsigned_digits(s) {
        Some(d) => if digits_value(d) <= 255 {
            Some(digits_value(d) as u8)
        } else {
            None
        },
        None => None,
    }
}

proof fn lemma_digits_value_push(s: Seq<char>, c: char)
    ensures
        digits_value(s.push(c)) == digits_value(s) * 10 + digit_value(c),
{
    assert(s.push(c).drop_last() =~= s);
}

/// Value of the digits `d` when it does not exceed `limit`.
fn digits_upto(d: &Vec<char>, start: usize, limit: u64) -> (r: Option<u64>)
    requires
        start <= d.len(),
        all_digits(d@.skip(start as int)),
    ensures
        match r {
            Some(v) => v == digits_value(d@.skip(start as int)) && v <= limit,
            None => digits_value(d@.skip(start as int)) > limit,
        },
{
    let ghost s = d@.skip(start as int);
    let mut acc: u64 = 0;
    let mut i: usize = start;
    while i < d.len()
        invariant
            start <= i <= d.len(),
            s == d@.skip(start as int),
            all_digits(s),
            acc == digits_value(d@.subrange(start as int, i as int)),
            acc <= limit,
        decreases d.len() - i,
    {
        let c = d[i];
        proof {
            assert(s[i - start] == c);
            assert(is_digit(c));
            lemma_digits_value_push(d@.subrange(start as int, i as int), c);
            assert(d@.subrange(start as int, i + 1) =~= d@.subrange(start as int, i as int).push(c));
        }
        let dv = (c as u32 - '0' as u32) as u128;
        let next: u128 = acc as u128 * 10 + dv;
        if next > limit as u128 {
            proof {
                lemma_prefix_value_bounds(d@.skip(start as int), (i + 1 - start) as int);
                assert(d@.subrange(start as int, i + 1) =~= d@.skip(start as int).take(
                    i + 1 - start,
                ));
            }
            return None;
        }
        acc = next as u64;
        i = i + 1;
    }
    proof {
        assert(d@.subrange(start as int, d.len() as int) =~= s);
    }
    Some(acc)
}

/// The value of a digit string is at least the value of any of its prefixes.
proof fn lemma_prefix_value_bounds(s: Seq<char>, k: int)
    requires
        0 <= k <= s.len(),
        all_digits(s),
    ensures
        digits_value(s) >= digits_value(s.take(k)),
    decreases s.len() - k,
{
    if k < s.len() {
        lemma_prefix_value_bounds(s, k + 1);
        let t = s.take(k + 1);
        assert(t.drop_last() =~= s.take(k));
        assert(digits_value(t) == digits_value(s.take(k)) * 10 + digit_value(t.last()));
    } else {
        assert(s.take(k) =~= s);
    }
}

/// Value of an unsigned integer text (see `unsigned_digits`) when it does
/// not exceed `limit`.
pub fn parse_unsigned(s: &Vec<char>, limit: u64) -> (r: Option<u64>)
    ensures
        r == (match unsigned_digits(s@) {
            Some(d) => if digits_value(d) <= limit {
                Some(digits_value(d) as u64)
            } else {
                None
            },
            None => None,
        }),
{
    let start: usize = if s.len() > 0 && s[0] == '+' { 1 } else { 0 };
    proof {
        if start == 1 {
            assert(s@.skip(1) =~= s@.drop_first());
        } else {
            assert(s@.skip(0) =~= s@);
        }
    }
    if start == s.len() {
        proof {
            assert(s@.skip(start as int).len() == 0);
        }
        return None;
    }
    let mut i: usize = start;
    while i < s.len()
        invariant
            start <= i <= s.len(),
            s@.skip(start as int) == (if s@.len() > 0 && s@[0] == '+' {
                s@.drop_first()
            } else {
                s@
            }),
            forall|k: int| start <= k < i ==> is_digit(#[trigger] s@[k]),
        decreases s.len() - i,
    {
        if !('0' <= s[i] && s[i] <= '9') {
            proof {
                assert(!is_digit(s@.skip(start as int)[i - start]));
            }
            return None;
        }
        i = i + 1;
    }
    proof {
        assert forall|k: int| 0 <= k < s@.skip(start as int).len() implies is_digit(
            #[trigger] s@.skip(start as int)[k],
        ) by {
            assert(s@.skip(start as int)[k] == s@[k + start]);
        }
    }
    digits_upto(s, start, limit)
}

/// `str::parse::<u16>` (see `parse_u16_spec`).
pub fn parse_u16(s: &Vec<char>) -> (r: Option<u16>)
    ensures
        r == parse_u16_spec(s@),
{
    match parse_unsigned(s, 65535) {
        Some(v) => Some(v as u16),
        None => None,
    }
}

/// `str::parse::<u32>`: the value of the text when it is an unsigned
/// integer that fits in 32 bits.
pub open spec fn parse_u32_spec(s: Seq<char>) -> Option<u32> {
    match unsigned_digits(s) {
        Some(d) => if digits_value(d) <= u32::MAX {
            Some(digits_value(d) as u32)
        } else {
            None
        },
        None => None,
    }
}

/// `str::parse::<u32>` (see `parse_u32_spec`).
pub fn parse_u32(s: &Vec<char>) -> (r: Option<u32>)
    ensures
        r == parse_u32_spec(s@),
{
    match parse_unsigned(s, 0xFFFF_FFFF) {
        Some(v) => Some(v as u32),
        None => None,
    }
}

/// `str::parse::<u8>` (see `parse_u8_spec`).
pub fn parse_u8(s: &Vec<char>) -> (r: Option<u8>)
    ensures
        r == parse_u8_spec(s@),
{
    match parse_u16(s) {
        Some(v) => if v <= 255 {
            Some(v as u8)
        } else {
            None
        },
        None => {
            proof {
                match unsigned_digits(s@) {
                    Some(d) => {},
                    None => {},
                }
            }
            None
        },
    }
}


/// The text without one leading `+` or `-`.
pub open spec fn unsigned_part(s: Seq<char>) -> Seq<char> {
    if s.len() > 0 && (s[0] == '-' || s[0] == '+') {
        s.drop_first()
    } else {
        s
    }
}

/// Position of the first `.` in `b`, or its length when there is none.
pub open spec fn dot_index(b: Seq<char>) -> int {
    if b.contains('.') {
        choose|i: int| 0 <= i < b.len() && b[i] == '.' && forall|k: int| 0 <= k < i ==> b[k] != '.'
    } else {
        b.len() as int
    }
}

/// Largest integer part accepted by the decimal parser.
pub open spec fn max_whole() -> nat {
    1_000_000_000_000
}

/// Value, in thousandths, of a decimal number written as an optional sign,
/// digits, and optionally a `.` followed by digits, with at least one digit
/// in all. Fractional digits beyond the third are rounded, half up, by the
/// fourth. Texts of another form, or with an integer part above
/// `max_whole()`, have no value.
pub open spec fn parse_milli_spec(s: Seq<char>) -> Option<i64> {
    let b = unsigned_part(s);
    let dot = dot_index(b);
    let ip = b.take(dot);
    let fp = if dot < b.len() { b.skip(dot + 1) } else { Seq::<char>::empty() };
    if all_digits(ip) && all_digits(fp) && ip.len() + fp.len() > 0 && digits_value(ip) <= max_whole() {
        let n3: int = if fp.len() < 3 { fp.len() as int } else { 3 };
        let f3 = digits_value(fp.take(n3)) * pow10((3 - n3) as nat);
        let up: nat = if fp.len() > 3 && digit_value(fp[3]) >= 5 { 1 } else { 0 };
        let m = digits_value(ip) * 1000 + f3 + up;
        if s.len() > 0 && s[0] == '-' {
            Some((-m) as i64)
        } else {
            Some(m as i64)
        }
    } else {
        None
    }
}

proof fn lemma_digits_bound(s: Seq<char>)
    requires
        all_digits(s),
    ensures
        digits_value(s) < pow10(s.len()),
    decreases s.len(),
{
    if s.len() > 0 {
        let t = s.drop_last();
        assert forall|i: int| 0 <= i < t.len() implies is_digit(#[trigger] t[i]) by {
            assert(t[i] == s[i]);
        }
        lemma_digits_bound(t);
        assert(is_digit(s[s.len() - 1]));
    }
}

/// Whether `d[from..to]` consists of ASCII digits only.
fn digits_in(d: &Vec<char>, from: usize, to: usize) -> (b: bool)
    requires
        from <= to <= d.len(),
    ensures
        b == all_digits(d@.subrange(from as int, to as int)),
{
    let mut i: usize = from;
    while i < to
        invariant
            from <= i <= to <= d.len(),
            forall|k: int| from <= k < i ==> is_digit(#[trigger] d@[k]),
        decreases to - i,
    {
        if !('0' <= d[i] && d[i] <= '9') {
            proof {
                assert(!is_digit(d@.subrange(from as int, to as int)[i - from]));
            }
            return false;
        }
        i = i + 1;
    }
    proof {
        assert forall|k: int| 0 <= k < to - from implies is_digit(
            #[trigger] d@.subrange(from as int, to as int)[k],
        ) by {
            assert(d@.subrange(from as int, to as int)[k] == d@[k + from]);
        }
    }
    true
}

/// Value of the digits `d[from..to]` when it does not exceed `limit`.
fn bounded_value(d: &Vec<char>, from: usize, to: usize, limit: u64) -> (r: Option<u64>)
    requires
        from <= to <= d.len(),
        all_digits(d@.subrange(from as int, to as int)),
        limit <= 1_000_000_000_000,
    ensures
        match r {
            Some(v) => v == digits_value(d@.subrange(from as int, to as int)) && v <= limit,
            None => digits_value(d@.subrange(from as int, to as int)) > limit,
        },
{
    let ghost s = d@.subrange(from as int, to as int);
    let mut acc: u64 = 0;
    let mut i: usize = from;
    while i < to
        invariant
            from <= i <= to <= d.len(),
            s == d@.subrange(from as int, to as int),
            all_digits(s),
            acc == digits_value(d@.subrange(from as int, i as int)),
            acc <= limit,
            limit <= 1_000_000_000_000,
        decreases to - i,
    {
        let c = d[i];
        proof {
            assert(s[i - from] == c);
            lemma_digits_value_push(d@.subrange(from as int, i as int), c);
            assert(d@.subrange(from as int, i + 1) =~= d@.subrange(from as int, i as int).push(c));
        }
        let next = acc * 10 + (c as u32 - '0' as u32) as u64;
        if next > limit {
            proof {
                lemma_prefix_value_bounds(s, (i + 1 - from) as int);
                assert(d@.subrange(from as int, i + 1) =~= s.take(i + 1 - from));
            }
            return None;
        }
        acc = next;
        i = i + 1;
    }
    Some(acc)
}

/// Position of the first `.` at or after `from`, or the length.
fn find_dot(d: &Vec<char>, from: usize) -> (r: usize)
    requires
        from <= d.len(),
    ensures
        from <= r <= d.len(),
        r < d.len() ==> d@[r as int] == '.',
        forall|k: int| from <= k < r ==> d@[k] != '.',
{
    let mut i: usize = from;
    while i < d.len() && d[i] != '.'
        invariant
            from <= i <= d.len(),
            forall|k: int| from <= k < i ==> d@[k] != '.',
        decreases d.len() - i,
    {
        i = i + 1;
    }
    i
}

proof fn lemma_dot_index(b: Seq<char>, i: int)
    requires
        0 <= i <= b.len(),
        i < b.len() ==> b[i] == '.',
        forall|k: int| 0 <= k < i ==> b[k] != '.',
    ensures
        dot_index(b) == i,
{
    if i < b.len() {
        assert(b.contains('.'));
        let j = dot_index(b);
        if j < i {
            assert(b[j] != '.');
        }
        if j > i {
            assert(b[i] != '.');
        }
    } else {
        assert(!b.contains('.')) by {
            if b.contains('.') {
                let k = choose|k: int| 0 <= k < b.len() && b[k] == '.';
                assert(b[k] != '.');
            }
        }
    }
}

/// Value of the (at most three) digits of `d[from..to]`, scaled to thousandths.
#[verifier::spinoff_prover]
fn thousandths_of(d: &Vec<char>, from: usize, to: usize) -> (r: u64)
    requires
        from <= to <= d.len(),
        to - from <= 3,
        all_digits(d@.subrange(from as int, to as int)),
    ensures
        r == digits_value(d@.subrange(from as int, to as int)) * pow10((3 - (to - from)) as nat),
        r < 1000,
{
    let ghost sub = d@.subrange(from as int, to as int);
    proof {
        lemma_digits_bound(sub);
        reveal_with_fuel(pow10, 4);
    }
    let v = match bounded_value(d, from, to, 1000) {
        Some(v) => v,
        None => {
            proof {
                assert(false);
            }
            0
        },
    };
    let n = to - from;
    let ghost scale = pow10((3 - n) as nat);
    assert(sub.len() == n);
    if n == 0 {
        assert(scale == 1000);
        assert(digits_value(sub) == 0);
        assert(digits_value(sub) * scale == 0) by (nonlinear_arith)
            requires
                digits_value(sub) == 0,
        ;
        0
    } else if n == 1 {
        assert(scale == 100);
        assert(v * 100 == digits_value(sub) * scale);
        v * 100
    } else if n == 2 {
        assert(scale == 10);
        assert(v * 10 == digits_value(sub) * scale);
        v * 10
    } else {
        assert(scale == 1);
        assert(digits_value(sub) * scale == v) by (nonlinear_arith)
            requires
                scale == 1,
                v == digits_value(sub),
        ;
        v
    }
}

/// The parser's result from its parts.
proof fn lemma_parse_milli_parts(s: Seq<char>, ip: Seq<char>, fp: Seq<char>)
    requires
        ip == unsigned_part(s).take(dot_index(unsigned_part(s))),
        fp == (if dot_index(unsigned_part(s)) < unsigned_part(s).len() {
            unsigned_part(s).skip(dot_index(unsigned_part(s)) + 1)
        } else {
            Seq::<char>::empty()
        }),
    ensures
        parse_milli_spec(s) == (if all_digits(ip) && all_digits(fp) && ip.len() + fp.len() > 0
            && digits_value(ip) <= max_whole() {
            let n3: int = if fp.len() < 3 {
                fp.len() as int
            } else {
                3
            };
            let f3 = digits_value(fp.take(n3)) * pow10((3 - n3) as nat);
            let up: nat = if fp.len() > 3 && digit_value(fp[3]) >= 5 {
                1
            } else {
                0
            };
            let m = digits_value(ip) * 1000 + f3 + up;
            if s.len() > 0 && s[0] == '-' {
                Some((-m) as i64)
            } else {
                Some(m as i64)
            }
        } else {
            None
        }),
{
}

/// Decimal text to thousandths (see `parse_milli_spec`).
#[verifier::rlimit(40)]
pub fn parse_milli(s: &Vec<char>) -> (r: Option<i64>)
    ensures
        r == parse_milli_spec(s@),
{
    let start: usize = if s.len() > 0 && (s[0] == '-' || s[0] == '+') { 1 } else { 0 };
    let ghost b = unsigned_part(s@);
    proof {
        if start == 1 {
            assert(s@.skip(1) =~= s@.drop_first());
        } else {
            assert(s@.skip(0) =~= s@);
        }
        assert(b == s@.skip(start as int));
    }
    let dot = find_dot(s, start);
    proof {
        assert forall|k: int| 0 <= k < dot - start implies b[k] != '.' by {
            assert(b[k] == s@[k + start]);
        }
        if dot < s.len() {
            assert(b[dot - start] == s@[dot as int]);
        }
        lemma_dot_index(b, dot - start);
    }
    let fstart: usize = if dot < s.len() { dot + 1 } else { s.len() };
    let ghost ip = b.take(dot - start);
    let ghost fp = if dot < s.len() { b.skip(dot - start + 1) } else { Seq::<char>::empty() };
    proof {
        assert(ip =~= s@.subrange(start as int, dot as int));
        assert(fp =~= s@.subrange(fstart as int, s@.len() as int));
    }
    if !digits_in(s, start, dot) || !digits_in(s, fstart, s.len()) {
        return None;
    }
    if dot - start + (s.len() - fstart) == 0 {
        return None;
    }
    let w = match bounded_value(s, start, dot, 1_000_000_000_000) {
        Some(w) => w,
        None => {
            return None;
        },
    };
    let flen = s.len() - fstart;
    let take3: usize = if flen < 3 { flen } else { 3 };
    proof {
        assert(fp.take(take3 as int) =~= s@.subrange(fstart as int, fstart + take3));
        assert forall|q: int| 0 <= q < take3 implies is_digit(
            #[trigger] s@.subrange(fstart as int, fstart + take3)[q],
        ) by {
            assert(s@.subrange(fstart as int, fstart + take3)[q] == fp[q]);
        }
    }
    let f3 = thousandths_of(s, fstart, fstart + take3);
    proof {
        if flen > 3 {
            assert(fp[3] == s@[fstart + 3]);
            assert(is_digit(fp[3]));
        }
    }
    let up: u64 = if flen > 3 && s[fstart + 3] as u32 - '0' as u32 >= 5 {
        1
    } else {
        0
    };
    let ghost spec_up: nat = if fp.len() > 3 && digit_value(fp[3]) >= 5 {
        1
    } else {
        0
    };
    proof {
        assert(up == spec_up);
        assert(w == digits_value(ip));
        assert(f3 == digits_value(fp.take(take3 as int)) * pow10((3 - take3) as nat));
    }
    let m = w * 1000 + f3 + up;
    proof {
        lemma_parse_milli_parts(s@, ip, fp);
        assert(fp.take(take3 as int).len() == take3);
    }
    if s.len() > 0 && s[0] == '-' {
        Some(-(m as i64))
    } else {
        Some(m as i64)
    }
}

} // verus!
