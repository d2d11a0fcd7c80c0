//! Fixed-point decimal amounts with nine fractional digits.
//!
//! Prices and quantities are held as an unsigned count of billionths, so
//! decimal arithmetic on them is exact integer arithmetic. Venues hand
//! quantities and prices over as decimal strings; `Fixed::parse` and
//! `Fixed::to_string` convert between the two forms, and both directions
//! carry exact contracts over `dec_value` and `spec_fixed_str`.

use vstd::prelude::*;

verus! {

/// Number of raw units in 1.0.
pub const SCALE: u64 = 1_000_000_000;

/// Largest raw value an amount may hold (one billion whole units).
pub const MAX_RAW: u64 = 1_000_000_000_000_000_000;

/// The character for a single decimal digit.
pub open spec fn digit_char(d: int) -> char {
    if d == 0 {
        '0'
    } else if d == 1 {
        '1'
    } else if d == 2 {
        '2'
    } else if d == 3 {
        '3'
    } else if d == 4 {
        '4'
    } else if d == 5 {
        '5'
    } else if d == 6 {
        '6'
    } else if d == 7 {
        '7'
    } else if d == 8 {
        '8'
    } else {
        '9'
    }
}

/// Decimal digit string of a natural number, most significant digit first.
pub open spec fn dec_digits(n: nat) -> Seq<char>
    decreases n,
{
    if n < 10 {
        seq![digit_char(n as int)]
    } else {
        dec_digits(n / 10).push(digit_char((n % 10) as int))
    }
}

pub open spec fn is_digit(c: char) -> bool {
    '0' <= c && c <= '9'
}

pub open spec fn digit_val(c: char) -> int {
    c as int - '0' as int
}

pub open spec fn all_digits(s: Seq<char>) -> bool {
    forall|i: int| 0 <= i < s.len() ==> is_digit(#[trigger] s[i])
}

/// Value of a digit string read as a decimal integer (empty reads as 0).
pub open spec fn digits_int(s: Seq<char>) -> int
    decreases s.len(),
{
    if s.len() == 0 {
        0
    } else {
        digits_int(s.drop_last()) * 10 + digit_val(s.last())
    }
}

/// Ten to the `n`.
pub open spec fn pow10(n: nat) -> int
    decreases n,
{
    if n == 0 {
        1
    } else {
        10 * pow10((n - 1) as nat)
    }
}

/// A decimal point at index `i` splits `s` into a digit-only integer part
/// and a fractional part of one to nine digits.
pub open spec fn dec_split_ok(s: Seq<char>, i: int) -> bool {
    &&& 0 <= i < s.len()
    &&& s[i] == '.'
    &&& all_digits(s.take(i))
    &&& all_digits(s.skip(i + 1))
    &&& 1 <= s.len() - i - 1 <= 9
    &&& s.len() >= 2
}

/// Raw value carried by a string split at decimal point `i`.
pub open spec fn dec_split_value(s: Seq<char>, i: int) -> int {
    digits_int(s.take(i)) * SCALE + digits_int(s.skip(i + 1)) * pow10(
        (9 - (s.len() - i - 1)) as nat,
    )
}

/// Raw value (billionths) denoted by a decimal string, if it is well formed:
/// digits with at most one point and one to nine fractional digits.
pub open spec fn dec_value(s: Seq<char>) -> Option<int> {
    if s.len() > 0 && all_digits(s) {
        Some(digits_int(s) * SCALE)
    } else if exists|i: int| dec_split_ok(s, i) {
        Some(dec_split_value(s, choose|i: int| dec_split_ok(s, i)))
    } else {
        None
    }
}

/// Strip trailing zero characters.
pub open spec fn trim_zeros(s: Seq<char>) -> Seq<char>
    decreases s.len(),
{
    if s.len() > 0 && s.last() == '0' {
        trim_zeros(s.drop_last())
    } else {
        s
    }
}

/// `n` rendered with leading zeros up to `width` digits.
pub open spec fn padded_digits(n: nat, width: nat) -> Seq<char> {
    Seq::new((width - dec_digits(n).len()) as nat, |i: int| '0') + dec_digits(n)
}

/// Canonical decimal rendering of a raw amount: the whole part, then a
/// point and the fractional digits with trailing zeros removed, if any.
pub open spec fn spec_fixed_str(raw: nat) -> Seq<char> {
    if raw % (SCALE as nat) == 0 {
        dec_digits(raw / (SCALE as nat))
    } else {
        dec_digits(raw / (SCALE as nat)) + seq!['.'] + trim_zeros(
            padded_digits(raw % (SCALE as nat), 9),
        )
    }
}

/// A non-negative decimal amount, stored as `raw` billionths.
#[derive(Clone, Copy, Debug, PartialEq, Eq, Structural)]
pub struct Fixed {
    pub raw: u64,
}

impl Fixed {
    /// An amount is well formed when it stays within the supported range.
    pub open spec fn wf(self) -> bool {
        self.raw <= MAX_RAW
    }

    pub open spec fn spec_zero() -> Fixed {
        Fixed { raw: 0 }
    }

    /// The zero amount.
    pub fn zero() -> (r: Fixed)
        ensures
            r == Self::spec_zero(),
            r.wf(),
    {
        Fixed { raw: 0 }
    }

    /// Build an amount from a raw count of billionths.
    pub fn from_raw(raw: u64) -> (r: Fixed)
        requires
            raw <= MAX_RAW,
        ensures
            r.raw == raw,
            r.wf(),
    {
        Fixed { raw }
    }

    /// Exact sum of two amounts.
    pub fn add(self, other: Fixed) -> (r: Fixed)
        requires
            self.raw + other.raw <= MAX_RAW,
        ensures
            r.raw == self.raw + other.raw,
            r.wf(),
    {
        Fixed { raw: self.raw + other.raw }
    }

    /// Exact difference; the subtrahend may not exceed the minuend.
    pub fn sub(self, other: Fixed) -> (r: Fixed)
        requires
            other.raw <= self.raw,
            self.wf(),
        ensures
            r.raw == self.raw - other.raw,
            r.wf(),
    {
        Fixed { raw: self.raw - other.raw }
    }

    /// Product of two amounts, truncated to nine fractional digits.
    pub fn mul_trunc(self, other: Fixed) -> (r: Fixed)
        requires
            self.wf(),
            other.wf(),
            (self.raw * other.raw) / (SCALE as int) <= MAX_RAW,
        ensures
            r.raw == (self.raw * other.raw) / (SCALE as int),
            r.wf(),
    {
        let wide: u128 = (self.raw as u128) * (other.raw as u128);
        let q: u128 = wide / (SCALE as u128);
        Fixed { raw: q as u64 }
    }
}

} // verus!

verus! {

/// Exec form of `digit_char`.
pub fn digit_to_char(d: u64) -> (c: char)
    requires
        d < 10,
    ensures
        c == digit_char(d as int),
{
    match d {
        0 => '0',
        1 => '1',
        2 => '2',
        3 => '3',
        4 => '4',
        5 => '5',
        6 => '6',
        7 => '7',
        8 => '8',
        _ => '9',
    }
}

/// Append the decimal digits of `n` to `out`.
pub fn push_dec_digits(n: u64, out: &mut String)
    ensures
        final(out)@ == old(out)@ + dec_digits(n as nat),
    decreases n,
{
    let ghost before = out@;
    if n >= 10 {
        push_dec_digits(n / 10, out);
    }
    let c: char = digit_to_char(n % 10);
    out.push(c);
    proof {
        if n < 10 {
            assert(out@ =~= before + dec_digits(n as nat));
        } else {
            assert((before + dec_digits((n / 10) as nat)).push(c) =~= before + dec_digits(
                (n / 10) as nat,
            ).push(c));
        }
    }
}

/// The decimal digits of `n` as a fresh string.
pub fn u64_to_string(n: u64) -> (r: String)
    ensures
        r@ == dec_digits(n as nat),
{
    let mut s = String::new();
    push_dec_digits(n, &mut s);
    proof {
        assert(s@ =~= dec_digits(n as nat));
    }
    s
}

/// A number below `pow10(w)` has at most `w` digits.
proof fn lemma_dec_digits_len(n: nat, w: nat)
    requires
        w >= 1,
        n < pow10(w),
    ensures
        dec_digits(n).len() <= w,
    decreases w,
{
    if n < 10 {
    } else {
        assert(pow10(w) == 10 * pow10((w - 1) as nat));
        assert(n / 10 < pow10((w - 1) as nat)) by (nonlinear_arith)
            requires
                n >= 10,
                n < 10 * pow10((w - 1) as nat),
        ;
        assert(w >= 2) by {
            if w == 1 {
                assert(pow10(1nat) == 10);
            }
        }
        lemma_dec_digits_len(n / 10, (w - 1) as nat);
    }
}

/// Appending a zero digit multiplies the value by ten.
proof fn lemma_dec_digits_times10(n: nat)
    requires
        n >= 1,
    ensures
        dec_digits(n * 10) == dec_digits(n).push('0'),
{
    assert((n * 10) / 10 == n) by (nonlinear_arith);
    assert((n * 10) % 10 == 0) by (nonlinear_arith);
    assert(n * 10 >= 10) by (nonlinear_arith)
        requires
            n >= 1,
    ;
}

/// Trailing zeros do not survive trimming.
proof fn lemma_trim_push0(s: Seq<char>)
    ensures
        trim_zeros(s.push('0')) == trim_zeros(s),
{
    assert(s.push('0').last() == '0');
    assert(s.push('0').drop_last() =~= s);
}

proof fn lemma_trim_no_trailing_zero(s: Seq<char>)
    requires
        s.len() > 0,
        s.last() != '0',
    ensures
        trim_zeros(s) == s,
{
}

} // verus!

verus! {

/// Append `n` zero-padded on the left to `width` digits.
pub fn push_padded_digits(n: u64, width: u64, out: &mut String)
    requires
        dec_digits(n as nat).len() <= width,
    ensures
        final(out)@ == old(out)@ + padded_digits(n as nat, width as nat),
    decreases width,
{
    let ghost before = out@;
    if n < 10 {
        let mut k: u64 = 1;
        while k < width
            invariant
                1 <= k <= width,
                out@ == before + Seq::new((k - 1) as nat, |i: int| '0'),
            decreases width - k,
        {
            out.push('0');
            k = k + 1;
            proof {
                assert(out@ =~= before + Seq::new((k - 1) as nat, |i: int| '0'));
            }
        }
        let c: char = digit_to_char(n);
        out.push(c);
        proof {
            assert(out@ =~= before + padded_digits(n as nat, width as nat));
        }
    } else {
        proof {
            assert(dec_digits(n as nat).len() == dec_digits((n / 10) as nat).len() + 1);
        }
        push_padded_digits(n / 10, width - 1, out);
        let c: char = digit_to_char(n % 10);
        out.push(c);
        proof {
            assert(out@ =~= before + padded_digits(n as nat, width as nat));
        }
    }
}

/// Stripping the factors of ten from a value strips the zero digits of its
/// rendering, once a fixed prefix stands in front.
proof fn lemma_trim_prefixed(c: Seq<char>, f: nat, z: nat)
    requires
        f >= 1,
        f % 10 != 0,
    ensures
        trim_zeros(c + dec_digits((f * pow10(z)) as nat)) == c + dec_digits(f),
        dec_digits((f * pow10(z)) as nat).len() == dec_digits(f).len() + z,
    decreases z,
{
    if z == 0 {
        assert(f * pow10(0) == f) by (nonlinear_arith);
        assert((c + dec_digits(f)).last() == digit_char((f % 10) as int));
        assert(digit_char((f % 10) as int) != '0');
        lemma_trim_no_trailing_zero(c + dec_digits(f));
    } else {
        let m = (f * pow10((z - 1) as nat)) as nat;
        lemma_pow10_pos((z - 1) as nat);
        assert(m >= 1) by (nonlinear_arith)
            requires
                f >= 1,
                pow10((z - 1) as nat) >= 1,
                m == f * pow10((z - 1) as nat),
        ;
        assert(f * pow10(z) == m * 10) by (nonlinear_arith)
            requires
                pow10(z) == 10 * pow10((z - 1) as nat),
                m == f * pow10((z - 1) as nat),
        ;
        lemma_dec_digits_times10(m);
        assert(c + dec_digits(m * 10) =~= (c + dec_digits(m)).push('0'));
        lemma_trim_push0(c + dec_digits(m));
        lemma_trim_prefixed(c, f, (z - 1) as nat);
    }
}

proof fn lemma_pow10_9()
    ensures
        pow10(9nat) == SCALE,
{
    assert(pow10(0nat) == 1);
    assert(pow10(1nat) == 10);
    assert(pow10(2nat) == 100);
    assert(pow10(3nat) == 1000);
    assert(pow10(4nat) == 10000);
    assert(pow10(5nat) == 100000);
    assert(pow10(6nat) == 1000000);
    assert(pow10(7nat) == 10000000);
    assert(pow10(8nat) == 100000000);
    assert(pow10(9nat) == 1000000000);
}

proof fn lemma_pow10_pos(n: nat)
    ensures
        pow10(n) >= 1,
    decreases n,
{
    if n > 0 {
        lemma_pow10_pos((n - 1) as nat);
    }
}

impl Fixed {
    /// Render the amount as a decimal string in canonical form: no trailing
    /// fractional zeros and no decimal point for whole amounts.
    pub fn to_string(self) -> (r: String)
        ensures
            r@ == spec_fixed_str(self.raw as nat),
    {
        let whole: u64 = self.raw / SCALE;
        let frac: u64 = self.raw % SCALE;
        let mut out = String::new();
        push_dec_digits(whole, &mut out);
        if frac == 0 {
            proof {
                assert(out@ =~= spec_fixed_str(self.raw as nat));
            }
            return out;
        }
        out.push('.');
        let ghost with_dot = out@;
        let mut f: u64 = frac;
        let mut z: u64 = 0;
        while f % 10 == 0
            invariant
                1 <= f,
                f as nat * pow10(z as nat) == frac as nat,
                z <= 9,
                frac < SCALE,
                frac >= 1,
            decreases f,
        {
            proof {
                lemma_pow10_pos(z as nat);
                assert((f / 10) as nat * pow10((z + 1) as nat) == f as nat * pow10(z as nat))
                    by (nonlinear_arith)
                    requires
                        f % 10 == 0,
                        f >= 1,
                        pow10((z + 1) as nat) == 10 * pow10(z as nat),
                ;
                assert(z + 1 <= 9) by {
                    if z == 9 {
                        lemma_pow10_9();
                        assert(f as nat * pow10(9nat) >= pow10(9nat)) by (nonlinear_arith)
                            requires
                                f >= 1,
                                pow10(9nat) >= 1,
                        ;
                    }
                }
            }
            f = f / 10;
            z = z + 1;
        }
        proof {
            lemma_trim_prefixed(Seq::<char>::empty(), f as nat, z as nat);
            assert(dec_digits(frac as nat).len() <= 9) by {
                lemma_pow10_9();
                lemma_dec_digits_len(frac as nat, 9nat);
            }
        }
        push_padded_digits(f, 9 - z, &mut out);
        proof {
            // The padded remainder equals the trimmed nine-digit fraction.
            let zeros9 = Seq::new((9 - dec_digits(frac as nat).len()) as nat, |i: int| '0');
            lemma_trim_prefixed(zeros9, f as nat, z as nat);
            assert(zeros9 + dec_digits(frac as nat) =~= padded_digits(frac as nat, 9nat));
            assert(padded_digits(f as nat, (9 - z) as nat) =~= zeros9 + dec_digits(f as nat));
            assert(out@ =~= spec_fixed_str(self.raw as nat));
        }
        out
    }
}

} // verus!

verus! {

/// A digit string is worth at least any of its prefixes, and nothing less
/// than zero.
proof fn lemma_digits_prefix(s: Seq<char>, k: int)
    requires
        all_digits(s),
        0 <= k <= s.len(),
    ensures
        0 <= digits_int(s.take(k)) <= digits_int(s),
    decreases s.len() - k,
{
    if k == s.len() {
        assert(s.take(k) =~= s);
        lemma_digits_nonneg(s);
    } else {
        lemma_digits_prefix(s, k + 1);
        assert(s.take(k + 1).drop_last() =~= s.take(k));
        assert(s.take(k + 1).last() == s[k]);
        lemma_digits_nonneg(s.take(k));
    }
}

proof fn lemma_digits_nonneg(s: Seq<char>)
    requires
        all_digits(s),
    ensures
        digits_int(s) >= 0,
    decreases s.len(),
{
    if s.len() > 0 {
        assert(all_digits(s.drop_last())) by {
            assert(forall|i: int| 0 <= i < s.len() - 1 ==> s.drop_last()[i] == s[i]);
        }
        lemma_digits_nonneg(s.drop_last());
    }
}

/// A string of `n` digits is worth less than ten to the `n`.
proof fn lemma_digits_bound(s: Seq<char>)
    requires
        all_digits(s),
    ensures
        digits_int(s) < pow10(s.len()),
    decreases s.len(),
{
    if s.len() == 0 {
    } else {
        assert(all_digits(s.drop_last())) by {
            assert(forall|i: int| 0 <= i < s.len() - 1 ==> s.drop_last()[i] == s[i]);
        }
        lemma_digits_bound(s.drop_last());
        assert(digits_int(s.drop_last()) * 10 + digit_val(s.last()) < pow10(s.len()))
            by (nonlinear_arith)
            requires
                digits_int(s.drop_last()) < pow10((s.len() - 1) as nat),
                digit_val(s.last()) <= 9,
                pow10(s.len()) == 10 * pow10((s.len() - 1) as nat),
        ;
    }
}

proof fn lemma_pow10_le(a: nat, b: nat)
    requires
        a <= b,
    ensures
        pow10(a) <= pow10(b),
    decreases b,
{
    if a < b {
        lemma_pow10_le(a, (b - 1) as nat);
        lemma_pow10_pos((b - 1) as nat);
    }
}

/// Ten to the `n` for small exponents.
pub fn pow10_u64(n: u64) -> (r: u64)
    requires
        n <= 18,
    ensures
        r == pow10(n as nat),
{
    let mut p: u64 = 1;
    let mut k: u64 = 0;
    while k < n
        invariant
            k <= n <= 18,
            p == pow10(k as nat),
        decreases n - k,
    {
        proof {
            lemma_pow10_le((k + 1) as nat, 18nat);
            lemma_pow10_18();
        }
        p = p * 10;
        k = k + 1;
    }
    p
}

proof fn lemma_pow10_18()
    ensures
        pow10(18nat) == MAX_RAW,
{
    lemma_pow10_9();
    assert(pow10(10nat) == 10 * pow10(9nat));
    assert(pow10(11nat) == 10 * pow10(10nat));
    assert(pow10(12nat) == 10 * pow10(11nat));
    assert(pow10(13nat) == 10 * pow10(12nat));
    assert(pow10(14nat) == 10 * pow10(13nat));
    assert(pow10(15nat) == 10 * pow10(14nat));
    assert(pow10(16nat) == 10 * pow10(15nat));
    assert(pow10(17nat) == 10 * pow10(16nat));
    assert(pow10(18nat) == 10 * pow10(17nat));
}

/// Read the digit span `from .. to` of `s` as an integer, refusing values
/// over `cap`.
pub(crate) fn digits_span_value(s: &str, from: usize, to: usize, cap: u64) -> (r: Option<u64>)
    requires
        from <= to <= s@.len(),
        all_digits(s@.subrange(from as int, to as int)),
    ensures
        (r matches Some(v) ==> digits_int(s@.subrange(from as int, to as int)) == v && v <= cap),
        (r is None ==> digits_int(s@.subrange(from as int, to as int)) > cap),
{
    let ghost whole = s@.subrange(from as int, to as int);
    let mut acc: u64 = 0;
    let mut i: usize = from;
    while i < to
        invariant
            from <= i <= to <= s@.len(),
            all_digits(whole),
            whole == s@.subrange(from as int, to as int),
            acc <= cap,
            acc == digits_int(s@.subrange(from as int, i as int)),
        decreases to - i,
    {
        let c: char = s.get_char(i);
        proof {
            assert(s@[i as int] == whole[i - from]);
            assert(is_digit(whole[i - from]));
        }
        let d: u64 = (c as u8) as u64 - 48;
        let wide: u128 = (acc as u128) * 10 + (d as u128);
        proof {
            assert(s@.subrange(from as int, i + 1).drop_last() =~= s@.subrange(
                from as int,
                i as int,
            ));
            assert(s@.subrange(from as int, i + 1).last() == s@[i as int]);
        }
        if wide > cap as u128 {
            proof {
                lemma_digits_prefix(whole, i + 1 - from);
                assert(whole.take(i + 1 - from) =~= s@.subrange(from as int, i + 1));
            }
            return None;
        }
        acc = wide as u64;
        i = i + 1;
    }
    proof {
        assert(s@.subrange(from as int, to as int) =~= whole);
    }
    Some(acc)
}

impl Fixed {
    /// Parse a decimal string: digits with at most one point and one to nine
    /// fractional digits. Values over the supported range are refused.
    pub fn parse(s: &str) -> (r: Option<Fixed>)
        ensures
            (r matches Some(fx) ==> dec_value(s@) == Some(fx.raw as int) && fx.wf()),
            (r is None ==> dec_value(s@) is None || (dec_value(s@) matches Some(v) && v
                > MAX_RAW)),
    {
        let n: usize = s.unicode_len();
        let mut dot: Option<usize> = None;
        let mut i: usize = 0;
        while i < n
            invariant
                0 <= i <= n == s@.len(),
                match dot {
                    Some(d) => d < i && s@[d as int] == '.' && (forall|k: int|
                        0 <= k < i && k != d ==> is_digit(#[trigger] s@[k])),
                    None => forall|k: int| 0 <= k < i ==> is_digit(#[trigger] s@[k]),
                },
            decreases n - i,
        {
            let c: char = s.get_char(i);
            if c == '.' {
                if dot.is_some() {
                    proof {
                        lemma_no_value_two_dots(s@, dot->Some_0 as int, i as int);
                    }
                    return None;
                }
                dot = Some(i);
            } else if !(c >= '0' && c <= '9') {
                proof {
                    lemma_no_value_bad_char(s@, i as int);
                }
                return None;
            }
            i = i + 1;
        }
        match dot {
            None => {
                if n == 0 {
                    proof {
                        assert(forall|j: int| !dec_split_ok(s@, j));
                    }
                    return None;
                }
                proof {
                    assert(s@.subrange(0, n as int) =~= s@);
                }
                match digits_span_value(s, 0, n, SCALE) {
                    Some(v) => Some(Fixed { raw: v * SCALE }),
                    None => {
                        proof {
                            assert(digits_int(s@) * SCALE > MAX_RAW) by (nonlinear_arith)
                                requires
                                    digits_int(s@) > SCALE,
                            ;
                        }
                        None
                    },
                }
            },
            Some(d) => {
                let fl: usize = n - d - 1;
                proof {
                    assert(all_digits(s@.subrange(0, d as int))) by {
                        assert(forall|k: int|
                            0 <= k < d ==> s@.subrange(0, d as int)[k] == s@[k]);
                    }
                    assert(all_digits(s@.subrange(d + 1, n as int))) by {
                        assert(forall|k: int|
                            0 <= k < n - d - 1 ==> #[trigger] s@.subrange(d + 1, n as int)[k]
                                == s@[k + d + 1]);
                    }
                }
                if fl < 1 || fl > 9 {
                    proof {
                        lemma_no_value_with_dot(s@, d as int);
                    }
                    return None;
                }
                proof {
                    assert(dec_split_ok(s@, d as int));
                    lemma_split_unique(s@, d as int);
                    assert(!(s@.len() > 0 && all_digits(s@))) by {
                        assert(!is_digit(s@[d as int]));
                    }
                }
                let vi = match digits_span_value(s, 0, d, SCALE) {
                    Some(v) => v,
                    None => {
                        proof {
                            lemma_split_over(s@, d as int);
                        }
                        return None;
                    },
                };
                let vf = match digits_span_value(s, d + 1, n, MAX_RAW) {
                    Some(v) => v,
                    None => {
                        proof {
                            lemma_digits_bound(s@.subrange(d + 1, n as int));
                            lemma_pow10_le((n - d - 1) as nat, 9nat);
                            lemma_pow10_9();
                        }
                        return None;
                    },
                };
                proof {
                    lemma_digits_bound(s@.subrange(d + 1, n as int));
                    lemma_pow10_le((n - d - 1) as nat, 9nat);
                    lemma_pow10_le((9 - (n - d - 1)) as nat, 9nat);
                    lemma_pow10_pos((9 - (n - d - 1)) as nat);
                    lemma_pow10_9();
                    assert(pow10((n - d - 1) as nat) * pow10((9 - (n - d - 1)) as nat) == pow10(
                        9nat,
                    )) by {
                        lemma_pow10_add((n - d - 1) as nat, (9 - (n - d - 1)) as nat);
                    }
                    assert(vf * pow10((9 - (n - d - 1)) as nat) < SCALE) by (nonlinear_arith)
                        requires
                            vf < pow10((n - d - 1) as nat),
                            pow10((n - d - 1) as nat) * pow10((9 - (n - d - 1)) as nat) <= (
                            SCALE as int),
                            pow10((9 - (n - d - 1)) as nat) >= 1,
                            vf >= 0,
                    ;
                }
                let scaled_frac: u64 = vf * pow10_u64(9 - (fl as u64));
                let whole_raw: u64 = vi * SCALE;
                if whole_raw > MAX_RAW - scaled_frac {
                    proof {
                        lemma_digits_nonneg(s@.subrange(0, d as int));
                        lemma_digits_nonneg(s@.subrange(d + 1, n as int));
                    }
                    return None;
                }
                Some(Fixed { raw: whole_raw + scaled_frac })
            },
        }
    }
}

proof fn lemma_pow10_add(a: nat, b: nat)
    ensures
        pow10(a) * pow10(b) == pow10((a + b) as nat),
    decreases a,
{
    if a == 0 {
        assert(pow10(0nat) * pow10(b) == pow10(b)) by (nonlinear_arith)
            requires
                pow10(0nat) == 1,
        ;
    } else {
        lemma_pow10_add((a - 1) as nat, b);
        assert(pow10(a) * pow10(b) == 10 * (pow10((a - 1) as nat) * pow10(b)))
            by (nonlinear_arith)
            requires
                pow10(a) == 10 * pow10((a - 1) as nat),
        ;
    }
}

/// With two dots in the string no reading as a decimal exists.
proof fn lemma_no_value_two_dots(s: Seq<char>, d1: int, d2: int)
    requires
        0 <= d1 < d2 < s.len(),
        s[d1] == '.',
        s[d2] == '.',
    ensures
        dec_value(s) is None,
{
    assert(!is_digit(s[d1]));
    assert(forall|j: int| !dec_split_ok(s, j)) by {
        assert forall|j: int| !dec_split_ok(s, j) by {
            if 0 <= j < s.len() && s[j] == '.' {
                if j > d1 {
                    assert(s.take(j)[d1] == '.');
                    assert(!is_digit(s.take(j)[d1]));
                } else {
                    assert(s.skip(j + 1)[d2 - j - 1] == '.');
                    assert(!is_digit(s.skip(j + 1)[d2 - j - 1]));
                }
            }
        }
    }
}

/// With a character that is neither digit nor dot no reading exists.
proof fn lemma_no_value_bad_char(s: Seq<char>, b: int)
    requires
        0 <= b < s.len(),
        !is_digit(s[b]),
        s[b] != '.',
    ensures
        dec_value(s) is None,
{
    assert(forall|j: int| !dec_split_ok(s, j)) by {
        assert forall|j: int| !dec_split_ok(s, j) by {
            if 0 <= j < s.len() && s[j] == '.' {
                if b < j {
                    assert(s.take(j)[b] == s[b]);
                    assert(!is_digit(s.take(j)[b]));
                } else {
                    assert(b > j);
                    assert(s.skip(j + 1)[b - j - 1] == s[b]);
                    assert(!is_digit(s.skip(j + 1)[b - j - 1]));
                }
            }
        }
    }
}

/// A single dot with no or too many fractional digits admits no reading.
proof fn lemma_no_value_with_dot(s: Seq<char>, d: int)
    requires
        0 <= d < s.len(),
        s[d] == '.',
        forall|k: int| 0 <= k < s.len() && k != d ==> is_digit(#[trigger] s[k]),
        s.len() - d - 1 < 1 || s.len() - d - 1 > 9,
    ensures
        dec_value(s) is None,
{
    assert(!is_digit(s[d]));
    assert(forall|j: int| !dec_split_ok(s, j)) by {
        assert forall|j: int| !dec_split_ok(s, j) by {
            if 0 <= j < s.len() && s[j] == '.' {
                assert(j == d);
            }
        }
    }
}

/// Only the actual dot index can satisfy the split shape.
proof fn lemma_split_unique(s: Seq<char>, d: int)
    requires
        dec_split_ok(s, d),
        forall|k: int| 0 <= k < s.len() && k != d ==> is_digit(#[trigger] s[k]),
    ensures
        dec_value(s) == Some(dec_split_value(s, d)),
{
    assert(!is_digit(s[d]));
    assert(!(s.len() > 0 && all_digits(s)));
    let j = choose|j: int| dec_split_ok(s, j);
    assert(dec_split_ok(s, j));
    assert(j == d) by {
        if j != d {
            assert(is_digit(s[j]));
        }
    }
}

/// An integer part beyond one billion puts the value over the range.
proof fn lemma_split_over(s: Seq<char>, d: int)
    requires
        dec_split_ok(s, d),
        forall|k: int| 0 <= k < s.len() && k != d ==> is_digit(#[trigger] s[k]),
        digits_int(s.take(d)) > SCALE,
    ensures
        dec_value(s) matches Some(v) && v > MAX_RAW,
{
    lemma_split_unique(s, d);
    lemma_digits_nonneg(s.skip(d + 1));
    lemma_pow10_pos((9 - (s.len() - d - 1)) as nat);
    assert(digits_int(s.take(d)) * SCALE > MAX_RAW) by (nonlinear_arith)
        requires
            digits_int(s.take(d)) > SCALE,
    ;
    assert(digits_int(s.skip(d + 1)) * pow10((9 - (s.len() - d - 1)) as nat) >= 0)
        by (nonlinear_arith)
        requires
            digits_int(s.skip(d + 1)) >= 0,
            pow10((9 - (s.len() - d - 1)) as nat) >= 1,
    ;
}

} // verus!
