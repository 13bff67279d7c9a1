//! Exact decimal numbers.
//!
//! The wire format carries prices, amounts and timestamps as JSON numbers;
//! this crate models every such number as a signed decimal `mag / 10^scale`
//! so that decoding logic can be stated and proved over plain integers.

use vstd::prelude::*;

verus! {

/// Powers of ten, the base of the wire's decimal notation.
pub open spec fn pow10(e: nat) -> nat
    decreases e,
{
    if e == 0 {
        1
    } else {
        10 * pow10((e - 1) as nat)
    }
}

pub proof fn lemma_pow10_pos(e: nat)
    ensures
        pow10(e) >= 1,
    decreases e,
{
    if e > 0 {
        lemma_pow10_pos((e - 1) as nat);
    }
}

pub proof fn lemma_pow10_mono(a: nat, b: nat)
    requires
        a <= b,
    ensures
        pow10(a) <= pow10(b),
    decreases b,
{
    if a < b {
        lemma_pow10_mono(a, (b - 1) as nat);
        lemma_pow10_pos((b - 1) as nat);
    }
}

pub proof fn lemma_pow10_add(x: nat, y: nat)
    ensures
        pow10(x + y) == pow10(x) * pow10(y),
    decreases x,
{
    if x == 0 {
        assert(1 * pow10(y) == pow10(y)) by (nonlinear_arith);
    } else {
        lemma_pow10_add((x - 1) as nat, y);
        assert((x - 1) + y == (x + y) - 1);
        assert(10 * (pow10((x - 1) as nat) * pow10(y)) == (10 * pow10((x - 1) as nat)) * pow10(y))
            by (nonlinear_arith);
    }
}

/// The digit value left after stripping trailing fractional zeros from a
/// written decimal with digits `m` and `sc` fraction digits.
pub open spec fn canon_mag(m: nat, sc: nat) -> nat
    decreases sc,
{
    if m == 0 {
        0
    } else if sc > 0 && m % 10 == 0 {
        canon_mag(m / 10, (sc - 1) as nat)
    } else {
        m
    }
}

/// The fraction length left after stripping trailing fractional zeros.
pub open spec fn canon_scale(m: nat, sc: nat) -> nat
    decreases sc,
{
    if m == 0 {
        0
    } else if sc > 0 && m % 10 == 0 {
        canon_scale(m / 10, (sc - 1) as nat)
    } else {
        sc
    }
}

/// A JSON number, modeled exactly: the value is `mag / 10^scale`, negated
/// when `neg` is set. Values are kept canonical (`wf`), so structural
/// equality coincides with numeric equality.
#[derive(Clone, Copy, Debug, PartialEq, Eq, Structural)]
pub struct Number {
    pub neg: bool,
    pub mag: u64,
    pub scale: u32,
}

impl Number {
    /// Canonical form: no trailing fractional zeros, and zero itself is
    /// unsigned with scale 0.
    pub open spec fn wf(self) -> bool {
        &&& (self.mag == 0 ==> !self.neg && self.scale == 0)
        &&& (self.scale > 0 ==> self.mag % 10 != 0)
    }

    /// The number `(-1)^neg * mag / 10^scale`, brought to canonical form.
    pub fn new(neg: bool, mag: u64, scale: u32) -> (r: Number)
        ensures
            r.wf(),
            r.scale <= scale,
            mag as nat == r.mag as nat * pow10((scale - r.scale) as nat),
            r.neg == (neg && mag != 0),
            r.mag as nat == canon_mag(mag as nat, scale as nat),
            r.scale as nat == canon_scale(mag as nat, scale as nat),
    {
        if mag == 0 {
            proof {
                lemma_pow10_pos(scale as nat);
                assert(0 as nat * pow10(scale as nat) == 0) by (nonlinear_arith);
            }
            return Number { neg: false, mag: 0, scale: 0 };
        }
        let mut m: u64 = mag;
        let mut s: u32 = scale;
        proof {
            assert((scale - scale) as nat == 0);
            assert(pow10(0) == 1);
            assert(mag as nat * 1 == mag as nat) by (nonlinear_arith);
        }
        while s > 0 && m % 10 == 0
            invariant
                s <= scale,
                mag as nat == m as nat * pow10((scale - s) as nat),
                canon_mag(m as nat, s as nat) == canon_mag(mag as nat, scale as nat),
                canon_scale(m as nat, s as nat) == canon_scale(mag as nat, scale as nat),
            decreases s,
        {
            proof {
                let p = pow10((scale - s) as nat);
                assert((m / 10) as nat * (10 * p) == ((m / 10) as nat * 10) * p)
                    by (nonlinear_arith);
                assert((m / 10) * 10 == m) by (nonlinear_arith)
                    requires
                        m % 10 == 0,
                ;
            }
            m = m / 10;
            s = s - 1;
        }
        proof {
            if m != 0 {
                let p = pow10((scale - s) as nat);
                lemma_pow10_pos((scale - s) as nat);
                assert(m as nat * p >= 1) by (nonlinear_arith)
                    requires
                        m as nat >= 1,
                        p >= 1,
                ;
            }
        }
        Number { neg: neg && m != 0, mag: m, scale: s }
    }

    /// Zero.
    pub fn zero() -> (r: Number)
        ensures
            r.wf(),
            r.mag == 0,
            !r.neg,
            r.scale == 0,
    {
        Number { neg: false, mag: 0, scale: 0 }
    }

    /// A whole unsigned number.
    pub fn from_u64(v: u64) -> (r: Number)
        ensures
            r.wf(),
            r == (Number { neg: false, mag: v, scale: 0 }),
    {
        Number { neg: false, mag: v, scale: 0 }
    }

    /// Whether the number is a whole unsigned integer (and then `mag` is its
    /// value).
    pub open spec fn is_uint(self) -> bool {
        !self.neg && self.scale == 0
    }

    /// The value as a `u64`, exactly when the number is a whole unsigned
    /// integer.
    pub fn as_u64(&self) -> (r: Option<u64>)
        ensures
            r == if self.is_uint() {
                Some(self.mag)
            } else {
                None::<u64>
            },
    {
        if !self.neg && self.scale == 0 {
            Some(self.mag)
        } else {
            None
        }
    }

    /// Whether the number is a whole signed integer that fits `i64`.
    pub open spec fn spec_is_i64(self) -> bool {
        &&& self.scale == 0
        &&& if self.neg {
            self.mag <= 0x8000_0000_0000_0000u64
        } else {
            self.mag <= 0x7fff_ffff_ffff_ffffu64
        }
    }

    pub fn is_i64(&self) -> (r: bool)
        ensures
            r == self.spec_is_i64(),
    {
        self.scale == 0 && (if self.neg {
            self.mag <= 0x8000_0000_0000_0000u64
        } else {
            self.mag <= 0x7fff_ffff_ffff_ffffu64
        })
    }

    /// What rounding to a whole number yields, as the wire's consumers do it:
    /// half rounds away from zero, and negative values are clamped to zero.
    pub open spec fn spec_round_u64(self) -> nat {
        if self.neg {
            0
        } else {
            (self.mag as nat + pow10(self.scale as nat) / 2) / pow10(self.scale as nat)
        }
    }

    /// Round to the nearest whole number, half away from zero, clamping
    /// negative values to zero.
    pub fn round_u64(&self) -> (r: u64)
        ensures
            r as nat == self.spec_round_u64(),
    {
        if self.neg {
            0
        } else if self.scale == 0 {
            proof {
                assert(pow10(0) == 1);
                assert((self.mag as nat + 0) / 1 == self.mag as nat) by (nonlinear_arith);
            }
            self.mag
        } else if self.scale >= 20 {
            proof {
                let p = pow10(self.scale as nat);
                lemma_pow10_mono(20, self.scale as nat);
                reveal_with_fuel(pow10, 21);
                assert(pow10(20) == 100_000_000_000_000_000_000);
                vstd::arithmetic::div_mod::lemma_fundamental_div_mod(p as int, 2);
                vstd::arithmetic::div_mod::lemma_div_is_ordered(
                    100_000_000_000_000_000_000,
                    p as int,
                    2,
                );
                assert(self.mag as nat + p / 2 < p);
                vstd::arithmetic::div_mod::lemma_basic_div(
                    (self.mag as nat + p / 2) as int,
                    p as int,
                );
            }
            0
        } else {
            let p = pow10_u64(self.scale);
            let q = self.mag / p;
            let rem = self.mag % p;
            let up = (rem as u128) * 2 >= (p as u128);
            proof {
                let magn = self.mag as nat;
                let pn = p as nat;
                let e1 = (self.scale - 1) as nat;
                lemma_pow10_pos(e1);
                assert(pow10(self.scale as nat) == 10 * pow10(e1));
                // p is even for scale >= 1, so p / 2 is exact
                assert(pn % 2 == 0 && pn >= 10) by (nonlinear_arith)
                    requires
                        pn == 10 * pow10(e1),
                        pow10(e1) >= 1,
                ;
                vstd::arithmetic::div_mod::lemma_fundamental_div_mod(magn as int, pn as int);
                assert((magn + pn / 2) / pn == q as nat + (rem as nat + pn / 2) / pn)
                    by (nonlinear_arith)
                    requires
                        magn == pn * (q as nat) + rem as nat,
                        pn >= 1,
                        (rem as nat) < pn,
                ;
                assert((rem as nat + pn / 2) / pn == if 2 * rem as nat >= pn {
                    1nat
                } else {
                    0nat
                }) by (nonlinear_arith)
                    requires
                        (rem as nat) < pn,
                        pn % 2 == 0,
                        pn >= 2,
                ;
                vstd::arithmetic::div_mod::lemma_div_is_ordered_by_denominator(
                    magn as int,
                    10,
                    pn as int,
                );
            }
            if up {
                q + 1
            } else {
                q
            }
        }
    }
}

/// `10^e` as a machine integer; the largest power of ten below `u64::MAX`
/// is `10^19`.
pub fn pow10_u64(e: u32) -> (r: u64)
    requires
        e <= 19,
    ensures
        r as nat == pow10(e as nat),
        r >= 1,
{
    proof {
        reveal_with_fuel(pow10, 20);
        assert(pow10(19) == 10_000_000_000_000_000_000);
        lemma_pow10_pos(e as nat);
    }
    let mut r: u64 = 1;
    let mut i: u32 = 0;
    while i < e
        invariant
            i <= e,
            e <= 19,
            r as nat == pow10(i as nat),
            pow10(19) == 10_000_000_000_000_000_000,
        decreases e - i,
    {
        proof {
            lemma_pow10_mono((i + 1) as nat, 19);
        }
        r = r * 10;
        i = i + 1;
    }
    r
}

proof fn lemma_canonical_unique_ordered(a: Number, b: Number)
    requires
        a.wf(),
        b.wf(),
        a.neg == b.neg,
        a.scale <= b.scale,
        a.mag as nat * pow10(b.scale as nat) == b.mag as nat * pow10(a.scale as nat),
    ensures
        a == b,
{
    let pa = pow10(a.scale as nat);
    let pb = pow10(b.scale as nat);
    lemma_pow10_pos(a.scale as nat);
    lemma_pow10_pos(b.scale as nat);
    if a.mag == 0 {
        assert(0 * pb == 0) by (nonlinear_arith);
        assert(b.mag == 0) by (nonlinear_arith)
            requires
                b.mag as nat * pa == 0,
                pa >= 1,
        ;
    } else if b.mag == 0 {
        assert(0 * pa == 0) by (nonlinear_arith);
        assert(a.mag == 0) by (nonlinear_arith)
            requires
                a.mag as nat * pb == 0,
                pb >= 1,
        ;
    } else {
        let d = (b.scale - a.scale) as nat;
        lemma_pow10_add(a.scale as nat, d);
        let pd = pow10(d);
        assert(a.mag as nat * (pa * pd) == (a.mag as nat * pd) * pa) by (nonlinear_arith);
        assert(a.mag as nat * pd == b.mag as nat) by (nonlinear_arith)
            requires
                (a.mag as nat * pd) * pa == b.mag as nat * pa,
                pa >= 1,
        ;
        if d == 0 {
            assert(pd == 1);
            assert(a.mag as nat * 1 == a.mag as nat) by (nonlinear_arith);
            assert(a.mag == b.mag && a.scale == b.scale);
        } else {
            lemma_pow10_pos((d - 1) as nat);
            assert(pd == 10 * pow10((d - 1) as nat));
            let k = a.mag as nat * pow10((d - 1) as nat);
            assert(a.mag as nat * pd == k * 10) by (nonlinear_arith)
                requires
                    pd == 10 * pow10((d - 1) as nat),
                    k == a.mag as nat * pow10((d - 1) as nat),
            ;
            vstd::arithmetic::div_mod::lemma_mod_multiples_basic(k as int, 10);
            assert(b.mag as nat % 10 == 0);
        }
    }
}

/// Canonical form is unique: two well-formed numbers with the same sign
/// that write the same value — their digit values agree once both are scaled
/// to a common fraction length — are one and the same, so `==` on `Number`
/// coincides with numeric equality.
pub proof fn lemma_canonical_unique(a: Number, b: Number)
    requires
        a.wf(),
        b.wf(),
        a.neg == b.neg,
        a.mag as nat * pow10(b.scale as nat) == b.mag as nat * pow10(a.scale as nat),
    ensures
        a == b,
{
    if a.scale <= b.scale {
        lemma_canonical_unique_ordered(a, b);
    } else {
        lemma_canonical_unique_ordered(b, a);
    }
}

/// The character for one decimal digit.
pub open spec fn dec_digit(d: nat) -> char {
    if d == 0 {
        '0'
    } else if d == 1 {
        '1'
    } else if d == 2 {
        '2'
    } else if d == 3 {
        '3'
    } else if d == 4 {
        '4'
    } else if d == 5 {
        '5'
    } else if d == 6 {
        '6'
    } else if d == 7 {
        '7'
    } else if d == 8 {
        '8'
    } else {
        '9'
    }
}

/// The decimal notation of a whole number, most significant digit first,
/// without leading zeros (zero itself is "0").
pub open spec fn dec_chars(n: nat) -> Seq<char>
    decreases n,
{
    if n < 10 {
        seq![dec_digit(n)]
    } else {
        dec_chars(n / 10) + seq![dec_digit(n % 10)]
    }
}

pub open spec fn is_dec_digit(c: char) -> bool {
    '0' <= c && c <= '9'
}

pub open spec fn digit_of(c: char) -> nat {
    ((c as u32) - ('0' as u32)) as nat
}

pub open spec fn all_dec_digits(s: Seq<char>) -> bool {
    forall|i: int| 0 <= i < s.len() ==> is_dec_digit(#[trigger] s[i])
}

/// The whole number that a digit string denotes.
pub open spec fn digits_val(s: Seq<char>) -> nat
    decreases s.len(),
{
    if s.len() == 0 {
        0
    } else {
        digits_val(s.drop_last()) * 10 + digit_of(s.last())
    }
}

pub proof fn lemma_dec_chars_digits(n: nat)
    ensures
        dec_chars(n).len() >= 1,
        n >= 10 ==> dec_chars(n).len() >= 2,
        all_dec_digits(dec_chars(n)),
        digits_val(dec_chars(n)) == n,
    decreases n,
{
    if n < 10 {
        let s = dec_chars(n);
        assert(s.drop_last() =~= Seq::<char>::empty());
        assert(digits_val(s) == digits_val(s.drop_last()) * 10 + digit_of(s.last()));
    } else {
        lemma_dec_chars_digits(n / 10);
        let p = dec_chars(n / 10);
        let s = dec_chars(n);
        assert(s.drop_last() =~= p);
        assert(s.last() == dec_digit(n % 10));
        vstd::arithmetic::div_mod::lemma_fundamental_div_mod(n as int, 10);
    }
}

pub proof fn lemma_dec_digit_injective(a: nat, b: nat)
    requires
        a < 10,
        b < 10,
        dec_digit(a) == dec_digit(b),
    ensures
        a == b,
{
}

/// Distinct whole numbers are written as distinct digit strings: the nonce
/// generator leans on this to turn a strictly increasing counter into
/// pairwise distinct nonce strings.
pub proof fn lemma_dec_chars_injective(a: nat, b: nat)
    requires
        dec_chars(a) == dec_chars(b),
    ensures
        a == b,
    decreases a,
{
    lemma_dec_chars_digits(a);
    lemma_dec_chars_digits(b);
    if a < 10 && b < 10 {
        assert(dec_chars(a)[0] == dec_chars(b)[0]);
        lemma_dec_digit_injective(a, b);
    } else if a < 10 {
        assert(dec_chars(a).len() == 1);
    } else if b < 10 {
        assert(dec_chars(b).len() == 1);
    } else {
        let pa = dec_chars(a / 10);
        let pb = dec_chars(b / 10);
        assert(dec_chars(a).last() == dec_digit(a % 10));
        assert(dec_chars(b).last() == dec_digit(b % 10));
        lemma_dec_digit_injective(a % 10, b % 10);
        assert(dec_chars(a).drop_last() =~= pa);
        assert(dec_chars(b).drop_last() =~= pb);
        lemma_dec_chars_injective(a / 10, b / 10);
        vstd::arithmetic::div_mod::lemma_fundamental_div_mod(a as int, 10);
        vstd::arithmetic::div_mod::lemma_fundamental_div_mod(b as int, 10);
    }
}

/// The one-character string for a decimal digit.
pub fn digit_str(d: u8) -> (r: &'static str)
    requires
        d < 10,
    ensures
        r@ =~= seq![dec_digit(d as nat)],
{
    proof {
        reveal_strlit("0");
        reveal_strlit("1");
        reveal_strlit("2");
        reveal_strlit("3");
        reveal_strlit("4");
        reveal_strlit("5");
        reveal_strlit("6");
        reveal_strlit("7");
        reveal_strlit("8");
        reveal_strlit("9");
    }
    if d == 0 {
        "0"
    } else if d == 1 {
        "1"
    } else if d == 2 {
        "2"
    } else if d == 3 {
        "3"
    } else if d == 4 {
        "4"
    } else if d == 5 {
        "5"
    } else if d == 6 {
        "6"
    } else if d == 7 {
        "7"
    } else if d == 8 {
        "8"
    } else {
        "9"
    }
}

/// A whole number written in decimal.
pub fn u128_to_decimal(n: u128) -> (s: String)
    ensures
        s@ == dec_chars(n as nat),
    decreases n,
{
    if n < 10 {
        let s = digit_str(n as u8).to_owned();
        proof {
            assert(s@ =~= dec_chars(n as nat));
        }
        s
    } else {
        let mut s = u128_to_decimal(n / 10);
        s.append(digit_str((n % 10) as u8));
        proof {
            assert(s@ =~= dec_chars(n as nat));
        }
        s
    }
}

/// The decimal notation of a signed whole number: a minus sign for negative
/// values, then the digits.
pub open spec fn dec_chars_i64(n: int) -> Seq<char> {
    if n < 0 {
        seq!['-'] + dec_chars((-n) as nat)
    } else {
        dec_chars(n as nat)
    }
}

/// A signed whole number written in decimal.
pub fn i64_to_decimal(n: i64) -> (s: String)
    ensures
        s@ == dec_chars_i64(n as int),
{
    if n >= 0 {
        u128_to_decimal(n as u128)
    } else {
        let wide: i128 = n as i128;
        let mag: u128 = (-wide) as u128;
        let mut s = "-".to_owned();
        s.append(u128_to_decimal(mag).as_str());
        proof {
            reveal_strlit("-");
            assert(s@ =~= dec_chars_i64(n as int));
        }
        s
    }
}

/// `i` splits `s` into at least one integer digit, a dot, and at least one
/// fraction digit.
pub open spec fn dot_at(s: Seq<char>, i: int) -> bool {
    &&& 1 <= i
    &&& i + 2 <= s.len()
    &&& s[i] == '.'
    &&& all_dec_digits(s.take(i))
    &&& all_dec_digits(s.skip(i + 1))
}

/// The shape of an unsigned decimal on the wire: digits, optionally with one
/// dot strictly inside them.
pub open spec fn valid_unsigned_decimal(s: Seq<char>) -> bool {
    ||| (s.len() >= 1 && all_dec_digits(s))
    ||| (exists|i: int| dot_at(s, i))
}

/// The digits of an unsigned decimal with the dot removed.
pub open spec fn unsigned_digits(s: Seq<char>) -> Seq<char> {
    if all_dec_digits(s) {
        s
    } else {
        let i = choose|i: int| dot_at(s, i);
        s.take(i) + s.skip(i + 1)
    }
}

/// How many fraction digits an unsigned decimal has.
pub open spec fn unsigned_scale(s: Seq<char>) -> nat {
    if all_dec_digits(s) {
        0
    } else {
        let i = choose|i: int| dot_at(s, i);
        (s.len() - i - 1) as nat
    }
}

/// The body of a decimal string, after any leading minus sign.
pub open spec fn decimal_body(s: Seq<char>) -> Seq<char> {
    if s.len() >= 1 && s[0] == '-' {
        s.skip(1)
    } else {
        s
    }
}

pub open spec fn decimal_neg(s: Seq<char>) -> bool {
    s.len() >= 1 && s[0] == '-'
}

/// Whether `s` is a decimal numeral: an optional minus sign, digits, and
/// optionally one dot strictly inside the digits.
pub open spec fn decimal_valid(s: Seq<char>) -> bool {
    valid_unsigned_decimal(decimal_body(s))
}

/// The value of the written digits, dot removed.
pub open spec fn decimal_mant(s: Seq<char>) -> nat {
    digits_val(unsigned_digits(decimal_body(s)))
}

/// How many of the written digits are fraction digits.
pub open spec fn decimal_scale(s: Seq<char>) -> nat {
    unsigned_scale(decimal_body(s))
}

pub proof fn lemma_dot_unique(s: Seq<char>, i: int, j: int)
    requires
        dot_at(s, i),
        dot_at(s, j),
    ensures
        i == j,
{
    if i < j {
        assert(s.skip(i + 1)[j - i - 1] == s[j]);
    } else if j < i {
        assert(s.skip(j + 1)[i - j - 1] == s[i]);
    }
}

proof fn lemma_invalid_char(t: Seq<char>, k: int)
    requires
        0 <= k < t.len(),
        !is_dec_digit(t[k]),
        t[k] != '.',
    ensures
        !valid_unsigned_decimal(t),
{
    assert forall|j: int| !dot_at(t, j) by {
        if dot_at(t, j) {
            if k < j {
                assert(t.take(j)[k] == t[k]);
            } else if k > j {
                assert(t.skip(j + 1)[k - j - 1] == t[k]);
            }
        }
    }
}

proof fn lemma_invalid_two_dots(t: Seq<char>, k1: int, k2: int)
    requires
        0 <= k1 < k2 < t.len(),
        t[k1] == '.',
        t[k2] == '.',
    ensures
        !valid_unsigned_decimal(t),
{
    assert(!is_dec_digit('.'));
    assert forall|j: int| !dot_at(t, j) by {
        if dot_at(t, j) {
            if k1 < j {
                assert(t.take(j)[k1] == t[k1]);
            } else {
                assert(t.skip(j + 1)[k2 - j - 1] == t[k2]);
            }
        }
    }
}

proof fn lemma_invalid_leading_dot(t: Seq<char>)
    requires
        t.len() >= 1,
        t[0] == '.',
    ensures
        !valid_unsigned_decimal(t),
{
    assert(!is_dec_digit('.'));
    assert forall|j: int| !dot_at(t, j) by {
        if dot_at(t, j) {
            assert(t.take(j)[0] == t[0]);
        }
    }
}

proof fn lemma_invalid_trailing_dot(t: Seq<char>, k: int)
    requires
        0 <= k < t.len(),
        k == t.len() - 1,
        t[k] == '.',
    ensures
        !valid_unsigned_decimal(t),
{
    assert(!is_dec_digit('.'));
    assert forall|j: int| !dot_at(t, j) by {
        if dot_at(t, j) {
            if j < k {
                assert(t.skip(j + 1)[k - j - 1] == t[k]);
            }
        }
    }
}

proof fn lemma_valid_with_dot(t: Seq<char>, k: int)
    requires
        1 <= k,
        k + 2 <= t.len(),
        t[k] == '.',
        all_dec_digits(t.take(k)),
        all_dec_digits(t.skip(k + 1)),
    ensures
        valid_unsigned_decimal(t),
        unsigned_digits(t) == t.take(k) + t.skip(k + 1),
        unsigned_scale(t) == t.len() - k - 1,
{
    assert(dot_at(t, k));
    assert(!is_dec_digit('.'));
    assert(!all_dec_digits(t)) by {
        assert(!is_dec_digit(t[k]));
    }
    let j = choose|j: int| dot_at(t, j);
    lemma_dot_unique(t, j, k);
}

/// Extending a digit string multiplies its value up and adds the new digits.
pub proof fn lemma_digits_val_append(a: Seq<char>, b: Seq<char>)
    ensures
        digits_val(a + b) == digits_val(a) * pow10(b.len()) + digits_val(b),
    decreases b.len(),
{
    if b.len() == 0 {
        assert(a + b =~= a);
        assert(digits_val(a) * 1 == digits_val(a)) by (nonlinear_arith);
    } else {
        lemma_digits_val_append(a, b.drop_last());
        assert((a + b).drop_last() =~= a + b.drop_last());
        assert((a + b).last() == b.last());
        let x = digits_val(a);
        let p = pow10((b.len() - 1) as nat);
        let y = digits_val(b.drop_last());
        assert((x * p + y) * 10 + digit_of(b.last()) == x * (10 * p) + (y * 10 + digit_of(
            b.last(),
        ))) by (nonlinear_arith);
    }
}

pub proof fn lemma_digits_val_prefix(s: Seq<char>, k: int)
    requires
        0 <= k <= s.len(),
    ensures
        digits_val(s) >= digits_val(s.take(k)),
{
    assert(s =~= s.take(k) + s.skip(k));
    lemma_digits_val_append(s.take(k), s.skip(k));
    lemma_pow10_pos((s.len() - k) as nat);
    let x = digits_val(s.take(k));
    let p = pow10((s.len() - k) as nat);
    assert(x * p >= x * 1) by (nonlinear_arith)
        requires
            p >= 1,
    ;
    assert(x * 1 == x) by (nonlinear_arith);
}

/// Parse a decimal numeral. Succeeds exactly on well-shaped numerals whose
/// written digits fit in `u64` and whose fraction length fits in `u32`;
/// the result is the canonical `Number` with the written value.
pub fn parse_decimal(s: &str) -> (r: Option<Number>)
    ensures
        match r {
            Some(n) => {
                &&& decimal_valid(s@)
                &&& decimal_mant(s@) <= u64::MAX as nat
                &&& decimal_scale(s@) <= u32::MAX as nat
                &&& n.wf()
                &&& n.scale as nat <= decimal_scale(s@)
                &&& decimal_mant(s@) == n.mag as nat * pow10(
                    (decimal_scale(s@) - n.scale as nat) as nat,
                )
                &&& n.neg == (decimal_neg(s@) && decimal_mant(s@) != 0)
                &&& n.mag as nat == canon_mag(decimal_mant(s@), decimal_scale(s@))
                &&& n.scale as nat == canon_scale(decimal_mant(s@), decimal_scale(s@))
            },
            None => {
                ||| !decimal_valid(s@)
                ||| decimal_mant(s@) > u64::MAX as nat
                ||| decimal_scale(s@) > u32::MAX as nat
            },
        },
{
    let len = s.unicode_len();
    if len == 0 {
        return None;
    }
    let neg = s.get_char(0) == '-';
    let start: usize = if neg { 1 } else { 0 };
    let ghost t = decimal_body(s@);
    proof {
        if neg {
            assert(t =~= s@.skip(1));
        } else {
            assert(t =~= s@);
        }
    }
    if start == len {
        // a bare minus sign: the body is empty
        return None;
    }
    // first pass: check the shape and find the dot
    let mut dot: Option<usize> = None;
    let mut i: usize = start;
    while i < len
        invariant
            s@.len() == len,
            start <= i <= len,
            start <= 1,
            start < len,
            t == decimal_body(s@),
            t.len() == len - start,
            forall|k: int| 0 <= k < t.len() ==> t[k] == s@[k + start],
            match dot {
                Option::None => all_dec_digits(s@.subrange(start as int, i as int)),
                Option::Some(d) => {
                    &&& start < d < i
                    &&& s@[d as int] == '.'
                    &&& all_dec_digits(s@.subrange(start as int, d as int))
                    &&& all_dec_digits(s@.subrange(d + 1, i as int))
                },
            },
        decreases len - i,
    {
        let c = s.get_char(i);
        if c == '.' {
            match dot {
                Option::Some(d) => {
                    proof {
                        lemma_invalid_two_dots(t, d - start, i - start);
                    }
                    return None;
                },
                Option::None => {
                    if i == start {
                        proof {
                            lemma_invalid_leading_dot(t);
                        }
                        return None;
                    }
                    dot = Some(i);
                },
            }
        } else if '0' <= c && c <= '9' {
            proof {
                match dot {
                    Option::None => {
                        assert(s@.subrange(start as int, i + 1).drop_last() =~= s@.subrange(
                            start as int,
                            i as int,
                        ));
                    },
                    Option::Some(d) => {
                        assert(s@.subrange(d + 1, i + 1).drop_last() =~= s@.subrange(
                            d + 1,
                            i as int,
                        ));
                    },
                }
            }
        } else {
            proof {
                lemma_invalid_char(t, i - start);
            }
            return None;
        }
        i = i + 1;
    }
    // resolve the shape
    let dot_pos: usize = match dot {
        Option::None => len,
        Option::Some(d) => {
            if d == len - 1 {
                proof {
                    lemma_invalid_trailing_dot(t, d - start);
                }
                return None;
            }
            d
        },
    };
    let ghost digits: Seq<char> = if dot_pos < len {
        t.take(dot_pos - start) + t.skip(dot_pos - start + 1)
    } else {
        t
    };
    proof {
        if dot_pos < len {
            assert(t.take(dot_pos - start) =~= s@.subrange(start as int, dot_pos as int));
            assert(t.skip(dot_pos - start + 1) =~= s@.subrange(dot_pos + 1, len as int));
            lemma_valid_with_dot(t, dot_pos - start);
        } else {
            assert(t =~= s@.subrange(start as int, len as int));
        }
        assert(valid_unsigned_decimal(t));
        assert(decimal_mant(s@) == digits_val(digits));
    }
    // second pass: accumulate the digit value
    let mut mant: u64 = 0;
    let mut j: usize = start;
    while j < len
        invariant
            s@.len() == len,
            start <= j <= len,
            t == decimal_body(s@),
            t.len() == len - start,
            forall|k: int| 0 <= k < t.len() ==> t[k] == s@[k + start],
            decimal_valid(s@),
            decimal_mant(s@) == digits_val(digits),
            digits.len() == if dot_pos < len {
                len - start - 1
            } else {
                len - start
            },
            start <= dot_pos,
            dot_pos == len || (start < dot_pos < len && s@[dot_pos as int] == '.'),
            forall|k: int|
                0 <= k < digits.len() ==> digits[k] == if k + start < dot_pos {
                    s@[k + start]
                } else {
                    s@[k + start + 1]
                },
            all_dec_digits(digits),
            mant as nat == digits_val(
                digits.take(
                    if j <= dot_pos {
                        j - start
                    } else {
                        j - start - 1
                    },
                ),
            ),
        decreases len - j,
    {
        if j == dot_pos {
            // the dot contributes no digit
            j = j + 1;
        } else {
            let c = s.get_char(j);
            let ghost consumed = if j <= dot_pos {
                j - start
            } else {
                j - start - 1
            };
            proof {
                assert(digits[consumed as int] == s@[j as int]);
                assert(is_dec_digit(digits[consumed as int]));
            }
            let d: u64 = (c as u32 - 48) as u64;
            let wide: u128 = mant as u128 * 10 + d as u128;
            proof {
                assert(digits.take(consumed + 1).drop_last() =~= digits.take(consumed as int));
                assert(digits.take(consumed + 1).last() == digits[consumed as int]);
            }
            if wide > u64::MAX as u128 {
                proof {
                    lemma_digits_val_prefix(digits, consumed + 1);
                }
                return None;
            }
            mant = wide as u64;
            j = j + 1;
        }
    }
    proof {
        if dot_pos == len {
            assert(digits.take(len - start) =~= digits);
        } else {
            assert(digits.take(len - start - 1) =~= digits);
        }
    }
    // the fraction length must be representable
    let scale_len: usize = if dot_pos < len {
        len - dot_pos - 1
    } else {
        0
    };
    proof {
        if dot_pos < len {
            assert(decimal_scale(s@) == t.len() - (dot_pos - start) - 1);
        }
    }
    if scale_len > u32::MAX as usize {
        return None;
    }
    let n = Number::new(neg, mant, scale_len as u32);
    Some(n)
}

} // verus!
