//! Exact decimal numbers, as written in tax tables and formula literals.

use vstd::prelude::*;

verus! {

/// Whether `c` is an ASCII decimal digit.
pub open spec fn is_digit(c: char) -> bool {
    '0' <= c && c <= '9'
}

/// The value of one decimal digit character.
pub open spec fn digit_of(c: char) -> nat {
    (c as u32 - '0' as u32) as nat
}

/// The number written by a sequence of digit characters, most significant first.
pub open spec fn digits_value(s: Seq<char>) -> nat
    decreases s.len(),
{
    if s.len() == 0 {
        0
    } else {
        digits_value(s.drop_last()) * 10 + digit_of(s.last())
    }
}

/// `s` without its trailing `'0'` characters.
pub open spec fn strip_trailing_zeros(s: Seq<char>) -> Seq<char>
    decreases s.len(),
{
    if s.len() > 0 && s.last() == '0' {
        strip_trailing_zeros(s.drop_last())
    } else {
        s
    }
}

/// The first position at or after `p` that does not hold a digit.
pub open spec fn digits_end(s: Seq<char>, p: int) -> int
    decreases s.len() - p,
{
    if 0 <= p < s.len() && is_digit(s[p]) {
        digits_end(s, p + 1)
    } else {
        p
    }
}

fn is_digit_char(c: char) -> (r: bool)
    ensures
        r == is_digit(c),
{
    '0' <= c && c <= '9'
}

proof fn lemma_digits_value_monotone(s: Seq<char>, from: int, j: int, k: int)
    requires
        0 <= from <= j <= k <= s.len(),
    ensures
        digits_value(s.subrange(from, j)) <= digits_value(s.subrange(from, k)),
    decreases k - j,
{
    if j < k {
        lemma_digits_value_monotone(s, from, j, k - 1);
        assert(s.subrange(from, k).drop_last() =~= s.subrange(from, k - 1));
    }
}

/// The value of the digits `s[from..to]` when it is at most `limit`.
fn digits_value_upto(s: &Vec<char>, from: usize, to: usize, limit: u128) -> (r: Option<u128>)
    requires
        from <= to <= s@.len(),
        forall|k: int| from <= k < to ==> is_digit(#[trigger] s@[k]),
    ensures
        r == (if digits_value(s@.subrange(from as int, to as int)) <= limit {
            Some(digits_value(s@.subrange(from as int, to as int)) as u128)
        } else {
            None::<u128>
        }),
{
    let mut acc: u128 = 0;
    let mut i = from;
    assert(s@.subrange(from as int, from as int) =~= Seq::<char>::empty());
    while i < to
        invariant
            from <= i <= to <= s@.len(),
            forall|k: int| from <= k < to ==> is_digit(#[trigger] s@[k]),
            acc == digits_value(s@.subrange(from as int, i as int)),
            acc <= limit,
        decreases to - i,
    {
        let c = s[i];
        assert(is_digit(s@[i as int]));
        let d = (c as u32 - '0' as u32) as u128;
        assert(s@.subrange(from as int, i + 1).drop_last() =~= s@.subrange(from as int, i as int));
        assert(digits_value(s@.subrange(from as int, i + 1)) == acc * 10 + d);
        if d > limit || acc > (limit - d) / 10 {
            proof {
                if d <= limit {
                    assert(acc * 10 + d > limit) by (nonlinear_arith)
                        requires
                            acc > (limit - d) / 10,
                            d <= limit,
                    ;
                }
                lemma_digits_value_monotone(s@, from as int, i + 1, to as int);
            }
            return None;
        }
        assert(acc * 10 + d <= limit) by (nonlinear_arith)
            requires
                acc <= (limit - d) / 10,
                d <= limit,
        ;
        acc = acc * 10 + d;
        i += 1;
    }
    Some(acc)
}

} // verus!

verus! {

/// Largest exponent value (the digits after `e`) that a literal may carry.
pub const EXPONENT_LIMIT: u128 = 1_000_000_000_000_000_000;

/// An exact decimal number `(-1)^negative * mantissa * 10^exponent`.
///
/// Values built by this library are canonical (see `wf`): zero has one form,
/// and every other value has a mantissa that is not a multiple of ten, so two
/// canonical values are equal exactly when they denote the same number.
#[derive(Clone, Copy, PartialEq, Eq, Structural, Hash, Debug)]
pub struct Decimal {
    pub negative: bool,
    pub mantissa: u128,
    pub exponent: i128,
}

/// Where the parts of a floating-point literal lie in the text.
pub ghost struct LiteralShape {
    pub negative: bool,
    pub int_start: int,
    pub int_end: int,
    pub frac_start: int,
    pub frac_end: int,
    pub exp_negative: bool,
    pub exp_start: int,
    pub exp_end: int,
    pub end: int,
}

impl Decimal {
    /// Canonical form.
    pub open spec fn wf(self) -> bool {
        &&& self.mantissa == 0 ==> !self.negative && self.exponent == 0
        &&& self.mantissa != 0 ==> self.mantissa % 10 != 0
    }

    pub open spec fn spec_zero() -> Decimal {
        Decimal { negative: false, mantissa: 0, exponent: 0 }
    }

    /// The number is zero.
    pub open spec fn spec_is_zero(self) -> bool {
        self.mantissa == 0
    }

    /// The number is at least `10^k`.
    pub open spec fn spec_at_least_pow10(self, k: nat) -> bool {
        &&& !self.negative
        &&& if self.exponent >= 0 {
            self.mantissa * pow10(self.exponent as nat) >= pow10(k)
        } else {
            self.mantissa >= pow10((k - self.exponent) as nat)
        }
    }

    pub fn zero() -> (r: Decimal)
        ensures
            r == Decimal::spec_zero(),
            r.wf(),
    {
        Decimal { negative: false, mantissa: 0, exponent: 0 }
    }

    pub fn is_zero(&self) -> (r: bool)
        ensures
            r == self.spec_is_zero(),
    {
        self.mantissa == 0
    }
}

/// `10^k`.
pub open spec fn pow10(k: nat) -> nat
    decreases k,
{
    if k == 0 {
        1
    } else {
        10 * pow10((k - 1) as nat)
    }
}

/// The shape of a floating-point literal at `p`: an optional sign, then
/// digits with an optional `.` and optional fraction digits, or `.` and
/// digits; then optionally `e` or `E`, an optional sign and digits. An `e`
/// that is not followed by exponent digits makes the literal invalid.
pub open spec fn scan_literal(s: Seq<char>, p: int) -> Option<LiteralShape> {
    let a = if 0 <= p < s.len() && (s[p] == '+' || s[p] == '-') {
        p + 1
    } else {
        p
    };
    let negative = a != p && s[p] == '-';
    let b = digits_end(s, a);
    let body: Option<(int, int, int, int)> = if b > a {
        if b < s.len() && s[b] == '.' {
            Some((a, b, b + 1, digits_end(s, b + 1)))
        } else {
            Some((a, b, b, b))
        }
    } else if 0 <= a < s.len() && s[a] == '.' && digits_end(s, a + 1) > a + 1 {
        Some((a, a, a + 1, digits_end(s, a + 1)))
    } else {
        None
    };
    match body {
        None => None,
        Some((i0, i1, f0, f1)) => {
            if 0 <= f1 < s.len() && (s[f1] == 'e' || s[f1] == 'E') {
                let d0 = f1 + 1;
                let d = if d0 < s.len() && (s[d0] == '+' || s[d0] == '-') {
                    d0 + 1
                } else {
                    d0
                };
                let g = digits_end(s, d);
                if g > d {
                    Some(
                        LiteralShape {
                            negative,
                            int_start: i0,
                            int_end: i1,
                            frac_start: f0,
                            frac_end: f1,
                            exp_negative: d == d0 + 1 && s[d0] == '-',
                            exp_start: d,
                            exp_end: g,
                            end: g,
                        },
                    )
                } else {
                    None
                }
            } else {
                Some(
                    LiteralShape {
                        negative,
                        int_start: i0,
                        int_end: i1,
                        frac_start: f0,
                        frac_end: f1,
                        exp_negative: false,
                        exp_start: f1,
                        exp_end: f1,
                        end: f1,
                    },
                )
            }
        },
    }
}

/// The canonical decimal that a scanned literal denotes, when its
/// significant digits fit a `u128` and its exponent is at most
/// `EXPONENT_LIMIT`.
pub open spec fn literal_value(s: Seq<char>, sh: LiteralShape) -> Option<Decimal> {
    let digits = s.subrange(sh.int_start, sh.int_end) + s.subrange(sh.frac_start, sh.frac_end);
    let significant = strip_trailing_zeros(digits);
    let m = digits_value(significant);
    let e = digits_value(s.subrange(sh.exp_start, sh.exp_end));
    if m > u128::MAX || e > EXPONENT_LIMIT {
        None
    } else if m == 0 {
        Some(Decimal::spec_zero())
    } else {
        let signed_e: int = if sh.exp_negative {
            -e
        } else {
            e as int
        };
        Some(
            Decimal {
                negative: sh.negative,
                mantissa: m as u128,
                exponent: (signed_e - (sh.frac_end - sh.frac_start) + (digits.len()
                    - significant.len())) as i128,
            },
        )
    }
}

/// A floating-point literal at `p`: its value and the position after it.
pub open spec fn lex_literal(s: Seq<char>, p: int) -> Option<(Decimal, int)> {
    match scan_literal(s, p) {
        None => None,
        Some(sh) => match literal_value(s, sh) {
            None => None,
            Some(d) => Some((d, sh.end)),
        },
    }
}

} // verus!

verus! {

/// The end of the run of digits that starts at `p`.
pub fn scan_digits(s: &Vec<char>, p: usize) -> (r: usize)
    requires
        p <= s@.len(),
    ensures
        r as int == digits_end(s@, p as int),
        p <= r <= s@.len(),
        forall|k: int| p <= k < r ==> is_digit(#[trigger] s@[k]),
{
    let mut i = p;
    while i < s.len() && is_digit_char(s[i])
        invariant
            p <= i <= s@.len(),
            digits_end(s@, p as int) == digits_end(s@, i as int),
            forall|k: int| p <= k < i ==> is_digit(#[trigger] s@[k]),
        decreases s@.len() - i,
    {
        i += 1;
    }
    i
}

proof fn lemma_last_digit(s: Seq<char>)
    requires
        s.len() > 0,
        is_digit(s.last()),
        s.last() != '0',
    ensures
        digits_value(s) % 10 != 0,
{
    let v = digits_value(s.drop_last());
    let d = digit_of(s.last());
    assert(0 < d < 10);
    assert((v * 10 + d) % 10 == d) by (nonlinear_arith)
        requires
            0 < d < 10,
    ;
}

/// Where the parts of a literal lie, as positions into the text.
struct LiteralSpan {
    negative: bool,
    int_start: usize,
    int_end: usize,
    frac_start: usize,
    frac_end: usize,
    exp_negative: bool,
    exp_start: usize,
    exp_end: usize,
}

impl LiteralSpan {
    spec fn shape(self) -> LiteralShape {
        LiteralShape {
            negative: self.negative,
            int_start: self.int_start as int,
            int_end: self.int_end as int,
            frac_start: self.frac_start as int,
            frac_end: self.frac_end as int,
            exp_negative: self.exp_negative,
            exp_start: self.exp_start as int,
            exp_end: self.exp_end as int,
            end: self.exp_end as int,
        }
    }
}

fn scan_literal_at(s: &Vec<char>, p: usize) -> (r: Option<LiteralSpan>)
    requires
        p <= s@.len(),
    ensures
        match r {
            Some(sp) => {
                &&& scan_literal(s@, p as int) == Some(sp.shape())
                &&& p < sp.exp_end
                &&& sp.int_start <= sp.int_end <= sp.frac_start <= sp.frac_end <= sp.exp_start
                    <= sp.exp_end <= s@.len()
                &&& forall|k: int| sp.int_start <= k < sp.int_end ==> is_digit(#[trigger] s@[k])
                &&& forall|k: int| sp.frac_start <= k < sp.frac_end ==> is_digit(#[trigger] s@[k])
                &&& forall|k: int| sp.exp_start <= k < sp.exp_end ==> is_digit(#[trigger] s@[k])
            },
            None => scan_literal(s@, p as int) is None,
        },
{
    let n = s.len();
    let a = if p < n && (s[p] == '+' || s[p] == '-') {
        p + 1
    } else {
        p
    };
    let negative = a != p && s[p] == '-';
    let b = scan_digits(s, a);
    let (i0, i1, f0, f1) = if b > a {
        if b < n && s[b] == '.' {
            let f1 = scan_digits(s, b + 1);
            (a, b, b + 1, f1)
        } else {
            (a, b, b, b)
        }
    } else if a < n && s[a] == '.' {
        let e = scan_digits(s, a + 1);
        if e > a + 1 {
            (a, a, a + 1, e)
        } else {
            return None;
        }
    } else {
        return None;
    };
    if f1 < n && (s[f1] == 'e' || s[f1] == 'E') {
        let d0 = f1 + 1;
        let d = if d0 < n && (s[d0] == '+' || s[d0] == '-') {
            d0 + 1
        } else {
            d0
        };
        let g = scan_digits(s, d);
        if g > d {
            Some(
                LiteralSpan {
                    negative,
                    int_start: i0,
                    int_end: i1,
                    frac_start: f0,
                    frac_end: f1,
                    exp_negative: d != d0 && s[d0] == '-',
                    exp_start: d,
                    exp_end: g,
                },
            )
        } else {
            None
        }
    } else {
        Some(
            LiteralSpan {
                negative,
                int_start: i0,
                int_end: i1,
                frac_start: f0,
                frac_end: f1,
                exp_negative: false,
                exp_start: f1,
                exp_end: f1,
            },
        )
    }
}

fn literal_value_at(s: &Vec<char>, sp: &LiteralSpan) -> (r: Option<Decimal>)
    requires
        sp.int_start <= sp.int_end <= sp.frac_start <= sp.frac_end <= sp.exp_start <= sp.exp_end
            <= s@.len(),
        forall|k: int| sp.int_start <= k < sp.int_end ==> is_digit(#[trigger] s@[k]),
        forall|k: int| sp.frac_start <= k < sp.frac_end ==> is_digit(#[trigger] s@[k]),
        forall|k: int| sp.exp_start <= k < sp.exp_end ==> is_digit(#[trigger] s@[k]),
    ensures
        r == literal_value(s@, sp.shape()),
        r matches Some(d) ==> d.wf(),
{
    let mut digits: Vec<char> = Vec::new();
    let mut i = sp.int_start;
    while i < sp.int_end
        invariant
            sp.int_start <= i <= sp.int_end <= s@.len(),
            digits@ =~= s@.subrange(sp.int_start as int, i as int),
        decreases sp.int_end - i,
    {
        digits.push(s[i]);
        i += 1;
    }
    let mut j = sp.frac_start;
    while j < sp.frac_end
        invariant
            sp.frac_start <= j <= sp.frac_end <= s@.len(),
            sp.int_start <= sp.int_end <= s@.len(),
            digits@ =~= s@.subrange(sp.int_start as int, sp.int_end as int) + s@.subrange(
                sp.frac_start as int,
                j as int,
            ),
        decreases sp.frac_end - j,
    {
        digits.push(s[j]);
        j += 1;
    }
    let ghost all = digits@;
    assert(forall|k: int| 0 <= k < all.len() ==> is_digit(#[trigger] all[k]));
    let mut k = digits.len();
    assert(all.subrange(0, k as int) =~= all);
    while k > 0 && digits[k - 1] == '0'
        invariant
            k <= digits@.len(),
            digits@ == all,
            strip_trailing_zeros(all) == strip_trailing_zeros(all.subrange(0, k as int)),
        decreases k,
    {
        assert(all.subrange(0, k as int).drop_last() =~= all.subrange(0, k - 1));
        k -= 1;
    }
    assert(strip_trailing_zeros(all) == all.subrange(0, k as int));
    let m = match digits_value_upto(&digits, 0, k, u128::MAX) {
        Some(m) => m,
        None => return None,
    };
    let ev = match digits_value_upto(s, sp.exp_start, sp.exp_end, EXPONENT_LIMIT) {
        Some(ev) => ev,
        None => return None,
    };
    if m == 0 {
        return Some(Decimal::zero());
    }
    proof {
        lemma_last_digit(all.subrange(0, k as int));
    }
    let signed_e: i128 = if sp.exp_negative {
        -(ev as i128)
    } else {
        ev as i128
    };
    let exponent: i128 = signed_e - ((sp.frac_end - sp.frac_start) as i128) + ((digits.len() - k)
        as i128);
    Some(Decimal { negative: sp.negative, mantissa: m, exponent })
}

/// Reads the floating-point literal at `p`.
pub fn lex_literal_at(s: &Vec<char>, p: usize) -> (r: Option<(Decimal, usize)>)
    requires
        p <= s@.len(),
    ensures
        match r {
            Some((d, q)) => lex_literal(s@, p as int) == Some((d, q as int)) && d.wf() && p < q
                <= s@.len(),
            None => lex_literal(s@, p as int) is None,
        },
{
    match scan_literal_at(s, p) {
        None => None,
        Some(sp) => match literal_value_at(s, &sp) {
            None => None,
            Some(d) => Some((d, sp.exp_end)),
        },
    }
}

} // verus!

verus! {

impl Decimal {
    /// Reads a text that is one floating-point literal and nothing else.
    pub fn parse(text: &str) -> (r: Option<Decimal>)
        ensures
            r == (match lex_literal(text@, 0) {
                Some((d, q)) => if q == text@.len() {
                    Some(d)
                } else {
                    None
                },
                None => None,
            }),
            r matches Some(d) ==> d.wf(),
    {
        let s = crate::text::chars_of(text);
        match lex_literal_at(&s, 0) {
            Some((d, q)) => if q == s.len() {
                Some(d)
            } else {
                None
            },
            None => None,
        }
    }
}

} // verus!

verus! {

pub proof fn lemma_pow10_add(a: nat, b: nat)
    ensures
        pow10(a + b) == pow10(a) * pow10(b),
    decreases a,
{
    if a == 0 {
        assert(pow10(0) == 1);
    } else {
        let a1 = (a - 1) as nat;
        lemma_pow10_add(a1, b);
        assert((a1 + b) as nat == (a + b - 1) as nat);
        assert(pow10(a + b) == 10 * pow10(a1 + b));
        assert(pow10(a) == 10 * pow10(a1));
        assert(10 * (pow10(a1) * pow10(b)) == (10 * pow10(a1)) * pow10(b)) by (nonlinear_arith);
    }
}

pub proof fn lemma_pow10_monotone(a: nat, b: nat)
    requires
        a <= b,
    ensures
        1 <= pow10(a) <= pow10(b),
    decreases b,
{
    if b > 0 {
        if a < b {
            lemma_pow10_monotone(a, (b - 1) as nat);
        } else {
            lemma_pow10_monotone(0, (b - 1) as nat);
        }
        assert(pow10(b) == 10 * pow10((b - 1) as nat));
    } else {
        assert(pow10(0) == 1);
    }
}

/// `10^j`.
fn pow10_u128(j: u32) -> (r: u128)
    requires
        j <= 38,
    ensures
        r == pow10(j as nat),
{
    assert(pow10(38) == 100_000_000_000_000_000_000_000_000_000_000_000_000u128) by {
        reveal_with_fuel(pow10, 39);
    }
    let mut r: u128 = 1;
    let mut i: u32 = 0;
    while i < j
        invariant
            i <= j <= 38,
            r == pow10(i as nat),
            pow10(38) == 100_000_000_000_000_000_000_000_000_000_000_000_000u128,
        decreases j - i,
    {
        proof {
            lemma_pow10_monotone((i + 1) as nat, 38);
        }
        r = r * 10;
        i += 1;
    }
    r
}

impl Decimal {
    /// Whether the number is at least `10^k`.
    pub fn at_least_pow10(&self, k: u32) -> (r: bool)
        requires
            k <= 30,
        ensures
            r == self.spec_at_least_pow10(k as nat),
    {
        if self.negative || self.mantissa == 0 {
            proof {
                lemma_pow10_monotone(0, k as nat);
                if self.exponent < 0 {
                    lemma_pow10_monotone(0, (k - self.exponent) as nat);
                }
            }
            return false;
        }
        let e = self.exponent;
        if e >= k as i128 {
            proof {
                lemma_pow10_monotone(k as nat, e as nat);
                assert(self.mantissa * pow10(e as nat) >= pow10(e as nat)) by (nonlinear_arith)
                    requires
                        self.mantissa >= 1,
                        pow10(e as nat) >= 1,
                ;
            }
            return true;
        }
        if e < -38 || k as i128 - e > 38 {
            let ghost t = k as int - e as int;
            proof {
                lemma_pow10_monotone(39, t as nat);
                assert(pow10(39) == 1_000_000_000_000_000_000_000_000_000_000_000_000_000int) by {
                    reveal_with_fuel(pow10, 40);
                }
                if e >= 0 {
                    assert(false);
                }
            }
            return false;
        }
        let t: i128 = k as i128 - e;
        let bound = pow10_u128(t as u32);
        let r = self.mantissa >= bound;
        proof {
            if e >= 0 {
                let m = self.mantissa as int;
                let pe = pow10(e as nat) as int;
                let pt = pow10(t as nat) as int;
                lemma_pow10_add(t as nat, e as nat);
                lemma_pow10_monotone(0, e as nat);
                assert(pow10(k as nat) == pt * pe);
                assert(m * pe >= pt * pe <==> m >= pt) by (nonlinear_arith)
                    requires
                        pe >= 1,
                ;
            }
        }
        r
    }
}

} // verus!
