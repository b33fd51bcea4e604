use vstd::prelude::*;

verus! {

/// The largest number of decimal places a monetary value may carry:
/// `10^18` still fits in an `i64` magnitude.
pub const MAX_SCALE: u32 = 18;

/// `10^n`.
pub open spec fn pow10(n: nat) -> int
    decreases n,
{
    if n == 0 {
        1
    } else {
        10 * pow10((n - 1) as nat)
    }
}

pub proof fn lemma_pow10_positive(n: nat)
    ensures
        pow10(n) >= 1,
    decreases n,
{
    if n > 0 {
        lemma_pow10_positive((n - 1) as nat);
    }
}

pub proof fn lemma_pow10_monotone(a: nat, b: nat)
    requires
        a <= b,
    ensures
        pow10(a) <= pow10(b),
    decreases b,
{
    if a < b {
        lemma_pow10_monotone(a, (b - 1) as nat);
        lemma_pow10_positive((b - 1) as nat);
    }
}

pub proof fn lemma_pow10_bound(n: nat)
    requires
        n <= 18,
    ensures
        pow10(n) <= 1_000_000_000_000_000_000,
{
    lemma_pow10_monotone(n, 18);
    reveal_with_fuel(pow10, 19);
}

/// Why a monetary value could not be built.
#[derive(Debug, Clone, Copy, PartialEq, Eq, Structural)]
pub enum MoneyError {
    NegativeScale,
    ScaleTooLarge,
}

/// An exact amount: `magnitude / 10^scale`.
#[derive(Debug, Clone, Copy, PartialEq, Eq, Structural)]
pub struct Money {
    pub magnitude: i64,
    pub scale: u32,
}

/// The magnitude that stands for `m / 10^from` at `to` decimal places,
/// when that magnitude is a whole number that fits in an `i64`.
pub open spec fn rescaled(m: int, from: nat, to: nat) -> Option<int> {
    if to >= from {
        let v = m * pow10((to - from) as nat);
        if i64::MIN <= v <= i64::MAX {
            Some(v)
        } else {
            None
        }
    } else {
        let p = pow10((from - to) as nat);
        if m % p == 0 {
            Some(m / p)
        } else {
            None
        }
    }
}

/// `10^n` as a machine integer.
pub fn pow10_u64(n: u32) -> (r: u64)
    requires
        n <= MAX_SCALE,
    ensures
        r as int == pow10(n as nat),
{
    let mut r: u64 = 1;
    let mut i: u32 = 0;
    while i < n
        invariant
            i <= n <= MAX_SCALE,
            r as int == pow10(i as nat),
        decreases n - i,
    {
        proof {
            lemma_pow10_bound(i as nat);
        }
        r = r * 10;
        i = i + 1;
    }
    r
}


/// The decimal digit `d` as a character.
pub open spec fn digit_char(d: nat) -> char {
    if d == 0 {
        '0'
    } else if d == 1 {
        '1'
    } else if d == 2 {
        '2'
    } else if d == 3 {
        '3'
    } else if d == 4 {
        '4'
    } else if d == 5 {
        '5'
    } else if d == 6 {
        '6'
    } else if d == 7 {
        '7'
    } else if d == 8 {
        '8'
    } else {
        '9'
    }
}

/// The decimal digits of `a`, padded with leading zeros to at least `w`
/// characters (no characters at all for zero at width zero).
pub open spec fn digits(a: nat, w: nat) -> Seq<char>
    decreases a + w,
{
    if a == 0 && w == 0 {
        Seq::empty()
    } else {
        digits(a / 10, if w > 0 {
            (w - 1) as nat
        } else {
            0
        }).push(digit_char(a % 10))
    }
}

/// `m / 10^s` written out in decimal: a minus sign for a negative value, the
/// whole part, and, for a positive scale, a point followed by exactly `s`
/// fractional digits.
pub open spec fn render(m: int, s: nat) -> Seq<char> {
    let a: nat = if m < 0 {
        (-m) as nat
    } else {
        m as nat
    };
    let sign: Seq<char> = if m < 0 {
        seq!['-']
    } else {
        Seq::empty()
    };
    let whole = digits(a / (pow10(s) as nat), 1);
    if s == 0 {
        sign + whole
    } else {
        sign + whole + seq!['.'] + digits(a % (pow10(s) as nat), s)
    }
}

fn digit_str(d: u64) -> (r: &'static str)
    requires
        d < 10,
    ensures
        r@ == seq![digit_char(d as nat)],
{
    proof {
        reveal_strlit("0");
        reveal_strlit("1");
        reveal_strlit("2");
        reveal_strlit("3");
        reveal_strlit("4");
        reveal_strlit("5");
        reveal_strlit("6");
        reveal_strlit("7");
        reveal_strlit("8");
        reveal_strlit("9");
    }
    if d == 0 {
        "0"
    } else if d == 1 {
        "1"
    } else if d == 2 {
        "2"
    } else if d == 3 {
        "3"
    } else if d == 4 {
        "4"
    } else if d == 5 {
        "5"
    } else if d == 6 {
        "6"
    } else if d == 7 {
        "7"
    } else if d == 8 {
        "8"
    } else {
        "9"
    }
}

fn push_digits(out: &mut String, a: u64, w: u32)
    ensures
        final(out)@ == old(out)@ + digits(a as nat, w as nat),
    decreases a + w,
{
    if a == 0 && w == 0 {
        assert(digits(a as nat, w as nat) =~= Seq::<char>::empty());
        assert(old(out)@ + Seq::<char>::empty() =~= old(out)@);
        return ;
    }
    let w2: u32 = if w > 0 {
        w - 1
    } else {
        0
    };
    push_digits(out, a / 10, w2);
    let ghost mid = out@;
    out.append(digit_str(a % 10));
    assert(out@ =~= old(out)@ + digits(a as nat, w as nat));
}

impl Money {
    pub open spec fn wf(self) -> bool {
        self.scale <= MAX_SCALE
    }

    /// Builds `magnitude / 10^scale`; a negative scale, or one beyond
    /// `MAX_SCALE`, is refused.
    pub fn new(magnitude: i64, scale: i64) -> (r: Result<Money, MoneyError>)
        ensures
            scale < 0 ==> r == Err::<Money, MoneyError>(MoneyError::NegativeScale),
            scale > MAX_SCALE ==> r == Err::<Money, MoneyError>(MoneyError::ScaleTooLarge),
            0 <= scale <= MAX_SCALE ==> r == Ok::<Money, MoneyError>(
                Money { magnitude, scale: scale as u32 },
            ),
    {
        if scale < 0 {
            Err(MoneyError::NegativeScale)
        } else if scale > MAX_SCALE as i64 {
            Err(MoneyError::ScaleTooLarge)
        } else {
            Ok(Money { magnitude, scale: scale as u32 })
        }
    }

    /// The same amount at `to` decimal places. Going up multiplies the
    /// magnitude by `10^(to - scale)`; going down divides it and is refused
    /// when a digit would be lost. Nothing is ever truncated.
    pub fn rescale(&self, to: u32) -> (r: Option<Money>)
        requires
            self.wf(),
            to <= MAX_SCALE,
        ensures
            match rescaled(self.magnitude as int, self.scale as nat, to as nat) {
                Some(v) => r == Some(Money { magnitude: v as i64, scale: to }),
                None => r.is_none(),
            },
    {
        if to >= self.scale {
            let p = pow10_u64(to - self.scale);
            proof {
                lemma_pow10_bound((to - self.scale) as nat);
                lemma_pow10_positive((to - self.scale) as nat);
                assert(-9_223_372_036_854_775_808 * 1_000_000_000_000_000_000 <= self.magnitude
                    * p <= 9_223_372_036_854_775_807 * 1_000_000_000_000_000_000)
                    by (nonlinear_arith)
                    requires
                        i64::MIN <= self.magnitude <= i64::MAX,
                        1 <= p <= 1_000_000_000_000_000_000,
                ;
            }
            let v: i128 = (self.magnitude as i128) * (p as i128);
            if v < i64::MIN as i128 || v > i64::MAX as i128 {
                None
            } else {
                Some(Money { magnitude: v as i64, scale: to })
            }
        } else {
            let p = pow10_u64(self.scale - to);
            proof {
                lemma_pow10_bound((self.scale - to) as nat);
                lemma_pow10_positive((self.scale - to) as nat);
            }
            let neg = self.magnitude < 0;
            let a: u64 = if neg {
                (-(self.magnitude as i128)) as u64
            } else {
                self.magnitude as u64
            };
            if a % p != 0 {
                proof {
                    lemma_divisible_by_abs(self.magnitude as int, p as int);
                }
                None
            } else {
                let q: u64 = a / p;
                proof {
                    lemma_divisible_by_abs(self.magnitude as int, p as int);
                    lemma_quotient_by_abs(self.magnitude as int, p as int);
                }
                assert(q <= a) by (nonlinear_arith)
                    requires
                        q == a / p,
                        p >= 1,
                        a >= 0,
                ;
                let v: i128 = if neg {
                    -(q as i128)
                } else {
                    q as i128
                };
                Some(Money { magnitude: v as i64, scale: to })
            }
        }
    }

    /// The amount in decimal notation, exact to the last stored digit
    /// (`1550` at scale 2 reads `15.50`).
    pub fn to_decimal_string(&self) -> (r: String)
        requires
            self.wf(),
        ensures
            r@ == render(self.magnitude as int, self.scale as nat),
    {
        let neg = self.magnitude < 0;
        let a: u64 = if neg {
            (-(self.magnitude as i128)) as u64
        } else {
            self.magnitude as u64
        };
        let p = pow10_u64(self.scale);
        proof {
            lemma_pow10_positive(self.scale as nat);
        }
        let mut out = String::new();
        if neg {
            out.append("-");
            proof {
                reveal_strlit("-");
            }
        }
        assert(out@ =~= (if self.magnitude < 0 {
            seq!['-']
        } else {
            Seq::<char>::empty()
        }));
        push_digits(&mut out, a / p, 1);
        if self.scale > 0 {
            out.append(".");
            proof {
                reveal_strlit(".");
            }
            push_digits(&mut out, a % p, self.scale);
        }
        assert(out@ =~= render(self.magnitude as int, self.scale as nat));
        out
    }

    /// The sum of two amounts, once both stand at the larger of their
    /// scales; `None` where either rescaled magnitude or the sum leaves `i64`.
    pub fn add(&self, other: &Money) -> (r: Option<Money>)
        requires
            self.wf(),
            other.wf(),
        ensures
            ({
                let s: nat = if self.scale >= other.scale {
                    self.scale as nat
                } else {
                    other.scale as nat
                };
                let a = rescaled(self.magnitude as int, self.scale as nat, s);
                let b = rescaled(other.magnitude as int, other.scale as nat, s);
                if a.is_some() && b.is_some() && i64::MIN <= a.unwrap() + b.unwrap()
                    <= i64::MAX {
                    r == Some(Money { magnitude: (a.unwrap() + b.unwrap()) as i64, scale: s as u32 })
                } else {
                    r.is_none()
                }
            }),
    {
        let s = if self.scale >= other.scale {
            self.scale
        } else {
            other.scale
        };
        let a = match self.rescale(s) {
            Some(a) => a,
            None => {
                return None;
            },
        };
        let b = match other.rescale(s) {
            Some(b) => b,
            None => {
                return None;
            },
        };
        let sum: i128 = a.magnitude as i128 + b.magnitude as i128;
        if sum < i64::MIN as i128 || sum > i64::MAX as i128 {
            None
        } else {
            Some(Money { magnitude: sum as i64, scale: s })
        }
    }

    /// Compares two amounts at the larger of their scales: `Some(-1)`,
    /// `Some(0)` or `Some(1)` as `self` is less than, equal to or greater
    /// than `other`; `None` where a rescaled magnitude leaves `i64`.
    pub fn compare(&self, other: &Money) -> (r: Option<i8>)
        requires
            self.wf(),
            other.wf(),
        ensures
            ({
                let s: nat = if self.scale >= other.scale {
                    self.scale as nat
                } else {
                    other.scale as nat
                };
                let a = rescaled(self.magnitude as int, self.scale as nat, s);
                let b = rescaled(other.magnitude as int, other.scale as nat, s);
                if a.is_some() && b.is_some() {
                    r == Some(
                        if a.unwrap() < b.unwrap() {
                            -1i8
                        } else if a.unwrap() == b.unwrap() {
                            0i8
                        } else {
                            1i8
                        },
                    )
                } else {
                    r.is_none()
                }
            }),
    {
        let s = if self.scale >= other.scale {
            self.scale
        } else {
            other.scale
        };
        let a = match self.rescale(s) {
            Some(a) => a,
            None => {
                return None;
            },
        };
        let b = match other.rescale(s) {
            Some(b) => b,
            None => {
                return None;
            },
        };
        if a.magnitude < b.magnitude {
            Some(-1)
        } else if a.magnitude == b.magnitude {
            Some(0)
        } else {
            Some(1)
        }
    }
}

proof fn lemma_divisible_by_abs(m: int, p: int)
    requires
        p >= 1,
    ensures
        (m % p == 0) == ((if m < 0 { -m } else { m }) % p == 0),
{
    if m < 0 {
        lemma_neg_divisible(m, p);
    }
}

proof fn lemma_neg_divisible(m: int, p: int)
    requires
        p >= 1,
    ensures
        (m % p == 0) == ((-m) % p == 0),
{
    if m % p == 0 {
        let q = m / p;
        assert(m == p * q) by (nonlinear_arith)
            requires
                m % p == 0,
                q == m / p,
                p >= 1,
        ;
        assert(-m == p * (-q)) by (nonlinear_arith)
            requires
                m == p * q,
        ;
        vstd::arithmetic::div_mod::lemma_mod_multiples_basic(-q, p);
        assert((-q) * p == p * (-q)) by (nonlinear_arith);
    }
    if (-m) % p == 0 {
        let q = (-m) / p;
        assert(-m == p * q) by (nonlinear_arith)
            requires
                (-m) % p == 0,
                q == (-m) / p,
                p >= 1,
        ;
        vstd::arithmetic::div_mod::lemma_mod_multiples_basic(-q, p);
        assert((-q) * p == m) by (nonlinear_arith)
            requires
                -m == p * q,
        ;
    }
}

proof fn lemma_quotient_by_abs(m: int, p: int)
    requires
        p >= 1,
        m % p == 0,
    ensures
        m / p == (if m < 0 { -((-m) / p) } else { m / p }),
{
    if m < 0 {
        let q = m / p;
        assert(m == p * q) by (nonlinear_arith)
            requires
                m % p == 0,
                q == m / p,
                p >= 1,
        ;
        assert(-m == (-q) * p) by (nonlinear_arith)
            requires
                m == p * q,
        ;
        vstd::arithmetic::div_mod::lemma_div_multiples_vanish(-q, p);
        assert(p * (-q) == (-q) * p) by (nonlinear_arith);
    }
}

/// Rescaling a magnitude from `s1` up to `s2` and back to `s1` gives the
/// magnitude it started from, whenever the upward step fits in an `i64`.
pub proof fn lemma_rescale_round_trip(m: i64, s1: u32, s2: u32)
    requires
        s1 <= s2 <= MAX_SCALE,
        rescaled(m as int, s1 as nat, s2 as nat).is_some(),
    ensures
        rescaled(rescaled(m as int, s1 as nat, s2 as nat).unwrap(), s2 as nat, s1 as nat) == Some(
            m as int,
        ),
{
    let p = pow10((s2 - s1) as nat);
    lemma_pow10_positive((s2 - s1) as nat);
    let v = m * p;
    if s1 < s2 {
        vstd::arithmetic::div_mod::lemma_mod_multiples_basic(m as int, p);
        vstd::arithmetic::div_mod::lemma_div_multiples_vanish(m as int, p);
        assert(m * p == p * m) by (nonlinear_arith);
    } else {
        assert(p == 1);
    }
}

} // verus!
