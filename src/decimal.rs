//! Decimal numbers and their plain textual rendering.
use vstd::prelude::*;

verus! {

/// The text of a single decimal digit.
pub open spec fn digit_text(d: nat) -> Seq<char> {
    if d == 0 {
        "0"@
    } else if d == 1 {
        "1"@
    } else if d == 2 {
        "2"@
    } else if d == 3 {
        "3"@
    } else if d == 4 {
        "4"@
    } else if d == 5 {
        "5"@
    } else if d == 6 {
        "6"@
    } else if d == 7 {
        "7"@
    } else if d == 8 {
        "8"@
    } else {
        "9"@
    }
}

/// The decimal digits of `n`, most significant first, with no leading zeros
/// (zero itself is the single digit `0`).
pub open spec fn nat_text(n: nat) -> Seq<char>
    decreases n,
{
    if n < 10 {
        digit_text(n)
    } else {
        nat_text(n / 10) + digit_text(n % 10)
    }
}

/// The `w` lowest decimal digits of `n`, most significant first, padded with
/// leading zeros to exactly `w` digits.
pub open spec fn low_digits_text(n: nat, w: nat) -> Seq<char>
    decreases w,
{
    if w == 0 {
        Seq::empty()
    } else {
        low_digits_text(n / 10, (w - 1) as nat) + digit_text(n % 10)
    }
}

/// `n` with its `k` lowest decimal digits dropped.
pub open spec fn drop_digits(n: nat, k: nat) -> nat
    decreases k,
{
    if k == 0 {
        n
    } else {
        drop_digits(n / 10, (k - 1) as nat)
    }
}

/// `m` followed by `k` zeros, that is `m * 10^k`.
pub open spec fn shifted(m: nat, k: nat) -> nat
    decreases k,
{
    if k == 0 {
        m
    } else {
        shifted(m, (k - 1) as nat) * 10
    }
}

/// The absolute value of `m`.
pub open spec fn abs_value(m: int) -> nat {
    if m < 0 {
        (-m) as nat
    } else {
        m as nat
    }
}

/// A decimal number: `(-1 if negative) * digits / 10^scale`.
///
/// Its text is the one a number's default rendering gives: an optional minus
/// sign, the integer part, and, when `scale` is not zero, a point followed by
/// exactly `scale` fraction digits. Values made by `Decimal::new` carry no
/// trailing zero in the fraction, so `50.1` renders as `50.1` and `50.0` as `50`.
#[derive(Clone, Copy, Debug, PartialEq, Eq)]
pub struct Decimal {
    pub negative: bool,
    pub digits: u64,
    pub scale: u8,
}

impl Decimal {
    /// The text of this number.
    pub open spec fn spec_text(self) -> Seq<char> {
        (if self.negative {
            "-"@
        } else {
            Seq::empty()
        }) + nat_text(drop_digits(self.digits as nat, self.scale as nat)) + (if self.scale == 0 {
            Seq::empty()
        } else {
            "."@ + low_digits_text(self.digits as nat, self.scale as nat)
        })
    }

    /// No trailing zero in the fraction.
    pub open spec fn is_normalized(self) -> bool {
        self.scale == 0 || self.digits % 10 != 0
    }

    /// The number `mantissa / 10^scale`, with trailing fraction zeros removed:
    /// the sign is kept, and `digits` followed by the removed zeros is the
    /// absolute value of `mantissa`.
    pub fn new(mantissa: i64, scale: u8) -> (r: Decimal)
        ensures
            r.negative == (mantissa < 0),
            r.scale <= scale,
            shifted(r.digits as nat, (scale - r.scale) as nat) == abs_value(mantissa as int),
            r.is_normalized(),
    {
        let mut digits: u64 = if mantissa < 0 {
            (0i128 - mantissa as i128) as u64
        } else {
            mantissa as u64
        };
        let mut s: u8 = scale;
        while s > 0 && digits % 10 == 0
            invariant
                s <= scale,
                shifted(digits as nat, (scale - s) as nat) == abs_value(mantissa as int),
            decreases s,
        {
            proof {
                lemma_shifted_tens((digits / 10) as nat, (scale - s) as nat);
            }
            digits = digits / 10;
            s = s - 1;
        }
        Decimal { negative: mantissa < 0, digits, scale: s }
    }

    /// The number's text.
    pub fn text(&self) -> (r: String)
        ensures
            r@ == self.spec_text(),
    {
        let mut out = String::new();
        if self.negative {
            out.append("-");
        }
        write_nat(drop_low_digits(self.digits, self.scale), &mut out);
        if self.scale > 0 {
            out.append(".");
            write_low_digits(self.digits, self.scale, &mut out);
        }
        out
    }
}

/// Moving one factor ten from the number into the shift count.
pub proof fn lemma_shifted_tens(m: nat, k: nat)
    ensures
        shifted(m * 10, k) == shifted(m, k + 1),
    decreases k,
{
    if k == 0 {
        assert(shifted(m, 1) == shifted(m, 0) * 10);
    } else {
        lemma_shifted_tens(m, (k - 1) as nat);
        assert(shifted(m, k + 1) == shifted(m, k) * 10);
    }
}

fn digit_str(d: u64) -> (r: &'static str)
    requires
        d < 10,
    ensures
        r@ == digit_text(d as nat),
{
    match d {
        0 => "0",
        1 => "1",
        2 => "2",
        3 => "3",
        4 => "4",
        5 => "5",
        6 => "6",
        7 => "7",
        8 => "8",
        _ => "9",
    }
}

fn drop_low_digits(n: u64, k: u8) -> (r: u64)
    ensures
        r == drop_digits(n as nat, k as nat),
    decreases k,
{
    if k == 0 {
        n
    } else {
        drop_low_digits(n / 10, k - 1)
    }
}

/// Appends the decimal digits of `n`.
pub fn write_nat(n: u64, out: &mut String)
    ensures
        final(out)@ == old(out)@ + nat_text(n as nat),
    decreases n,
{
    if n >= 10 {
        write_nat(n / 10, out);
    }
    out.append(digit_str(n % 10));
}

/// Appends the `w` lowest decimal digits of `n`, zero-padded to width `w`.
pub fn write_low_digits(n: u64, w: u8, out: &mut String)
    ensures
        final(out)@ == old(out)@ + low_digits_text(n as nat, w as nat),
    decreases w,
{
    if w > 0 {
        write_low_digits(n / 10, w - 1, out);
        out.append(digit_str(n % 10));
    }
}

/// The decimal text of an unsigned integer.
pub fn nat_string(n: u64) -> (r: String)
    ensures
        r@ == nat_text(n as nat),
{
    let mut out = String::new();
    write_nat(n, &mut out);
    out
}

} // verus!
