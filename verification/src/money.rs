//! Amounts of money. An amount is a `rust_decimal::Decimal` held by its two
//! plain parts: the value is `mantissa / 10^scale`.
use vstd::prelude::*;

use crate::text::decimal_text;

verus! {

/// The largest mantissa that a `Decimal` holds (2^96 - 1).
pub const MAX_MANTISSA: i128 = 79_228_162_514_264_337_593_543_950_335;

/// The largest scale that a `Decimal` holds.
pub const MAX_SCALE: u32 = 28;

/// A decimal amount: `mantissa / 10^scale`.
#[derive(Debug, Clone, Copy, PartialEq, Eq, Structural)]
pub struct Money {
    pub mantissa: i128,
    pub scale: u32,
}

impl Money {
    /// The parts are those of a `Decimal`.
    pub open spec fn wf(self) -> bool {
        &&& self.scale <= MAX_SCALE
        &&& -MAX_MANTISSA <= self.mantissa <= MAX_MANTISSA
    }

    /// The amount is greater than zero (the scale only moves the decimal point).
    pub open spec fn is_positive(self) -> bool {
        self.mantissa > 0
    }

    /// Builds an amount from its parts.
    pub fn new(mantissa: i128, scale: u32) -> (m: Money)
        ensures
            m.mantissa == mantissa,
            m.scale == scale,
    {
        Money { mantissa, scale }
    }

    /// Tests whether the amount is greater than zero, as `amount > Decimal::ZERO` does.
    pub fn positive(&self) -> (b: bool)
        ensures
            b == self.is_positive(),
    {
        self.mantissa > 0
    }
}

/// The decimal digits of `n`, most significant first; none for 0.
pub open spec fn digits_of(n: nat) -> Seq<char> {
    if n == 0 {
        Seq::empty()
    } else {
        decimal_text(n)
    }
}

/// `k` zeros.
pub open spec fn zeros(k: nat) -> Seq<char> {
    Seq::new(k, |i: int| '0')
}

/// The digits of `n` with zeros put in front, up to `width` digits at least.
pub open spec fn padded_digits(n: nat, width: nat) -> Seq<char> {
    let d = digits_of(n);
    if d.len() < width {
        zeros((width - d.len()) as nat) + d
    } else {
        d
    }
}

/// What `Decimal`'s `Display` writes for the decimal `mantissa / 10^scale`:
/// the digits of the mantissa, with zeros put in front up to `scale` digits;
/// where the scale is not 0, a point before the last `scale` of them and a `0`
/// before the point where no digit is left in front of it; `0` for a zero
/// mantissa of scale 0; and a minus sign in front of a negative mantissa.
pub open spec fn decimal_display(mantissa: int, scale: int) -> Seq<char> {
    let magnitude: nat = (if mantissa < 0 {
        -mantissa
    } else {
        mantissa
    }) as nat;
    let digits = padded_digits(magnitude, scale as nat);
    let whole_len = digits.len() - scale;
    let body = if scale == 0 {
        if digits.len() == 0 {
            "0"@
        } else {
            digits
        }
    } else {
        (if whole_len == 0 {
            "0"@
        } else {
            digits.subrange(0, whole_len)
        }) + "."@ + digits.subrange(whole_len, digits.len() as int)
    };
    if mantissa < 0 {
        "-"@ + body
    } else {
        body
    }
}

/// `Decimal::from_i128_with_scale(mantissa, scale).to_string()`; the parts must be
/// those of a `Decimal`, else the crate panics.
#[verifier::external_body]
pub(crate) fn money_text(m: &Money) -> (r: String)
    requires
        m.wf(),
    ensures
        r@ == decimal_display(m.mantissa as int, m.scale as int),
{
    rust_decimal::Decimal::from_i128_with_scale(m.mantissa, m.scale).to_string()
}

} // verus!
