//! Amounts of money: a decimal number held as a signed mantissa and a scale,
//! worth `mantissa / 10^scale`, as `rust_decimal::Decimal` holds it.
use vstd::prelude::*;

verus! {

/// The largest mantissa a decimal holds: 2^96 - 1.
pub const MAX_MANTISSA: i128 = 0xffff_ffff_ffff_ffff_ffff_ffffi128;

/// The largest scale a decimal holds.
pub const MAX_SCALE: u32 = 28u32;

#[derive(Debug, Clone, Copy, PartialEq, Eq, Structural)]
pub struct Amount {
    pub mantissa: i128,
    pub scale: u32,
}

impl Amount {
    /// The amount is a value that a decimal can hold.
    pub open spec fn wf(self) -> bool {
        &&& -MAX_MANTISSA <= self.mantissa <= MAX_MANTISSA
        &&& self.scale <= MAX_SCALE
    }

    pub open spec fn spec_zero() -> Amount {
        Amount { mantissa: 0, scale: 0 }
    }

    /// Zero, as `Decimal::ZERO` holds it.
    pub fn zero() -> (z: Amount)
        ensures
            z == Amount::spec_zero(),
            z.wf(),
    {
        Amount { mantissa: 0, scale: 0 }
    }

    /// The amount is greater than zero.
    pub open spec fn spec_is_positive(self) -> bool {
        self.mantissa > 0
    }

    /// Whether the amount is greater than zero (its sign is that of its mantissa).
    pub fn is_positive(&self) -> (r: bool)
        ensures
            r == self.spec_is_positive(),
    {
        self.mantissa > 0
    }
}

/// What `Decimal::checked_add` gives for two decimals, each as its mantissa and
/// scale: the sum as mantissa and scale, or `None` when it overflows.
pub uninterp spec fn decimal_checked_sum(m1: i128, s1: u32, m2: i128, s2: u32) -> Option<(i128, u32)>;

pub open spec fn spec_checked_sum(a: Amount, b: Amount) -> Option<Amount> {
    match decimal_checked_sum(a.mantissa, a.scale, b.mantissa, b.scale) {
        Some(p) => Some(Amount { mantissa: p.0, scale: p.1 }),
        None => None,
    }
}

/// Calls `rust_decimal::Decimal::checked_add` on the decimals that
/// `Decimal::from_i128_with_scale` makes of `a` and `b` (which panics unless both
/// are well formed), and reads the sum back with `mantissa` and `scale`; a sum is a
/// decimal, so it is well formed.
#[verifier::external_body]
pub(crate) fn checked_sum(a: Amount, b: Amount) -> (r: Option<Amount>)
    requires
        a.wf(),
        b.wf(),
    ensures
        match r {
            Some(s) => decimal_checked_sum(a.mantissa, a.scale, b.mantissa, b.scale) == Some(
                (s.mantissa, s.scale),
            ),
            None => decimal_checked_sum(a.mantissa, a.scale, b.mantissa, b.scale) is None,
        },
        r matches Some(s) ==> s.wf(),
{
    let x = rust_decimal::Decimal::from_i128_with_scale(a.mantissa, a.scale);
    let y = rust_decimal::Decimal::from_i128_with_scale(b.mantissa, b.scale);
    match x.checked_add(y) {
        Some(s) => Some(Amount { mantissa: s.mantissa(), scale: s.scale() }),
        None => None,
    }
}

} // verus!
