//! Monetary amounts: exact decimals held as a mantissa and a decimal scale,
//! compared and printed through `rust_decimal`.
use vstd::prelude::*;
use vstd::arithmetic::power::pow;

verus! {

/// The largest mantissa magnitude a decimal can hold: 2^96 - 1.
pub const MAX_MANTISSA: i128 = 0xFFFF_FFFF_FFFF_FFFF_FFFF_FFFF;

/// The largest number of fractional digits a decimal can hold.
pub const MAX_SCALE: u32 = 28;

/// The mathematical content of an amount: `mantissa / 10^scale`.
pub struct MoneyView {
    pub mantissa: int,
    pub scale: nat,
}

/// Whether `(mantissa, scale)` is representable as a decimal.
pub open spec fn money_parts_ok(mantissa: int, scale: nat) -> bool {
    &&& scale <= MAX_SCALE
    &&& -MAX_MANTISSA <= mantissa <= MAX_MANTISSA
}

/// `a <= b` as numbers, compared by cross-multiplying with powers of ten.
pub open spec fn money_le(a: MoneyView, b: MoneyView) -> bool {
    a.mantissa * pow(10, b.scale) <= b.mantissa * pow(10, a.scale)
}

/// The decimal digits of `n`, most significant first; none for zero.
pub open spec fn mantissa_digits(n: nat) -> Seq<char>
    decreases n,
{
    if n == 0 {
        seq![]
    } else {
        mantissa_digits(n / 10).push("0123456789"@[(n % 10) as int])
    }
}

/// The text `rust_decimal` prints for `mantissa / 10^scale`: a minus sign
/// for a negative mantissa, then the mantissa's digits, padded with zeros
/// on the left to at least `scale` digits, with a point before the last
/// `scale` of them; an empty whole part is written `0`.
pub open spec fn decimal_text(mantissa: int, scale: nat) -> Seq<char> {
    let ds = mantissa_digits(if mantissa < 0 { -mantissa } else { mantissa } as nat);
    let padded = if ds.len() < scale {
        Seq::new((scale - ds.len()) as nat, |i: int| '0') + ds
    } else {
        ds
    };
    let cut = padded.len() - scale;
    let whole = padded.take(cut);
    let sign = if mantissa < 0 { "-"@ } else { seq![] };
    let whole_text = if whole.len() == 0 { "0"@ } else { whole };
    let fraction = if scale > 0 { "."@ + padded.skip(cut) } else { seq![] };
    sign + whole_text + fraction
}

/// An exact decimal amount of money.
#[derive(Debug)]
pub struct Money {
    mantissa: i128,
    scale: u32,
}

impl View for Money {
    type V = MoneyView;

    closed spec fn view(&self) -> MoneyView {
        MoneyView { mantissa: self.mantissa as int, scale: self.scale as nat }
    }
}

/// Calls `PartialOrd::le` on the two `rust_decimal::Decimal` values built
/// from the parts; the crate compares decimals by numeric value.
#[verifier::external_body]
fn decimal_le(a_mantissa: i128, a_scale: u32, b_mantissa: i128, b_scale: u32) -> (r: bool)
    requires
        money_parts_ok(a_mantissa as int, a_scale as nat),
        money_parts_ok(b_mantissa as int, b_scale as nat),
    ensures
        r == money_le(
            MoneyView { mantissa: a_mantissa as int, scale: a_scale as nat },
            MoneyView { mantissa: b_mantissa as int, scale: b_scale as nat },
        ),
{
    rust_decimal::Decimal::from_i128_with_scale(a_mantissa, a_scale)
        <= rust_decimal::Decimal::from_i128_with_scale(b_mantissa, b_scale)
}

/// Calls `ToString::to_string` on the `rust_decimal::Decimal` built from the
/// parts, which writes the digits with the point placed by the scale.
#[verifier::external_body]
fn decimal_to_string(mantissa: i128, scale: u32) -> (r: String)
    requires
        money_parts_ok(mantissa as int, scale as nat),
    ensures
        r@ == decimal_text(mantissa as int, scale as nat),
{
    rust_decimal::Decimal::from_i128_with_scale(mantissa, scale).to_string()
}

impl Money {
    #[verifier::type_invariant]
    spec fn inv(self) -> bool {
        money_parts_ok(self.mantissa as int, self.scale as nat)
    }

    /// The amount `mantissa / 10^scale`, when the parts are representable.
    pub fn from_parts(mantissa: i128, scale: u32) -> (r: Option<Money>)
        ensures
            r is Some <==> money_parts_ok(mantissa as int, scale as nat),
            r matches Some(m) ==> m@ == (MoneyView { mantissa: mantissa as int, scale: scale as nat }),
    {
        if scale <= MAX_SCALE && -MAX_MANTISSA <= mantissa && mantissa <= MAX_MANTISSA {
            Some(Money { mantissa, scale })
        } else {
            None
        }
    }

    /// Zero.
    pub fn zero() -> (r: Money)
        ensures
            r@ == (MoneyView { mantissa: 0, scale: 0 }),
    {
        Money { mantissa: 0, scale: 0 }
    }

    /// The mantissa.
    pub fn mantissa(&self) -> (r: i128)
        ensures
            r == self@.mantissa,
    {
        self.mantissa
    }

    /// The number of fractional digits.
    pub fn scale(&self) -> (r: u32)
        ensures
            r == self@.scale,
    {
        self.scale
    }

    /// `self <= other` as numbers.
    pub fn le(&self, other: &Money) -> (r: bool)
        ensures
            r == money_le(self@, other@),
    {
        proof {
            use_type_invariant(self);
            use_type_invariant(other);
        }
        decimal_le(self.mantissa, self.scale, other.mantissa, other.scale)
    }

    /// The decimal text of the amount.
    pub fn to_text(&self) -> (r: String)
        ensures
            r@ == decimal_text(self@.mantissa, self@.scale),
    {
        proof {
            use_type_invariant(self);
        }
        decimal_to_string(self.mantissa, self.scale)
    }
}

impl Clone for Money {
    fn clone(&self) -> (r: Money)
        ensures
            r@ == self@,
    {
        proof {
            use_type_invariant(self);
        }
        Money { mantissa: self.mantissa, scale: self.scale }
    }
}

} // verus!
