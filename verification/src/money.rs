//! Money amounts as the decimal numbers of `rust_decimal`: a signed mantissa
//! of at most 96 bits and a scale (the number of fractional digits) of at
//! most 28. The arithmetic is `rust_decimal`'s own.

use vstd::prelude::*;
use rust_decimal::Decimal;

verus! {

/// The largest mantissa magnitude a decimal can hold, `2^96 - 1`.
pub const MAX_MANTISSA: i128 = 0x0000_0000_FFFF_FFFF_FFFF_FFFF_FFFF_FFFF;

/// The largest scale a decimal can hold.
pub const MAX_SCALE: u32 = 28;

/// A decimal amount: `mantissa / 10^scale`.
#[derive(Debug, Clone, Copy, PartialEq, Eq)]
pub struct Money {
    pub mantissa: i128,
    pub scale: u32,
}

/// Whether a balance goes up or down by an amount.
#[derive(Debug, Clone, Copy, PartialEq, Eq)]
pub enum Direction {
    Increase,
    Decrease,
}

impl Money {
    /// The parts describe a decimal that `rust_decimal` can hold.
    pub open spec fn wf(self) -> bool {
        &&& -MAX_MANTISSA <= self.mantissa <= MAX_MANTISSA
        &&& self.scale <= MAX_SCALE
    }

    /// The amount in units of `10^-28`, an exact integer for every
    /// well-formed amount.
    pub open spec fn units(self) -> int {
        self.mantissa * vstd::arithmetic::power::pow(10, (MAX_SCALE - self.scale) as nat)
    }

    /// The mantissa fits in 64 bits, where `rust_decimal` adds and subtracts
    /// amounts of equal scale exactly.
    pub open spec fn is_small(self) -> bool {
        -0x1_0000_0000_0000_0000 < self.mantissa < 0x1_0000_0000_0000_0000
    }

    /// The amount zero at scale zero.
    pub fn zero() -> (r: Money)
        ensures
            r.mantissa == 0,
            r.scale == 0,
            r.wf(),
    {
        Money { mantissa: 0, scale: 0 }
    }
}

/// The amount described by the parts `rust_decimal` hands back, if any.
pub open spec fn money_of(parts: Option<(i128, u32)>) -> Option<Money> {
    match parts {
        Some((m, s)) => Some(Money { mantissa: m, scale: s }),
        None => None,
    }
}

/// What `Decimal::checked_add` gives for the two decimals with the given
/// parts, as parts (mantissa, scale).
pub uninterp spec fn decimal_checked_add(a_mantissa: i128, a_scale: u32, b_mantissa: i128, b_scale: u32) -> Option<(i128, u32)>;

/// What `Decimal::checked_sub` gives for the two decimals with the given
/// parts, as parts (mantissa, scale).
pub uninterp spec fn decimal_checked_sub(a_mantissa: i128, a_scale: u32, b_mantissa: i128, b_scale: u32) -> Option<(i128, u32)>;

/// The larger of the two amounts' scales.
pub open spec fn max_scale(a: Money, b: Money) -> u32 {
    if a.scale >= b.scale {
        a.scale
    } else {
        b.scale
    }
}

/// A value of `units` (in `10^-28`) is held exactly by a decimal at `scale`
/// whose mantissa fits in 96 bits, as far as its size goes.
pub open spec fn representable(units: int, scale: u32) -> bool {
    let unit = vstd::arithmetic::power::pow(10, (MAX_SCALE - scale) as nat);
    -MAX_MANTISSA * unit <= units <= MAX_MANTISSA * unit
}

/// The exact sum of the two amounts is held by a decimal at the larger scale.
pub open spec fn sum_fits(a: Money, b: Money) -> bool {
    representable(a.units() + b.units(), max_scale(a, b))
}

/// The exact difference of the two amounts is held by a decimal at the
/// larger scale.
pub open spec fn difference_fits(a: Money, b: Money) -> bool {
    representable(a.units() - b.units(), max_scale(a, b))
}

/// The exact value, in `10^-28`, of a balance moved by an amount.
pub open spec fn step_units(balance: Money, direction: Direction, amount: Money) -> int {
    match direction {
        Direction::Increase => balance.units() + amount.units(),
        Direction::Decrease => balance.units() - amount.units(),
    }
}

/// The sum of two amounts of equal scale, at that scale.
pub open spec fn same_scale_sum(a: Money, b: Money) -> Money {
    Money { mantissa: (a.mantissa + b.mantissa) as i128, scale: a.scale }
}

/// The difference of two amounts of equal scale, at that scale.
pub open spec fn same_scale_difference(a: Money, b: Money) -> Money {
    Money { mantissa: (a.mantissa - b.mantissa) as i128, scale: a.scale }
}

/// The negation of an amount.
pub open spec fn negated(a: Money) -> Money {
    Money { mantissa: (-a.mantissa) as i128, scale: a.scale }
}

/// Calls `Decimal::checked_add` on the two amounts. `None` means the sum
/// overflows, where `+` panics. The result is the named `decimal_checked_add`:
/// a zero left operand yields the right operand, a zero right operand yields
/// the left one, two amounts of equal scale whose mantissas fit in 64 bits add
/// exactly at that scale, and a sum that a decimal at the larger scale holds
/// is computed exactly (the crate rounds only a sum that needs more than 96
/// bits there).
#[verifier::external_body]
pub(crate) fn money_checked_add(a: Money, b: Money) -> (r: Option<Money>)
    requires
        a.wf(),
        b.wf(),
    ensures
        r == money_of(decimal_checked_add(a.mantissa, a.scale, b.mantissa, b.scale)),
        r is Some ==> r->Some_0.wf(),
        a.mantissa == 0 ==> r == Some(b),
        a.mantissa != 0 && b.mantissa == 0 ==> r == Some(a),
        a.scale == b.scale && a.is_small() && b.is_small() ==> r == Some(same_scale_sum(a, b)),
        sum_fits(a, b) ==> r is Some && r->Some_0.units() == a.units() + b.units(),
{
    Decimal::from_i128_with_scale(a.mantissa, a.scale).checked_add(
        Decimal::from_i128_with_scale(b.mantissa, b.scale),
    ).map(|d| Money { mantissa: d.mantissa(), scale: d.scale() })
}

/// Calls `Decimal::checked_sub` on the two amounts. `None` means the
/// difference overflows, where `-` panics. The result is the named
/// `decimal_checked_sub`: a zero left operand yields the negated right
/// operand, a zero right operand yields the left one, two amounts of equal
/// scale whose mantissas fit in 64 bits subtract exactly at that scale, and a
/// difference that a decimal at the larger scale holds is computed exactly.
#[verifier::external_body]
pub(crate) fn money_checked_sub(a: Money, b: Money) -> (r: Option<Money>)
    requires
        a.wf(),
        b.wf(),
    ensures
        r == money_of(decimal_checked_sub(a.mantissa, a.scale, b.mantissa, b.scale)),
        r is Some ==> r->Some_0.wf(),
        a.mantissa == 0 ==> r == Some(negated(b)),
        a.mantissa != 0 && b.mantissa == 0 ==> r == Some(a),
        a.scale == b.scale && a.is_small() && b.is_small() ==> r == Some(
            same_scale_difference(a, b),
        ),
        difference_fits(a, b) ==> r is Some && r->Some_0.units() == a.units() - b.units(),
{
    Decimal::from_i128_with_scale(a.mantissa, a.scale).checked_sub(
        Decimal::from_i128_with_scale(b.mantissa, b.scale),
    ).map(|d| Money { mantissa: d.mantissa(), scale: d.scale() })
}

/// The balance after moving it by `amount` in `direction`, as `rust_decimal`
/// computes it: its sum for an increase, its difference for a decrease.
pub open spec fn moved(balance: Money, direction: Direction, amount: Money) -> Option<Money> {
    match direction {
        Direction::Increase => money_of(
            decimal_checked_add(balance.mantissa, balance.scale, amount.mantissa, amount.scale),
        ),
        Direction::Decrease => money_of(
            decimal_checked_sub(balance.mantissa, balance.scale, amount.mantissa, amount.scale),
        ),
    }
}

/// Moves `balance` by `amount` in `direction`; `None` when `rust_decimal`
/// reports an overflow.
pub fn move_balance(balance: Money, direction: Direction, amount: Money) -> (r: Option<Money>)
    requires
        balance.wf(),
        amount.wf(),
    ensures
        r == moved(balance, direction, amount),
        r is Some ==> r->Some_0.wf(),
        amount.mantissa == 0 && balance.mantissa != 0 ==> r == Some(balance),
        representable(step_units(balance, direction, amount), max_scale(balance, amount)) ==> (r matches Some(
            m,
        ) && m.units() == step_units(balance, direction, amount)),
        balance.mantissa == 0 ==> r == Some(
            match direction {
                Direction::Increase => amount,
                Direction::Decrease => negated(amount),
            },
        ),
        balance.scale == amount.scale && balance.is_small() && amount.is_small() ==> r == Some(
            match direction {
                Direction::Increase => same_scale_sum(balance, amount),
                Direction::Decrease => same_scale_difference(balance, amount),
            },
        ),
{
    match direction {
        Direction::Increase => money_checked_add(balance, amount),
        Direction::Decrease => money_checked_sub(balance, amount),
    }
}

/// The opposite direction.
pub open spec fn opposite(direction: Direction) -> Direction {
    match direction {
        Direction::Increase => Direction::Decrease,
        Direction::Decrease => Direction::Increase,
    }
}

} // verus!
