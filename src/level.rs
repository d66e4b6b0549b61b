use vstd::prelude::*;

verus! {

/// An exact rational number `num / den`: a brightness (where it must lie in [0, 1]) or a
/// normalized analog reading (which may lie outside it).
#[derive(Clone, Copy, Debug, PartialEq, Eq, Structural)]
pub struct Fraction {
    pub num: i64,
    pub den: u32,
}

/// The hardware byte of a level in [0, 1]: `num * 255 / den`, rounded half up.
pub open spec fn byte_of(level: Fraction) -> u8 {
    ((510 * level.num + level.den) / (2 * level.den)) as u8
}

impl Fraction {
    /// A valid brightness: a positive denominator and `0 <= num / den <= 1`.
    pub open spec fn is_unit(self) -> bool {
        self.den > 0 && 0 <= self.num <= self.den
    }

    /// `self` and `other` denote the same rational number.
    pub open spec fn same_value(self, other: Fraction) -> bool {
        self.num * other.den == other.num * self.den
    }

    /// Full brightness, 1/1.
    pub fn full() -> (r: Fraction)
        ensures
            r == (Fraction { num: 1, den: 1 }),
    {
        Fraction { num: 1, den: 1 }
    }

    /// Off, 0/1.
    pub fn zero() -> (r: Fraction)
        ensures
            r == (Fraction { num: 0, den: 1 }),
    {
        Fraction { num: 0, den: 1 }
    }

    /// Whether this is a valid brightness.
    pub fn in_unit_range(&self) -> (r: bool)
        ensures
            r == self.is_unit(),
    {
        self.den > 0 && 0 <= self.num && self.num <= self.den as i64
    }

    /// The hardware byte of a brightness.
    pub fn to_byte(&self) -> (r: u8)
        requires
            self.is_unit(),
        ensures
            r == byte_of(*self),
            r as int == (510 * self.num + self.den) / (2 * self.den),
    {
        let num = self.num as u64;
        let den = self.den as u64;
        proof {
            assert(0 <= 510 * num + den <= 511 * den) by (nonlinear_arith)
                requires
                    num <= den,
            ;
            assert((510 * num + den) / (2 * den) <= 255) by (nonlinear_arith)
                requires
                    num <= den,
                    den > 0,
            ;
        }
        ((510 * num + den) / (2 * den)) as u8
    }
}

/// The level that mirrors a boolean state: full when on, zero when off.
pub open spec fn level_of(on: bool) -> Fraction {
    if on {
        Fraction { num: 1, den: 1 }
    } else {
        Fraction { num: 0, den: 1 }
    }
}

/// The exec form of [`level_of`].
pub fn level_for(on: bool) -> (r: Fraction)
    ensures
        r == level_of(on),
{
    if on {
        Fraction::full()
    } else {
        Fraction::zero()
    }
}

} // verus!
