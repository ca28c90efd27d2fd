//! Fixed-point quantities in thousandths of a unit.

use vstd::prelude::*;

verus! {

/// A quantity held as a whole number of thousandths of its unit: degrees
/// Celsius, percent, gigahertz or gibibytes, depending on the field.
#[derive(Clone, Copy, Debug, PartialEq, Eq, Structural)]
pub struct Milli {
    pub thousandths: i128,
}

impl View for Milli {
    type V = int;

    open spec fn view(&self) -> int {
        self.thousandths as int
    }
}

impl DeepView for Milli {
    type V = int;

    open spec fn deep_view(&self) -> int {
        self.thousandths as int
    }
}

/// The quantity of `v` thousandths.
pub open spec fn milli(v: int) -> Milli {
    Milli { thousandths: v as i128 }
}

/// Bytes in one gibibyte.
pub const GIBIBYTE: u64 = 1_073_741_824;

/// Truncating quotient of `n` by a positive `d`: rounds toward zero.
pub open spec fn quotient_toward_zero(n: int, d: int) -> int
    recommends
        d > 0,
{
    if n >= 0 {
        n / d
    } else {
        -((-n) / d)
    }
}

impl Milli {
    /// The quantity zero, which also stands for "not available".
    pub fn zero() -> (r: Milli)
        ensures
            r == milli(0),
    {
        Milli { thousandths: 0 }
    }

    /// The quantity of exactly `thousandths` thousandths.
    pub fn new(thousandths: i128) -> (r: Milli)
        ensures
            r == milli(thousandths as int),
    {
        Milli { thousandths }
    }

    /// A whole number of units.
    pub fn from_units(units: u64) -> (r: Milli)
        ensures
            r == milli(units * 1000),
    {
        let wide: i128 = units as i128;
        Milli { thousandths: wide * 1000 }
    }

    /// A count of thousandths, such as megahertz standing for gigahertz.
    pub fn from_thousandths(count: u64) -> (r: Milli)
        ensures
            r == milli(count as int),
    {
        Milli { thousandths: count as i128 }
    }

    /// A byte count expressed in gibibytes, rounded down to the thousandth.
    pub fn from_bytes(bytes: u64) -> (r: Milli)
        ensures
            r == milli((bytes * 1000) / (GIBIBYTE as int)),
    {
        let wide: i128 = bytes as i128;
        Milli { thousandths: (wide * 1000) / 1_073_741_824 }
    }

    /// Whether the quantity is strictly above zero.
    pub fn is_positive(&self) -> (r: bool)
        ensures
            r == (self@ > 0),
    {
        self.thousandths > 0
    }

    /// The quantity divided by a positive whole number, rounded toward zero.
    pub fn divided_by(&self, divisor: u32) -> (r: Milli)
        requires
            divisor > 0,
        ensures
            r == milli(quotient_toward_zero(self@, divisor as int)),
    {
        let d: i128 = divisor as i128;
        Milli { thousandths: self.thousandths / d }
    }
}

} // verus!
