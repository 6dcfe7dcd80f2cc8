//! Configured lengths and their conversion to font units.
//!
//! A `Length` is a non-negative scalar measured in eighteenths of its unit,
//! so the operator dictionary's spacing values (whole eighteenths of an em)
//! are represented exactly. A zero-valued length is the null length; null
//! lengths always convert to zero font units.

use vstd::prelude::*;
use crate::shaper::{MathShaper, MathConstant};

verus! {

/// `a * b / d` on small operands, with the bounds the conversion needs.
fn mul_div(a: u64, b: u64, d: u64) -> (r: u64)
    requires
        a <= 0x200_0000,
        b <= 0x1_0000_0000,
        1 <= d,
    ensures
        r as int == a as int * b as int / d as int,
        r <= 0x200_0000_0000_0000,
{
    proof {
        assert((a as int) * (b as int) <= 0x200_0000_0000_0000 && (a as int) * (b as int) / (
        d as int) <= (a as int) * (b as int)) by (nonlinear_arith)
            requires
                a <= 0x200_0000,
                b <= 0x1_0000_0000,
                1 <= d,
        ;
    }
    (a * b) / d
}

#[derive(Clone, Copy, Debug, PartialEq, Eq, Structural)]
pub enum LengthUnit {
    /// The font's design size.
    Em,
    /// Typographic points, converted through the pixels-per-em divisor.
    Point,
    /// Multiples of the font's minimum display-operator height.
    DisplayOperatorMinHeight,
}

/// A configured length: `eighteenths / 18` of `unit`.
#[derive(Clone, Copy, Debug, PartialEq, Eq, Structural)]
pub struct Length {
    pub unit: LengthUnit,
    pub eighteenths: u32,
}

impl Length {
    pub open spec fn is_null_spec(self) -> bool {
        self.eighteenths == 0
    }

    /// A null length converts to zero and never causes a space node to be
    /// inserted by the operator attribute resolver.
    pub fn is_null(&self) -> (r: bool)
        ensures
            r == self.is_null_spec(),
    {
        self.eighteenths == 0
    }

    pub open spec fn em_spec(eighteenths: u32) -> Length {
        Length { unit: LengthUnit::Em, eighteenths }
    }

    /// An em-relative length of `eighteenths / 18` em.
    pub fn em(eighteenths: u32) -> (r: Length)
        ensures
            r == Length::em_spec(eighteenths),
    {
        Length { unit: LengthUnit::Em, eighteenths }
    }

    /// The value of this length in font design units, given the font's em
    /// size, pixels per em, and its display-operator minimum height constant
    /// (a negative constant counts as zero height). Division truncates.
    pub open spec fn font_units_spec(self, em: int, ppem: int, domh: int) -> int {
        let v = self.eighteenths as int;
        if v == 0 {
            0
        } else {
            match self.unit {
                LengthUnit::Em => em * v / 18,
                LengthUnit::Point => em * v / (18 * ppem),
                LengthUnit::DisplayOperatorMinHeight => if domh >= 0 {
                    domh * v / 18
                } else {
                    0
                },
            }
        }
    }

    /// Convert to font units by querying the shaper for the font parameters.
    pub fn to_font_units<S: MathShaper>(self, shaper: &S) -> (r: i64)
        ensures
            r as int == self.font_units_spec(
                shaper.em_size_spec(),
                shaper.ppem_spec(),
                shaper.constant_spec(MathConstant::DisplayOperatorMinHeight),
            ),
            r >= 0,
    {
        if self.eighteenths == 0 {
            return 0;
        }
        let v: u64 = self.eighteenths as u64;
        match self.unit {
            LengthUnit::Em => {
                let em: u64 = shaper.em_size() as u64;
                mul_div(em, v, 18) as i64
            },
            LengthUnit::Point => {
                let em: u64 = shaper.em_size() as u64;
                let ppem: u64 = shaper.ppem().0 as u64;
                mul_div(em, v, 18 * ppem) as i64
            },
            LengthUnit::DisplayOperatorMinHeight => {
                let c: i64 = shaper.math_constant(MathConstant::DisplayOperatorMinHeight);
                if c >= 0 {
                    mul_div(c as u64, v, 18) as i64
                } else {
                    0
                }
            },
        }
    }
}

} // verus!
