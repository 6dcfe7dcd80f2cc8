//! A table-driven shaper: a deterministic `MathShaper` backed by a vector of
//! MATH constants and uniform glyph metrics. Shaping maps each character to
//! one glyph (its code point); a stretched variant encodes its target size in
//! the glyph identifier, so its metrics span exactly the requested size, and
//! exists only up to a configurable maximum. Useful wherever a real font
//! backend is not wanted: every trait obligation is proved, not assumed.

use vstd::prelude::*;
use crate::geom::{Extents, Point, half, sat};
use crate::math_box::MathBox;
use crate::shaper::{
    CornerPosition, GlyphMetrics, MathConstant, MathShaper, ShapedGlyph, MAX_CONSTANT,
    MAX_EM_SIZE,
};
use crate::style::LayoutStyle;

verus! {

/// Glyph identifiers at or above this mark are vertically stretched variants;
/// the target height is the identifier minus the mark.
pub const VERTICAL_STRETCH_MARK: u32 = 0x8000_0000;

/// Glyph identifiers at or above this mark (and below the vertical mark) are
/// horizontally stretched variants.
pub const HORIZONTAL_STRETCH_MARK: u32 = 0x4000_0000;

/// Largest stretch target a variant can encode.
pub const MAX_STRETCH_TARGET: u64 = 0x3000_0000;

/// The slot of each MATH constant in the metrics table.
pub open spec fn constant_slot_spec(c: MathConstant) -> int {
    match c {
        MathConstant::AccentBaseHeight => 0,
        MathConstant::AxisHeight => 1,
        MathConstant::DisplayOperatorMinHeight => 2,
        MathConstant::FractionDenomDisplayStyleGapMin => 3,
        MathConstant::FractionDenominatorDisplayStyleShiftDown => 4,
        MathConstant::FractionDenominatorGapMin => 5,
        MathConstant::FractionDenominatorShiftDown => 6,
        MathConstant::FractionNumDisplayStyleGapMin => 7,
        MathConstant::FractionNumeratorDisplayStyleShiftUp => 8,
        MathConstant::FractionNumeratorGapMin => 9,
        MathConstant::FractionNumeratorShiftUp => 10,
        MathConstant::FractionRuleThickness => 11,
        MathConstant::LowerLimitBaselineDropMin => 12,
        MathConstant::LowerLimitGapMin => 13,
        MathConstant::OverbarVerticalGap => 14,
        MathConstant::RadicalDegreeBottomRaisePercent => 15,
        MathConstant::RadicalDisplayStyleVerticalGap => 16,
        MathConstant::RadicalExtraAscender => 17,
        MathConstant::RadicalKernAfterDegree => 18,
        MathConstant::RadicalKernBeforeDegree => 19,
        MathConstant::RadicalRuleThickness => 20,
        MathConstant::RadicalVerticalGap => 21,
        MathConstant::SpaceAfterScript => 22,
        MathConstant::StretchStackBottomShiftDown => 23,
        MathConstant::StretchStackGapAboveMin => 24,
        MathConstant::StretchStackGapBelowMin => 25,
        MathConstant::StretchStackTopShiftUp => 26,
        MathConstant::SubSuperscriptGapMin => 27,
        MathConstant::SubscriptBaselineDropMin => 28,
        MathConstant::SubscriptShiftDown => 29,
        MathConstant::SubscriptTopMax => 30,
        MathConstant::SuperscriptBaselineDropMax => 31,
        MathConstant::SuperscriptBottomMaxWithSubscript => 32,
        MathConstant::SuperscriptBottomMin => 33,
        MathConstant::SuperscriptShiftUp => 34,
        MathConstant::SuperscriptShiftUpCramped => 35,
        MathConstant::UnderbarVerticalGap => 36,
        MathConstant::UpperLimitBaselineRiseMin => 37,
        MathConstant::UpperLimitGapMin => 38,
    }
}

/// The slot of each MATH constant in the metrics table.
pub fn constant_slot(c: MathConstant) -> (r: usize)
    ensures
        r as int == constant_slot_spec(c),
        r < 64,
{
    match c {
        MathConstant::AccentBaseHeight => 0,
        MathConstant::AxisHeight => 1,
        MathConstant::DisplayOperatorMinHeight => 2,
        MathConstant::FractionDenomDisplayStyleGapMin => 3,
        MathConstant::FractionDenominatorDisplayStyleShiftDown => 4,
        MathConstant::FractionDenominatorGapMin => 5,
        MathConstant::FractionDenominatorShiftDown => 6,
        MathConstant::FractionNumDisplayStyleGapMin => 7,
        MathConstant::FractionNumeratorDisplayStyleShiftUp => 8,
        MathConstant::FractionNumeratorGapMin => 9,
        MathConstant::FractionNumeratorShiftUp => 10,
        MathConstant::FractionRuleThickness => 11,
        MathConstant::LowerLimitBaselineDropMin => 12,
        MathConstant::LowerLimitGapMin => 13,
        MathConstant::OverbarVerticalGap => 14,
        MathConstant::RadicalDegreeBottomRaisePercent => 15,
        MathConstant::RadicalDisplayStyleVerticalGap => 16,
        MathConstant::RadicalExtraAscender => 17,
        MathConstant::RadicalKernAfterDegree => 18,
        MathConstant::RadicalKernBeforeDegree => 19,
        MathConstant::RadicalRuleThickness => 20,
        MathConstant::RadicalVerticalGap => 21,
        MathConstant::SpaceAfterScript => 22,
        MathConstant::StretchStackBottomShiftDown => 23,
        MathConstant::StretchStackGapAboveMin => 24,
        MathConstant::StretchStackGapBelowMin => 25,
        MathConstant::StretchStackTopShiftUp => 26,
        MathConstant::SubSuperscriptGapMin => 27,
        MathConstant::SubscriptBaselineDropMin => 28,
        MathConstant::SubscriptShiftDown => 29,
        MathConstant::SubscriptTopMax => 30,
        MathConstant::SuperscriptBaselineDropMax => 31,
        MathConstant::SuperscriptBottomMaxWithSubscript => 32,
        MathConstant::SuperscriptBottomMin => 33,
        MathConstant::SuperscriptShiftUp => 34,
        MathConstant::SuperscriptShiftUpCramped => 35,
        MathConstant::UnderbarVerticalGap => 36,
        MathConstant::UpperLimitBaselineRiseMin => 37,
        MathConstant::UpperLimitGapMin => 38,
    }
}

/// Clamping of a stored constant into the range the capability promises.
pub open spec fn clamp_constant(v: int) -> int {
    if v > MAX_CONSTANT as int {
        MAX_CONSTANT as int
    } else if v < -MAX_CONSTANT as int {
        -MAX_CONSTANT as int
    } else {
        v
    }
}

fn clamp_constant_exec(v: i64) -> (r: i64)
    ensures
        r as int == clamp_constant(v as int),
{
    if v > MAX_CONSTANT {
        MAX_CONSTANT
    } else if v < -MAX_CONSTANT {
        -MAX_CONSTANT
    } else {
        v
    }
}

/// The metrics table. Out-of-range entries are clamped on every read, so any
/// value of the struct is a well-behaved shaper.
pub struct FontMetrics {
    /// MATH constants by slot (see `constant_slot`); missing slots read zero.
    pub consts: Vec<i64>,
    /// Design units per em.
    pub em: u32,
    /// Pixels per em.
    pub pixels_per_em: u32,
    /// Percentage scale applied at script levels one and deeper.
    pub script_percent: u32,
    /// Extents of every ordinary glyph.
    pub glyph_extents: Extents,
    /// Advance of every ordinary glyph.
    pub glyph_advance: i64,
    /// Italic correction of every ordinary glyph.
    pub glyph_italic: i64,
    /// Largest stretch target for which a variant exists; zero models a font
    /// without stretched variants.
    pub max_stretch: u64,
    /// Width (and advance) of vertically stretched variants.
    pub stretch_width: i64,
    /// Math kerning returned for every corner query.
    pub kern_value: i64,
}

impl FontMetrics {
    /// A plain table: every constant zero, reasonable glyph metrics.
    pub fn new(em: u32, pixels_per_em: u32) -> (r: FontMetrics)
        ensures
            r.em == em,
            r.pixels_per_em == pixels_per_em,
            r.consts@.len() == 64,
            forall|i: int| 0 <= i < 64 ==> r.consts@[i] == 0,
    {
        let consts = vec![0i64; 64];
        FontMetrics {
            consts,
            em,
            pixels_per_em,
            script_percent: 70,
            glyph_extents: Extents { left_side_bearing: 0, width: 500, ascent: 700, descent: 200 },
            glyph_advance: 500,
            glyph_italic: 0,
            max_stretch: 0x10_0000,
            stretch_width: 500,
            kern_value: 0,
        }
    }

    /// Set one MATH constant's table entry.
    pub fn set_constant(&mut self, c: MathConstant, v: i64)
        requires
            old(self).consts@.len() == 64,
        ensures
            final (self).consts@.len() == 64,
            final (self).consts@ == old(self).consts@.update(constant_slot_spec(c), v),
            *final (self) == (FontMetrics { consts: final (self).consts, ..*old(self) }),
    {
        let slot = constant_slot(c);
        self.consts.set(slot, v);
    }
}

impl MathShaper for FontMetrics {
    open spec fn constant_spec(&self, c: MathConstant) -> int {
        let slot = constant_slot_spec(c);
        if slot < self.consts@.len() {
            clamp_constant(self.consts@[slot] as int)
        } else {
            0
        }
    }

    open spec fn em_size_spec(&self) -> int {
        if self.em < 1 {
            1
        } else if self.em > MAX_EM_SIZE {
            MAX_EM_SIZE as int
        } else {
            self.em as int
        }
    }

    open spec fn ppem_spec(&self) -> int {
        if self.pixels_per_em < 1 {
            1
        } else if self.pixels_per_em > MAX_EM_SIZE {
            MAX_EM_SIZE as int
        } else {
            self.pixels_per_em as int
        }
    }

    open spec fn scale_spec(&self, script_level: u32) -> int {
        if script_level == 0 {
            100
        } else if self.script_percent < 1 {
            1
        } else if self.script_percent > 100 {
            100
        } else {
            self.script_percent as int
        }
    }

    open spec fn metrics_spec(&self, glyph: u32) -> GlyphMetrics {
        if glyph >= VERTICAL_STRETCH_MARK {
            let height = (glyph - VERTICAL_STRETCH_MARK) as int;
            GlyphMetrics {
                extents: Extents {
                    left_side_bearing: 0,
                    width: self.stretch_width,
                    ascent: height as i64,
                    descent: 0,
                },
                advance: self.stretch_width,
                italic_correction: 0,
                top_accent_attachment: (half(self.stretch_width as int)) as i64,
            }
        } else if glyph >= HORIZONTAL_STRETCH_MARK {
            let width = (glyph - HORIZONTAL_STRETCH_MARK) as int;
            GlyphMetrics {
                extents: Extents {
                    left_side_bearing: 0,
                    width: width as i64,
                    ascent: self.glyph_extents.ascent,
                    descent: self.glyph_extents.descent,
                },
                advance: width as i64,
                italic_correction: 0,
                top_accent_attachment: (half(width)) as i64,
            }
        } else {
            GlyphMetrics {
                extents: self.glyph_extents,
                advance: self.glyph_advance,
                italic_correction: self.glyph_italic,
                top_accent_attachment: (half(self.glyph_extents.width as int)) as i64,
            }
        }
    }

    open spec fn shape_spec(&self, s: Seq<char>, style: LayoutStyle) -> Seq<ShapedGlyph> {
        Seq::new(
            s.len(),
            |i: int|
                ShapedGlyph {
                    glyph: s[i] as u32,
                    origin: Point { x: 0, y: 0 },
                    advance: Point { x: self.glyph_advance, y: 0 },
                },
        )
    }

    open spec fn stretch_spec(
        &self,
        glyph: u32,
        horizontal: bool,
        as_accent: bool,
        target: u64,
    ) -> Option<Seq<ShapedGlyph>> {
        if target > self.max_stretch || target > MAX_STRETCH_TARGET {
            None
        } else if horizontal {
            Some(
                seq![
                    ShapedGlyph {
                        glyph: (HORIZONTAL_STRETCH_MARK + target) as u32,
                        origin: Point { x: 0, y: 0 },
                        advance: Point { x: target as i64, y: 0 },
                    }
                ],
            )
        } else {
            Some(
                seq![
                    ShapedGlyph {
                        glyph: (VERTICAL_STRETCH_MARK + target) as u32,
                        origin: Point { x: 0, y: 0 },
                        advance: Point { x: self.stretch_width, y: 0 },
                    }
                ],
            )
        }
    }

    open spec fn kerning_spec(
        &self,
        glyph: u32,
        corner: CornerPosition,
        correction_height: i64,
    ) -> int {
        clamp_constant(self.kern_value as int)
    }

    fn math_constant(&self, c: MathConstant) -> (r: i64) {
        let slot = constant_slot(c);
        if slot < self.consts.len() {
            clamp_constant_exec(self.consts[slot])
        } else {
            0
        }
    }

    fn em_size(&self) -> (r: u32) {
        if self.em < 1 {
            1
        } else if self.em > MAX_EM_SIZE {
            MAX_EM_SIZE
        } else {
            self.em
        }
    }

    fn ppem(&self) -> (r: (u32, u32)) {
        let p = if self.pixels_per_em < 1 {
            1
        } else if self.pixels_per_em > MAX_EM_SIZE {
            MAX_EM_SIZE
        } else {
            self.pixels_per_em
        };
        (p, p)
    }

    fn scale_factor_for_script_level(&self, script_level: u32) -> (r: u32) {
        if script_level == 0 {
            100
        } else if self.script_percent < 1 {
            1
        } else if self.script_percent > 100 {
            100
        } else {
            self.script_percent
        }
    }

    fn shape_string(&self, s: &str, style: LayoutStyle) -> (r: Vec<ShapedGlyph>) {
        let n = s.unicode_len();
        let mut out: Vec<ShapedGlyph> = Vec::new();
        let mut i: usize = 0;
        while i < n
            invariant
                i <= n,
                n == s@.len(),
                out@.len() == i,
                forall|j: int| 0 <= j < i ==> out@[j] == self.shape_spec(s@, style)[j],
            decreases n - i,
        {
            let c = s.get_char(i);
            out.push(
                ShapedGlyph {
                    glyph: c as u32,
                    origin: Point { x: 0, y: 0 },
                    advance: Point { x: self.glyph_advance, y: 0 },
                },
            );
            i += 1;
        }
        proof {
            assert(out@ =~= self.shape_spec(s@, style));
        }
        out
    }

    fn glyph_metrics(&self, glyph: u32) -> (r: GlyphMetrics) {
        if glyph >= VERTICAL_STRETCH_MARK {
            let height = (glyph - VERTICAL_STRETCH_MARK) as i64;
            GlyphMetrics {
                extents: Extents {
                    left_side_bearing: 0,
                    width: self.stretch_width,
                    ascent: height,
                    descent: 0,
                },
                advance: self.stretch_width,
                italic_correction: 0,
                top_accent_attachment: crate::geom::div2(self.stretch_width),
            }
        } else if glyph >= HORIZONTAL_STRETCH_MARK {
            let width = (glyph - HORIZONTAL_STRETCH_MARK) as i64;
            GlyphMetrics {
                extents: Extents {
                    left_side_bearing: 0,
                    width,
                    ascent: self.glyph_extents.ascent,
                    descent: self.glyph_extents.descent,
                },
                advance: width,
                italic_correction: 0,
                top_accent_attachment: crate::geom::div2(width),
            }
        } else {
            GlyphMetrics {
                extents: self.glyph_extents,
                advance: self.glyph_advance,
                italic_correction: self.glyph_italic,
                top_accent_attachment: crate::geom::div2(self.glyph_extents.width),
            }
        }
    }

    fn stretch_glyph(&self, glyph: u32, horizontal: bool, as_accent: bool, target: u64) -> (r:
        Option<Vec<ShapedGlyph>>) {
        if target > self.max_stretch || target > MAX_STRETCH_TARGET {
            return None;
        }
        if horizontal {
            let mut v: Vec<ShapedGlyph> = Vec::new();
            v.push(
                ShapedGlyph {
                    glyph: HORIZONTAL_STRETCH_MARK + target as u32,
                    origin: Point { x: 0, y: 0 },
                    advance: Point { x: target as i64, y: 0 },
                },
            );
            proof {
                assert(v@ =~= self.stretch_spec(glyph, horizontal, as_accent, target)->Some_0);
            }
            Some(v)
        } else {
            let mut v: Vec<ShapedGlyph> = Vec::new();
            v.push(
                ShapedGlyph {
                    glyph: VERTICAL_STRETCH_MARK + target as u32,
                    origin: Point { x: 0, y: 0 },
                    advance: Point { x: self.stretch_width, y: 0 },
                },
            );
            proof {
                assert(v@ =~= self.stretch_spec(glyph, horizontal, as_accent, target)->Some_0);
            }
            Some(v)
        }
    }

    fn math_kerning(&self, glyph: u32, corner: CornerPosition, correction_height: i64) -> (r:
        i64) {
        clamp_constant_exec(self.kern_value)
    }
}

} // verus!
