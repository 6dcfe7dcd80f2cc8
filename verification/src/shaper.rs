//! The shaping capability: the narrow contract through which layout reaches
//! the font. A `MathShaper` exposes the OpenType MATH constants, string
//! shaping, glyph metrics, stretched-glyph synthesis, script scaling and math
//! kerning. Each executable method has a specification-level counterpart, so
//! contracts of layout functions can speak about what the font returned.
//!
//! `FontMetrics` is a simple table-driven shaper useful as a deterministic
//! stand-in for a real font backend.

use vstd::prelude::*;
use crate::geom::{Extents, Point};
use crate::style::LayoutStyle;

verus! {

/// Largest magnitude a MATH table constant may take here; real font constants
/// are a few thousand design units.
pub const MAX_CONSTANT: i64 = 0x100_0000;

/// Largest em size and pixels-per-em value.
pub const MAX_EM_SIZE: u32 = 0x1_0000;

/// The OpenType MATH constants the layout engine reads.
#[derive(Clone, Copy, Debug, PartialEq, Eq, Structural)]
pub enum MathConstant {
    AccentBaseHeight,
    AxisHeight,
    DisplayOperatorMinHeight,
    FractionDenomDisplayStyleGapMin,
    FractionDenominatorDisplayStyleShiftDown,
    FractionDenominatorGapMin,
    FractionDenominatorShiftDown,
    FractionNumDisplayStyleGapMin,
    FractionNumeratorDisplayStyleShiftUp,
    FractionNumeratorGapMin,
    FractionNumeratorShiftUp,
    FractionRuleThickness,
    LowerLimitBaselineDropMin,
    LowerLimitGapMin,
    OverbarVerticalGap,
    RadicalDegreeBottomRaisePercent,
    RadicalDisplayStyleVerticalGap,
    RadicalExtraAscender,
    RadicalKernAfterDegree,
    RadicalKernBeforeDegree,
    RadicalRuleThickness,
    RadicalVerticalGap,
    SpaceAfterScript,
    StretchStackBottomShiftDown,
    StretchStackGapAboveMin,
    StretchStackGapBelowMin,
    StretchStackTopShiftUp,
    SubSuperscriptGapMin,
    SubscriptBaselineDropMin,
    SubscriptShiftDown,
    SubscriptTopMax,
    SuperscriptBaselineDropMax,
    SuperscriptBottomMaxWithSubscript,
    SuperscriptBottomMin,
    SuperscriptShiftUp,
    SuperscriptShiftUpCramped,
    UnderbarVerticalGap,
    UpperLimitBaselineRiseMin,
    UpperLimitGapMin,
}

/// A corner of a box at which an attachment sits.
#[derive(Clone, Copy, Debug, PartialEq, Eq, Structural)]
pub enum CornerPosition {
    TopLeft,
    TopRight,
    BottomLeft,
    BottomRight,
}

impl CornerPosition {
    pub open spec fn is_top_spec(self) -> bool {
        self == CornerPosition::TopLeft || self == CornerPosition::TopRight
    }

    pub fn is_top(self) -> (r: bool)
        ensures
            r == self.is_top_spec(),
    {
        match self {
            CornerPosition::TopLeft | CornerPosition::TopRight => true,
            _ => false,
        }
    }

    pub open spec fn is_left_spec(self) -> bool {
        self == CornerPosition::TopLeft || self == CornerPosition::BottomLeft
    }

    pub fn is_left(self) -> (r: bool)
        ensures
            r == self.is_left_spec(),
    {
        match self {
            CornerPosition::TopLeft | CornerPosition::BottomLeft => true,
            _ => false,
        }
    }

    pub open spec fn diagonal_mirror_spec(self) -> CornerPosition {
        match self {
            CornerPosition::TopLeft => CornerPosition::BottomRight,
            CornerPosition::TopRight => CornerPosition::BottomLeft,
            CornerPosition::BottomLeft => CornerPosition::TopRight,
            CornerPosition::BottomRight => CornerPosition::TopLeft,
        }
    }

    pub fn diagonal_mirror(self) -> (r: CornerPosition)
        ensures
            r == self.diagonal_mirror_spec(),
    {
        match self {
            CornerPosition::TopLeft => CornerPosition::BottomRight,
            CornerPosition::TopRight => CornerPosition::BottomLeft,
            CornerPosition::BottomLeft => CornerPosition::TopRight,
            CornerPosition::BottomRight => CornerPosition::TopLeft,
        }
    }
}

/// One glyph as returned by shaping: its identifier, the offset at which it is
/// placed (shaping convention: y grows upward), and its advance.
#[derive(Clone, Copy, Debug, PartialEq, Eq, Structural)]
pub struct ShapedGlyph {
    pub glyph: u32,
    pub origin: Point,
    pub advance: Point,
}

/// Design-unit metrics of one glyph.
#[derive(Clone, Copy, Debug, PartialEq, Eq, Structural)]
pub struct GlyphMetrics {
    pub extents: Extents,
    pub advance: i64,
    pub italic_correction: i64,
    pub top_accent_attachment: i64,
}

/// The total vertical span (ascent plus descent, at design size) of a shaped
/// glyph run under a per-glyph metrics assignment, taking vertical placement
/// and vertical advances into account: the distance from the topmost ascender
/// to the bottommost descender reached by any glyph of the run.
pub open spec fn run_height(metrics: spec_fn(u32) -> GlyphMetrics, gs: Seq<ShapedGlyph>) -> int {
    run_bottom(metrics, gs, 0) - run_top(metrics, gs, 0)
}

/// Topmost point (negative y is up; result is the minimum y) reached by the
/// run, starting from a vertical cursor position. The cursor itself for an
/// empty run.
pub open spec fn run_top(
    metrics: spec_fn(u32) -> GlyphMetrics,
    gs: Seq<ShapedGlyph>,
    cursor_y: int,
) -> int
    decreases gs.len(),
{
    if gs.len() == 0 {
        cursor_y
    } else {
        let y = crate::geom::sat(
            crate::geom::sat(cursor_y - gs[0].origin.y) - metrics(gs[0].glyph).extents.ascent,
        );
        if gs.len() == 1 {
            y
        } else {
            let rest = run_top(
                metrics,
                gs.drop_first(),
                crate::geom::sat(cursor_y + gs[0].advance.y),
            );
            if y <= rest {
                y
            } else {
                rest
            }
        }
    }
}

/// Bottommost point (maximum y) reached by the run.
pub open spec fn run_bottom(
    metrics: spec_fn(u32) -> GlyphMetrics,
    gs: Seq<ShapedGlyph>,
    cursor_y: int,
) -> int
    decreases gs.len(),
{
    if gs.len() == 0 {
        cursor_y
    } else {
        let y = crate::geom::sat(
            crate::geom::sat(cursor_y - gs[0].origin.y) + metrics(gs[0].glyph).extents.descent,
        );
        if gs.len() == 1 {
            y
        } else {
            let rest = run_bottom(
                metrics,
                gs.drop_first(),
                crate::geom::sat(cursor_y + gs[0].advance.y),
            );
            if y >= rest {
                y
            } else {
                rest
            }
        }
    }
}

/// The capability contract between the layout engine and the font backend.
pub trait MathShaper: Sized {
    /// What the font's MATH table holds for each constant.
    spec fn constant_spec(&self, c: MathConstant) -> int;

    /// The font's design size in design units.
    spec fn em_size_spec(&self) -> int;

    /// Pixels per em (horizontal).
    spec fn ppem_spec(&self) -> int;

    /// The percentage scale applied at a script level.
    spec fn scale_spec(&self, script_level: u32) -> int;

    /// The design-unit metrics of a glyph.
    spec fn metrics_spec(&self, glyph: u32) -> GlyphMetrics;

    /// The glyph run that shaping a string yields.
    spec fn shape_spec(&self, s: Seq<char>, style: LayoutStyle) -> Seq<ShapedGlyph>;

    /// The glyph run that stretching a glyph to a target size yields, when a
    /// stretched variant exists.
    spec fn stretch_spec(
        &self,
        glyph: u32,
        horizontal: bool,
        as_accent: bool,
        target: u64,
    ) -> Option<Seq<ShapedGlyph>>;

    /// The font's math kerning value for a glyph at a corner and correction
    /// height.
    spec fn kerning_spec(&self, glyph: u32, corner: CornerPosition, correction_height: i64) -> int;

    /// A named OpenType MATH constant, in design units.
    fn math_constant(&self, c: MathConstant) -> (r: i64)
        ensures
            r as int == self.constant_spec(c),
            -MAX_CONSTANT <= r <= MAX_CONSTANT,
    ;

    /// The design size; positive and bounded.
    fn em_size(&self) -> (r: u32)
        ensures
            r as int == self.em_size_spec(),
            1 <= r <= MAX_EM_SIZE,
    ;

    /// Pixels per em, horizontal and vertical; positive and bounded.
    fn ppem(&self) -> (r: (u32, u32))
        ensures
            r.0 as int == self.ppem_spec(),
            1 <= r.0 <= MAX_EM_SIZE,
    ;

    /// The percentage scale for a script level; no scaling at the top level.
    fn scale_factor_for_script_level(&self, script_level: u32) -> (r: u32)
        ensures
            r as int == self.scale_spec(script_level),
            1 <= r <= 100,
            script_level == 0 ==> r == 100,
    ;

    /// Shape a string into a finite glyph run.
    fn shape_string(&self, s: &str, style: LayoutStyle) -> (r: Vec<ShapedGlyph>)
        ensures
            r@ == self.shape_spec(s@, style),
    ;

    /// Metrics of one glyph.
    fn glyph_metrics(&self, glyph: u32) -> (r: GlyphMetrics)
        ensures
            r == self.metrics_spec(glyph),
    ;

    /// Ask the font for a variant of `glyph` stretched to at least `target`
    /// design units (height when vertical, width when horizontal); nothing is
    /// returned when no stretched variant exists at or near the target. A
    /// vertical stretch that exists spans at least the target height.
    fn stretch_glyph(&self, glyph: u32, horizontal: bool, as_accent: bool, target: u64) -> (r:
        Option<Vec<ShapedGlyph>>)
        ensures
            match r {
                Some(v) => {
                    &&& self.stretch_spec(glyph, horizontal, as_accent, target) == Some(v@)
                    &&& !horizontal ==> run_height(
                        |g: u32| self.metrics_spec(g),
                        v@,
                    ) >= target
                },
                None => self.stretch_spec(glyph, horizontal, as_accent, target) is None,
            },
    ;

    /// The font's math kerning for a glyph corner at a correction height.
    fn math_kerning(&self, glyph: u32, corner: CornerPosition, correction_height: i64) -> (r: i64)
        ensures
            r as int == self.kerning_spec(glyph, corner, correction_height),
            -MAX_CONSTANT <= r <= MAX_CONSTANT,
    ;
}

} // verus!
