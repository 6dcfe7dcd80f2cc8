//! Multiscript placement math: pure functions computing vertical shifts and
//! kerning offsets for sub/superscript attachments from already-built boxes'
//! ink extents and font constants. Nothing here mutates a box.

use vstd::prelude::*;
use crate::geom::{Extents, imax, sadd, sat, ssub};
use crate::math_box::{BoxContent, GlyphFragment, MathBox};
use crate::shaper::{CornerPosition, MathConstant, MathShaper, MAX_CONSTANT};
use crate::style::LayoutStyle;

verus! {

/// Every MATH constant the font reports stays within `MAX_CONSTANT`; the
/// executable accessor guarantees this of each value it returns, and the
/// placement laws assume it of the font as a whole.
pub open spec fn constants_bounded<S: MathShaper>(shaper: S) -> bool {
    forall|c: MathConstant| -MAX_CONSTANT <= #[trigger] shaper.constant_spec(c) <= MAX_CONSTANT
}

/// The first glyph drawn inside a box, recursing through box sequences.
pub open spec fn first_glyph_spec<T>(b: MathBox<T>) -> Option<GlyphFragment>
    decreases b,
{
    match b.content {
        BoxContent::Glyph(g) => Some(g),
        BoxContent::Boxes(v) => if v.len() > 0 {
            first_glyph_spec(v@[0])
        } else {
            None
        },
        _ => None,
    }
}

/// The last glyph drawn inside a box.
pub open spec fn last_glyph_spec<T>(b: MathBox<T>) -> Option<GlyphFragment>
    decreases b,
{
    match b.content {
        BoxContent::Glyph(g) => Some(g),
        BoxContent::Boxes(v) => if v.len() > 0 {
            last_glyph_spec(v@.last())
        } else {
            None
        },
        _ => None,
    }
}

pub fn get_first_glyph<T>(math_box: &MathBox<T>) -> (r: Option<GlyphFragment>)
    ensures
        r == first_glyph_spec(*math_box),
    decreases *math_box,
{
    match &math_box.content {
        BoxContent::Glyph(g) => Some(*g),
        BoxContent::Boxes(v) => {
            if v.len() > 0 {
                get_first_glyph(&v[0])
            } else {
                None
            }
        },
        _ => None,
    }
}

pub fn get_last_glyph<T>(math_box: &MathBox<T>) -> (r: Option<GlyphFragment>)
    ensures
        r == last_glyph_spec(*math_box),
    decreases *math_box,
{
    match &math_box.content {
        BoxContent::Glyph(g) => Some(*g),
        BoxContent::Boxes(v) => {
            if v.len() > 0 {
                get_last_glyph(&v[v.len() - 1])
            } else {
                None
            }
        },
        _ => None,
    }
}

/// How far a superscript shifts up: at least the standard shift-up constant
/// (cramped variant in cramped styles), at least far enough to keep the
/// superscript's ink bottom above the bottom-min constant, and no deeper onto
/// the nucleus than the baseline-drop-max constant allows.
pub open spec fn superscript_shift_spec<S: MathShaper>(
    shaper: S,
    sup_ink: Extents,
    nuc_ink: Extents,
    cramped: bool,
) -> int {
    let std_up = shaper.constant_spec(
        if cramped {
            MathConstant::SuperscriptShiftUpCramped
        } else {
            MathConstant::SuperscriptShiftUp
        },
    );
    let min_up = sat(sup_ink.descent + shaper.constant_spec(MathConstant::SuperscriptBottomMin));
    let drop = sat(nuc_ink.ascent - shaper.constant_spec(MathConstant::SuperscriptBaselineDropMax));
    let inner = if std_up >= min_up {
        std_up
    } else {
        min_up
    };
    if drop >= inner {
        drop
    } else {
        inner
    }
}

pub fn get_superscript_shift_up<T, S: MathShaper>(
    superscript: &MathBox<T>,
    nucleus: &MathBox<T>,
    shaper: &S,
    style: LayoutStyle,
) -> (r: i64)
    ensures
        r as int == superscript_shift_spec(
            *shaper,
            superscript.ink_extents,
            nucleus.ink_extents,
            style.is_cramped,
        ),
{
    let std_shift_up = shaper.math_constant(
        if style.is_cramped {
            MathConstant::SuperscriptShiftUpCramped
        } else {
            MathConstant::SuperscriptShiftUp
        },
    );
    let min_shift_up = sadd(
        superscript.ink_extents.descent,
        shaper.math_constant(MathConstant::SuperscriptBottomMin),
    );
    let min_shift_from_baseline_drop = ssub(
        nucleus.ink_extents.ascent,
        shaper.math_constant(MathConstant::SuperscriptBaselineDropMax),
    );
    imax(min_shift_from_baseline_drop, imax(std_shift_up, min_shift_up))
}

/// How far a subscript shifts down: at least the standard shift-down constant,
/// at least the nucleus descent plus the baseline-drop-min constant, and far
/// enough to keep the subscript's ink top below the top-max constant.
pub open spec fn subscript_shift_spec<S: MathShaper>(
    shaper: S,
    sub_ink: Extents,
    nuc_ink: Extents,
) -> int {
    let drop = sat(nuc_ink.descent + shaper.constant_spec(MathConstant::SubscriptBaselineDropMin));
    let std_dn = shaper.constant_spec(MathConstant::SubscriptShiftDown);
    let min_dn = sat(sub_ink.ascent - shaper.constant_spec(MathConstant::SubscriptTopMax));
    let inner = if std_dn >= min_dn {
        std_dn
    } else {
        min_dn
    };
    if drop >= inner {
        drop
    } else {
        inner
    }
}

pub fn get_subscript_shift_dn<T, S: MathShaper>(
    subscript: &MathBox<T>,
    nucleus: &MathBox<T>,
    shaper: &S,
) -> (r: i64)
    ensures
        r as int == subscript_shift_spec(*shaper, subscript.ink_extents, nucleus.ink_extents),
{
    let min_shift_dn_from_baseline_drop = sadd(
        nucleus.ink_extents.descent,
        shaper.math_constant(MathConstant::SubscriptBaselineDropMin),
    );
    let std_shift_dn = shaper.math_constant(MathConstant::SubscriptShiftDown);
    let min_shift_dn = ssub(
        subscript.ink_extents.ascent,
        shaper.math_constant(MathConstant::SubscriptTopMax),
    );
    imax(min_shift_dn_from_baseline_drop, imax(std_shift_dn, min_shift_dn))
}

/// Combined shifts when both scripts are present: each shift is computed
/// independently; if the gap between the superscript's ink bottom and the
/// subscript's ink top falls short of the gap-min constant, the superscript
/// is raised first, up to the bottom-max-with-subscript constant, and only
/// the remainder pushes the subscript down.
pub open spec fn subsup_shifts_spec<S: MathShaper>(
    shaper: S,
    sub_ink: Extents,
    sup_ink: Extents,
    nuc_ink: Extents,
    cramped: bool,
) -> (int, int) {
    let super_shift = superscript_shift_spec(shaper, sup_ink, nuc_ink, cramped);
    let sub_shift = subscript_shift_spec(shaper, sub_ink, nuc_ink);
    let gap_min = shaper.constant_spec(MathConstant::SubSuperscriptGapMin);
    let bottom_max = shaper.constant_spec(MathConstant::SuperscriptBottomMaxWithSubscript);
    let super_bottom = sat(super_shift - sup_ink.descent);
    let sub_top = sat(sub_ink.ascent - sub_shift);
    let gap = sat(super_bottom - sub_top);
    if gap < gap_min {
        let needed = sat(gap_min - gap);
        let super_max_additional = sat(bottom_max - super_bottom);
        if needed <= super_max_additional {
            (sub_shift, sat(super_shift + needed))
        } else {
            (sat(sub_shift + sat(needed - super_max_additional)), sat(
                super_shift + super_max_additional,
            ))
        }
    } else {
        (sub_shift, super_shift)
    }
}

/// Compute both script shifts; the first component is the subscript shift
/// down, the second the superscript shift up.
pub fn get_subsup_shifts<T, S: MathShaper>(
    subscript: &MathBox<T>,
    superscript: &MathBox<T>,
    nucleus: &MathBox<T>,
    shaper: &S,
    style: LayoutStyle,
) -> (r: (i64, i64))
    ensures
        (r.0 as int, r.1 as int) == subsup_shifts_spec(
            *shaper,
            subscript.ink_extents,
            superscript.ink_extents,
            nucleus.ink_extents,
            style.is_cramped,
        ),
{
    let mut super_shift = get_superscript_shift_up(superscript, nucleus, shaper, style);
    let mut sub_shift = get_subscript_shift_dn(subscript, nucleus, shaper);
    let subsup_gap_min = shaper.math_constant(MathConstant::SubSuperscriptGapMin);
    let super_bottom_max = shaper.math_constant(
        MathConstant::SuperscriptBottomMaxWithSubscript,
    );
    let super_bottom = ssub(super_shift, superscript.ink_extents.descent);
    let sub_top = ssub(subscript.ink_extents.ascent, sub_shift);
    let gap = ssub(super_bottom, sub_top);
    if gap < subsup_gap_min {
        let needed_space = ssub(subsup_gap_min, gap);
        let super_max_additional_shift = ssub(super_bottom_max, super_bottom);
        if needed_space <= super_max_additional_shift {
            super_shift = sadd(super_shift, needed_space);
        } else {
            super_shift = sadd(super_shift, super_max_additional_shift);
            sub_shift = sadd(sub_shift, ssub(needed_space, super_max_additional_shift));
        }
    }
    (sub_shift, super_shift)
}

/// Sub/superscript non-collision: for any nucleus, subscript and superscript
/// of bounded size under a font with bounded constants, the computed shifts
/// leave at least the gap-min constant between the superscript's ink bottom
/// and the subscript's ink top.
pub proof fn lemma_subsup_no_collision<S: MathShaper>(
    shaper: S,
    sub_ink: Extents,
    sup_ink: Extents,
    nuc_ink: Extents,
    cramped: bool,
)
    requires
        constants_bounded(shaper),
        -0x4000_0000_0000 <= sub_ink.ascent <= 0x4000_0000_0000,
        -0x4000_0000_0000 <= sup_ink.descent <= 0x4000_0000_0000,
        -0x4000_0000_0000 <= nuc_ink.ascent <= 0x4000_0000_0000,
        -0x4000_0000_0000 <= nuc_ink.descent <= 0x4000_0000_0000,
    ensures
        ({
            let (sub_shift, super_shift) = subsup_shifts_spec(
                shaper,
                sub_ink,
                sup_ink,
                nuc_ink,
                cramped,
            );
            (super_shift - sup_ink.descent) - (sub_ink.ascent - sub_shift)
                >= shaper.constant_spec(MathConstant::SubSuperscriptGapMin)
        }),
{
    assert(-MAX_CONSTANT <= shaper.constant_spec(MathConstant::SubSuperscriptGapMin)
        <= MAX_CONSTANT);
    assert(-MAX_CONSTANT <= shaper.constant_spec(MathConstant::SuperscriptBottomMaxWithSubscript)
        <= MAX_CONSTANT);
    assert(-MAX_CONSTANT <= shaper.constant_spec(MathConstant::SuperscriptShiftUp) <= MAX_CONSTANT);
    assert(-MAX_CONSTANT <= shaper.constant_spec(MathConstant::SuperscriptShiftUpCramped)
        <= MAX_CONSTANT);
    assert(-MAX_CONSTANT <= shaper.constant_spec(MathConstant::SuperscriptBottomMin)
        <= MAX_CONSTANT);
    assert(-MAX_CONSTANT <= shaper.constant_spec(MathConstant::SuperscriptBaselineDropMax)
        <= MAX_CONSTANT);
    assert(-MAX_CONSTANT <= shaper.constant_spec(MathConstant::SubscriptBaselineDropMin)
        <= MAX_CONSTANT);
    assert(-MAX_CONSTANT <= shaper.constant_spec(MathConstant::SubscriptShiftDown) <= MAX_CONSTANT);
    assert(-MAX_CONSTANT <= shaper.constant_spec(MathConstant::SubscriptTopMax) <= MAX_CONSTANT);
}

/// Kerning applied to an attachment at a corner of its nucleus: the font is
/// consulted twice, for the nucleus glyph at the attachment's corner and for
/// the attachment glyph at the diagonally mirrored corner, at correction
/// heights derived from the shift and the ink extents; both contributions are
/// summed. Zero when either box draws no glyph on the relevant side.
pub open spec fn attachment_kern_spec<T, S: MathShaper>(
    shaper: S,
    nucleus: MathBox<T>,
    attachment: MathBox<T>,
    attachment_position: CornerPosition,
    attachment_shift: i64,
) -> int {
    let nucleus_glyph = if attachment_position.is_left_spec() {
        last_glyph_spec(nucleus)
    } else {
        first_glyph_spec(nucleus)
    };
    match nucleus_glyph {
        None => 0,
        Some(ng) => {
            let attachment_glyph = if attachment_position.is_left_spec() {
                last_glyph_spec(attachment)
            } else {
                first_glyph_spec(attachment)
            };
            match attachment_glyph {
                None => 0,
                Some(ag) => {
                    let bch = if attachment_position.is_top_spec() {
                        sat(attachment_shift - attachment.ink_extents.descent)
                    } else {
                        sat(attachment.ink_extents.ascent - attachment_shift)
                    };
                    let ach = if attachment_position.is_top_spec() {
                        sat(nucleus.ink_extents.ascent - attachment_shift)
                    } else {
                        sat(attachment_shift - nucleus.ink_extents.descent)
                    };
                    sat(
                        shaper.kerning_spec(ng.glyph_code, attachment_position, bch as i64)
                            + shaper.kerning_spec(
                            ag.glyph_code,
                            attachment_position.diagonal_mirror_spec(),
                            ach as i64,
                        ),
                    )
                },
            }
        },
    }
}

pub fn get_attachment_kern<T, S: MathShaper>(
    nucleus: &MathBox<T>,
    attachment: &MathBox<T>,
    attachment_position: CornerPosition,
    attachment_shift: i64,
    shaper: &S,
) -> (r: i64)
    ensures
        r as int == attachment_kern_spec(
            *shaper,
            *nucleus,
            *attachment,
            attachment_position,
            attachment_shift,
        ),
{
    let nucleus_glyph = if attachment_position.is_left() {
        get_last_glyph(nucleus)
    } else {
        get_first_glyph(nucleus)
    };
    match nucleus_glyph {
        None => 0,
        Some(ng) => {
            let attachment_glyph = if attachment_position.is_left() {
                get_last_glyph(attachment)
            } else {
                get_first_glyph(attachment)
            };
            match attachment_glyph {
                None => 0,
                Some(ag) => {
                    let (bch, ach) = if attachment_position.is_top() {
                        (
                            ssub(attachment_shift, attachment.ink_extents.descent),
                            ssub(nucleus.ink_extents.ascent, attachment_shift),
                        )
                    } else {
                        (
                            ssub(attachment.ink_extents.ascent, attachment_shift),
                            ssub(attachment_shift, nucleus.ink_extents.descent),
                        )
                    };
                    let k1 = shaper.math_kerning(ng.glyph_code, attachment_position, bch);
                    let k2 = shaper.math_kerning(
                        ag.glyph_code,
                        attachment_position.diagonal_mirror(),
                        ach,
                    );
                    sadd(k1, k2)
                },
            }
        },
    }
}

} // verus!
