//! The layout engine: the recursive visitor that turns each expression node
//! into one positioned box, calling the multiscript placement math for every
//! attachment and the shaping capability for every atomic field.

use vstd::prelude::*;
use crate::geom::{Extents, Point, half, imax, imin, sadd, sat, sat_u64, scaled_spec, ssub, unscale_size};
use crate::item::{
    Atom, Field, GeneralizedFraction, MathExpression, MathItem, MathSpace, Operator, OverUnder,
    Root, StretchConstraints, exp_size, item_size, lemma_list_size_element, list_size, opt_size,
};
use crate::math_box::{BoxContent, GlyphFragment, MathBox, last_italic, run_advance, scaled_extents, union_ink, union_logical};
use crate::multiscripts::{
    get_attachment_kern, get_subscript_shift_dn, get_subsup_shifts, get_superscript_shift_up,
};
use crate::shaper::{CornerPosition, MathConstant, MathShaper, ShapedGlyph};
use crate::style::{LayoutStyle, MathStyle};

verus! {

/// The read-mostly context threaded through layout, copied at each recursion:
/// the current style, an optional requested stretch size from an ancestor, and
/// whether the subtree is laid out as an accent.
#[derive(Clone, Copy, Debug)]
pub struct LayoutOptions {
    pub style: LayoutStyle,
    pub stretch_size: Option<Extents>,
    pub as_accent: bool,
}

/// Whether and how a box can stretch.
#[derive(Clone, Copy, Debug, PartialEq, Eq, Structural)]
pub struct StretchProperties {
    pub intrinsic_size: u64,
    pub horizontal: bool,
}

/// Summary an ancestor needs when deciding how to lay out stretchy
/// constructs: stretch capability and leading/trailing space in font units.
#[derive(Clone, Copy, Debug, PartialEq, Eq, Structural)]
pub struct OperatorProperties {
    pub stretch_properties: Option<StretchProperties>,
    pub leading_space: i64,
    pub trailing_space: i64,
}

/// Clamp into optional bounds, the lower bound checked first.
pub open spec fn clamp_spec(value: int, lo: Option<i64>, hi: Option<i64>) -> int {
    if lo is Some && value < lo->Some_0 {
        lo->Some_0 as int
    } else if hi is Some && value > hi->Some_0 {
        hi->Some_0 as int
    } else {
        value
    }
}

fn clamp_value(value: i64, lo: Option<i64>, hi: Option<i64>) -> (r: i64)
    ensures
        r as int == clamp_spec(value as int, lo, hi),
{
    match lo {
        Some(l) => {
            if value < l {
                return l;
            }
        },
        None => {},
    }
    match hi {
        Some(h) => {
            if value > h {
                return h;
            }
        },
        None => {},
    }
    value
}

/// What the operator-properties query answers for an expression: operators
/// report their spacing and stretch capability; scripts, limits and fractions
/// forward the question to their nucleus or numerator; everything else has
/// none.
pub open spec fn expr_op_props_spec<T, S: MathShaper>(shaper: S, e: MathExpression<T>) -> Option<
    OperatorProperties,
>
    decreases exp_size(e), 0int,
{
    item_op_props_spec(shaper, e.content)
}

pub open spec fn item_op_props_spec<T, S: MathShaper>(shaper: S, it: MathItem<T>) -> Option<
    OperatorProperties,
>
    decreases item_size(it), 1int,
{
    match it {
        MathItem::Atom(a) => expr_op_props_spec(shaper, *a.nucleus),
        MathItem::OverUnder(ou) => expr_op_props_spec(shaper, *ou.nucleus),
        MathItem::GeneralizedFraction(f) => expr_op_props_spec(shaper, *f.numerator),
        MathItem::Operator(op) => Some(
            OperatorProperties {
                stretch_properties: match op.stretch_constraints {
                    Some(_) => Some(StretchProperties { intrinsic_size: 0, horizontal: false }),
                    None => None,
                },
                leading_space: op.leading_space.font_units_spec(
                    shaper.em_size_spec(),
                    shaper.ppem_spec(),
                    shaper.constant_spec(MathConstant::DisplayOperatorMinHeight),
                ) as i64,
                trailing_space: op.trailing_space.font_units_spec(
                    shaper.em_size_spec(),
                    shaper.ppem_spec(),
                    shaper.constant_spec(MathConstant::DisplayOperatorMinHeight),
                ) as i64,
            },
        ),
        _ => None,
    }
}

/// Whether an expression can stretch to a requested size.
pub open spec fn can_stretch_spec<T, S: MathShaper>(shaper: S, e: MathExpression<T>) -> bool {
    match expr_op_props_spec(shaper, e) {
        Some(p) => p.stretch_properties is Some,
        None => false,
    }
}

/// Operator properties of an expression; see `expr_op_props_spec`.
pub fn expr_operator_properties<T, S: MathShaper>(e: &MathExpression<T>, shaper: &S) -> (r: Option<
    OperatorProperties,
>)
    ensures
        r == expr_op_props_spec(*shaper, *e),
    decreases exp_size(*e), 0int,
{
    item_operator_properties(&e.content, shaper)
}

pub fn item_operator_properties<T, S: MathShaper>(it: &MathItem<T>, shaper: &S) -> (r: Option<
    OperatorProperties,
>)
    ensures
        r == item_op_props_spec(*shaper, *it),
    decreases item_size(*it), 1int,
{
    match it {
        MathItem::Atom(a) => expr_operator_properties(&a.nucleus, shaper),
        MathItem::OverUnder(ou) => expr_operator_properties(&ou.nucleus, shaper),
        MathItem::GeneralizedFraction(f) => expr_operator_properties(&f.numerator, shaper),
        MathItem::Operator(op) => Some(
            OperatorProperties {
                stretch_properties: match op.stretch_constraints {
                    Some(_) => Some(StretchProperties { intrinsic_size: 0, horizontal: false }),
                    None => None,
                },
                leading_space: op.leading_space.to_font_units(shaper),
                trailing_space: op.trailing_space.to_font_units(shaper),
            },
        ),
        _ => None,
    }
}

/// Whether an expression can stretch; see `can_stretch_spec`.
pub fn can_stretch<T, S: MathShaper>(e: &MathExpression<T>, shaper: &S) -> (r: bool)
    ensures
        r == can_stretch_spec(*shaper, *e),
{
    match expr_operator_properties(e, shaper) {
        Some(p) => p.stretch_properties.is_some(),
        None => false,
    }
}

/// The pen position before glyph `i` of a run: the sum of the scaled advances
/// of the glyphs before it.
pub open spec fn run_cursor(gs: Seq<ShapedGlyph>, percent: int, i: int) -> Point
    decreases i,
{
    if i <= 0 {
        Point { x: 0, y: 0 }
    } else {
        let prev = run_cursor(gs, percent, i - 1);
        Point {
            x: sat(prev.x + scaled_spec(gs[i - 1].advance.x as int, percent)) as i64,
            y: sat(prev.y + scaled_spec(gs[i - 1].advance.y as int, percent)) as i64,
        }
    }
}

/// The box one shaped glyph becomes at a pen position: the glyph's metrics
/// scaled to the percentage, placed at the scaled shaping offset with its
/// vertical sign flipped from shaping's baseline-up convention to layout's
/// baseline-down one.
pub open spec fn glyph_box_spec<T, S: MathShaper>(
    shaper: S,
    sg: ShapedGlyph,
    percent: int,
    cursor: Point,
) -> MathBox<T> {
    let m = shaper.metrics_spec(sg.glyph);
    MathBox {
        origin: Point {
            x: sat(scaled_spec(sg.origin.x as int, percent) + cursor.x) as i64,
            y: sat(cursor.y - scaled_spec(sg.origin.y as int, percent)) as i64,
        },
        extents: scaled_extents(m.extents, percent),
        ink_extents: scaled_extents(m.extents, percent),
        advance_width: scaled_spec(m.advance as int, percent) as i64,
        italic_correction: scaled_spec(m.italic_correction as int, percent) as i64,
        top_accent_attachment: scaled_spec(m.top_accent_attachment as int, percent) as i64,
        content: BoxContent::Glyph(GlyphFragment { glyph_code: sg.glyph, scale_percent: percent as u32 }),
        user_info: None,
    }
}

/// The child boxes are exactly the row that laying out the glyph run yields:
/// child `i` is the box of glyph `i` at the cumulative pen position.
pub open spec fn glyph_run_children<T, S: MathShaper>(
    shaper: S,
    children: Seq<MathBox<T>>,
    gs: Seq<ShapedGlyph>,
    percent: int,
) -> bool {
    &&& children.len() == gs.len()
    &&& (forall|i: int|
        0 <= i < gs.len() ==> children[i] == glyph_box_spec::<T, S>(
            shaper,
            gs[i],
            percent,
            run_cursor(gs, percent, i),
        ))
}

/// The box is the row of boxes that laying out the glyph run yields, sitting
/// at a given vertical position, its extents the unions over the children.
pub open spec fn is_glyph_run_at<T, S: MathShaper>(
    shaper: S,
    r: MathBox<T>,
    gs: Seq<ShapedGlyph>,
    percent: int,
    origin_y: int,
) -> bool {
    &&& r.origin.x == 0
    &&& r.origin.y as int == origin_y
    &&& r.content is Boxes
    &&& glyph_run_children(shaper, r.content->Boxes_0@, gs, percent)
    &&& r.extents == union_logical(r.content->Boxes_0@)
    &&& r.ink_extents == union_ink(r.content->Boxes_0@)
    &&& r.advance_width as int == run_advance(r.content->Boxes_0@)
    &&& r.italic_correction as int == last_italic(r.content->Boxes_0@)
}

/// The box is the glyph run laid at the baseline.
pub open spec fn is_glyph_run<T, S: MathShaper>(
    shaper: S,
    r: MathBox<T>,
    gs: Seq<ShapedGlyph>,
    percent: int,
) -> bool {
    is_glyph_run_at(shaper, r, gs, percent, 0)
}

/// What laying out an atomic field guarantees: nothing for an empty field, a
/// single scaled glyph box for a glyph, the shaped run for text.
pub open spec fn field_box_ok<T, S: MathShaper>(
    shaper: S,
    field: Field,
    options: LayoutOptions,
    r: MathBox<T>,
) -> bool {
    let percent = shaper.scale_spec(options.style.script_level);
    &&& r.origin == Point::zero_spec()
    &&& (field is Empty ==> r.content is Empty && r.extents == Extents::zero_spec()
        && r.ink_extents == Extents::zero_spec())
    &&& (field matches Field::Glyph(g) ==> {
        &&& r.content == BoxContent::<T>::Glyph(
            GlyphFragment { glyph_code: g, scale_percent: percent as u32 },
        )
        &&& r.extents == scaled_extents(shaper.metrics_spec(g).extents, percent)
        &&& r.ink_extents == scaled_extents(shaper.metrics_spec(g).extents, percent)
        &&& r.advance_width as int == scaled_spec(shaper.metrics_spec(g).advance as int, percent)
        &&& r.italic_correction as int == scaled_spec(
            shaper.metrics_spec(g).italic_correction as int,
            percent,
        )
    })
    &&& (field matches Field::Unicode(s) ==> is_glyph_run(
        shaper,
        r,
        shaper.shape_spec(s@, options.style),
        percent,
    ))
}

/// What converting an explicit space guarantees: an empty box whose logical
/// extents are the configured lengths in font units.
pub open spec fn space_box_ok<T, S: MathShaper>(shaper: S, space: MathSpace, r: MathBox<T>) -> bool {
    let em = shaper.em_size_spec();
    let ppem = shaper.ppem_spec();
    let domh = shaper.constant_spec(MathConstant::DisplayOperatorMinHeight);
    &&& r.origin == Point::zero_spec()
    &&& r.content is Empty
    &&& r.ink_extents == Extents::zero_spec()
    &&& r.extents.left_side_bearing == 0
    &&& r.extents.width as int == space.width.font_units_spec(em, ppem, domh)
    &&& r.extents.ascent as int == space.ascent.font_units_spec(em, ppem, domh)
    &&& r.extents.descent as int == space.descent.font_units_spec(em, ppem, domh)
    &&& r.advance_width == r.extents.width
}

/// Lay a shaped glyph run left to right: each glyph becomes one box, scaled to
/// the script level's percentage, its shaping offset flipped from the
/// baseline-up convention to layout's baseline-down one, placed at a cursor
/// advanced by the glyph advances.
pub fn math_box_from_shaped_glyphs<T, S: MathShaper>(
    glyphs: Vec<ShapedGlyph>,
    options: LayoutOptions,
    shaper: &S,
) -> (r: MathBox<T>)
    ensures
        is_glyph_run(*shaper, r, glyphs@, shaper.scale_spec(options.style.script_level)),
        r.user_info is None,
{
    let percent = shaper.scale_factor_for_script_level(options.style.script_level);
    let mut children: Vec<MathBox<T>> = Vec::new();
    let mut cx: i64 = 0;
    let mut cy: i64 = 0;
    let n = glyphs.len();
    let mut i: usize = 0;
    while i < n
        invariant
            i <= n,
            n == glyphs@.len(),
            children@.len() == i,
            1 <= percent <= 100,
            percent as int == shaper.scale_spec(options.style.script_level),
            cx as int == run_cursor(glyphs@, percent as int, i as int).x,
            cy as int == run_cursor(glyphs@, percent as int, i as int).y,
            forall|j: int|
                0 <= j < i ==> children@[j] == glyph_box_spec::<T, S>(
                    *shaper,
                    glyphs@[j],
                    percent as int,
                    run_cursor(glyphs@, percent as int, j),
                ),
        decreases n - i,
    {
        let sg = glyphs[i];
        let metrics = shaper.glyph_metrics(sg.glyph);
        let mut glyph_box: MathBox<T> = MathBox::with_glyph(sg.glyph, &metrics, percent);
        let ox = crate::geom::scale_value(sg.origin.x, percent);
        let oy = crate::geom::scale_value(sg.origin.y, percent);
        let ax = crate::geom::scale_value(sg.advance.x, percent);
        let ay = crate::geom::scale_value(sg.advance.y, percent);
        glyph_box.origin = Point { x: sadd(ox, cx), y: ssub(cy, oy) };
        cx = sadd(cx, ax);
        cy = sadd(cy, ay);
        children.push(glyph_box);
        i += 1;
    }
    MathBox::with_vec(children)
}

/// Positioning of a row of boxes: a running cursor advances by each box's
/// advance width, and the italic correction of the previous box is added only
/// when the current box is upright (zero correction), so slanted runs do not
/// double-apply it.
pub open spec fn pack_spec<T>(bs: Seq<MathBox<T>>, cursor: int, prev_ic: int) -> Seq<MathBox<T>>
    decreases bs.len(),
{
    if bs.len() == 0 {
        Seq::empty()
    } else {
        let b = bs[0];
        let c1 = if b.italic_correction == 0 {
            sat(cursor + prev_ic)
        } else {
            cursor
        };
        let b2 = MathBox {
            origin: Point { x: sat(b.origin.x + c1) as i64, y: b.origin.y },
            ..b
        };
        seq![b2] + pack_spec(bs.drop_first(), sat(c1 + b.advance_width), b.italic_correction as int)
    }
}

/// Position a row of boxes left to right with italic-correction bookkeeping.
pub fn pack_row<T>(boxes: Vec<MathBox<T>>) -> (r: Vec<MathBox<T>>)
    ensures
        r@ == pack_spec(boxes@, 0, 0),
{
    let ghost orig = boxes@;
    let mut src = boxes;
    let mut out: Vec<MathBox<T>> = Vec::new();
    let mut cursor: i64 = 0;
    let mut prev_ic: i64 = 0;
    while src.len() > 0
        invariant
            pack_spec(orig, 0, 0) == out@ + pack_spec(src@, cursor as int, prev_ic as int),
        decreases src.len(),
    {
        let ghost src_before = src@;
        let ghost out_before = out@;
        let ghost c0 = cursor as int;
        let ghost ic0 = prev_ic as int;
        let mut b = src.remove(0);
        if b.italic_correction == 0 {
            cursor = sadd(cursor, prev_ic);
        }
        b.origin.x = sadd(b.origin.x, cursor);
        let adv = b.advance_width;
        let ic = b.italic_correction;
        let ghost b2v = b;
        out.push(b);
        cursor = sadd(cursor, adv);
        prev_ic = ic;
        proof {
            assert(src_before.drop_first() =~= src@);
            assert(out@ =~= out_before + seq![b2v]);
            assert(pack_spec(src_before, c0, ic0) == seq![b2v] + pack_spec(
                src@,
                cursor as int,
                prev_ic as int,
            ));
            assert(out_before + (seq![b2v] + pack_spec(src@, cursor as int, prev_ic as int)) =~= (
            out_before + seq![b2v]) + pack_spec(src@, cursor as int, prev_ic as int));
        }
    }
    proof {
        assert(out@ =~= out@ + pack_spec(src@, cursor as int, prev_ic as int));
    }
    out
}

/// Convert an explicit space to an empty box of the configured extents.
pub fn layout_space<T, S: MathShaper>(space: MathSpace, options: LayoutOptions, shaper: &S) -> (r:
    MathBox<T>)
    ensures
        space_box_ok(*shaper, space, r),
{
    let extents = Extents {
        left_side_bearing: 0,
        width: space.width.to_font_units(shaper),
        ascent: space.ascent.to_font_units(shaper),
        descent: space.descent.to_font_units(shaper),
    };
    MathBox::empty(extents)
}

/// Lay out an atomic field: nothing, one glyph, or shaped text.
pub fn layout_field<T, S: MathShaper>(field: Field, options: LayoutOptions, shaper: &S) -> (r:
    MathBox<T>)
    ensures
        field_box_ok(*shaper, field, options, r),
        r.user_info is None,
{
    match field {
        Field::Empty => MathBox::empty(Extents::zero()),
        Field::Glyph(glyph) => {
            let percent = shaper.scale_factor_for_script_level(options.style.script_level);
            let metrics = shaper.glyph_metrics(glyph);
            MathBox::with_glyph(glyph, &metrics, percent)
        },
        Field::Unicode(content) => {
            let glyphs = shaper.shape_string(content.as_str(), options.style);
            math_box_from_shaped_glyphs(glyphs, options, shaper)
        },
    }
}

/// Attach an already-built script box at a corner of its nucleus: it is placed
/// after the nucleus's advance, kerned against the glyph corners, shifted up
/// (top corners) or down (bottom corners), and for a large-operator nucleus
/// nudged by half the italic correction (outward on top, inward on bottom).
pub fn position_attachment<T, S: MathShaper>(
    attachment: &mut MathBox<T>,
    nucleus: &MathBox<T>,
    nucleus_is_largeop: bool,
    position: CornerPosition,
    shift: i64,
    shaper: &S,
)
    ensures
        ({
            let kern = crate::multiscripts::attachment_kern_spec(
                *shaper,
                *nucleus,
                *old(attachment),
                position,
                shift,
            );
            let base0 = sat(sat(nucleus.origin.x + nucleus.advance_width) + kern);
            let italic = half(nucleus.italic_correction as int);
            let base = if nucleus_is_largeop {
                if position.is_top_spec() {
                    sat(base0 + italic)
                } else {
                    sat(base0 - italic)
                }
            } else {
                base0
            };
            &&& *final (attachment) == (MathBox {
                origin: Point {
                    x: sat(old(attachment).origin.x + base) as i64,
                    y: (if position.is_top_spec() {
                        sat(old(attachment).origin.y - shift)
                    } else {
                        sat(old(attachment).origin.y + shift)
                    }) as i64,
                },
                ..*old(attachment)
            })
        }),
{
    let kern = get_attachment_kern(nucleus, attachment, position, shift, shaper);
    let mut base = sadd(sadd(nucleus.origin.x, nucleus.advance_width), kern);
    if nucleus_is_largeop {
        let italic = crate::geom::div2(nucleus.italic_correction);
        if position.is_top() {
            base = sadd(base, italic);
        } else {
            base = ssub(base, italic);
        }
    }
    attachment.origin.x = sadd(attachment.origin.x, base);
    if position.is_top() {
        attachment.origin.y = ssub(attachment.origin.y, shift);
    } else {
        attachment.origin.y = sadd(attachment.origin.y, shift);
    }
}

/// The style an over attachment is laid in: the outer style demoted to
/// Inline, and one superscript step deeper unless it is an accent.
pub open spec fn over_attachment_style(style: LayoutStyle, is_accent: bool) -> LayoutStyle {
    if is_accent {
        style.inline_style_spec()
    } else {
        style.inline_style_spec().superscript_style_spec()
    }
}

/// The style an under attachment is laid in: Inline, and one subscript step
/// deeper (cramped) unless it is an accent.
pub open spec fn under_attachment_style(style: LayoutStyle, is_accent: bool) -> LayoutStyle {
    if is_accent {
        style.inline_style_spec()
    } else {
        style.inline_style_spec().subscript_style_spec()
    }
}

/// The vertical baseline offset an over or under attachment receives: limits
/// of a large operator use the limit constants, attachments of a horizontally
/// stretchy nucleus the stretch-stack constants, plain bars the over/underbar
/// gaps, and accents sit at the accent base height (over) or the nucleus
/// descent (under).
pub open spec fn over_under_offset_spec<S: MathShaper>(
    shaper: S,
    nucleus_ext: Extents,
    attachment_ext: Extents,
    as_over: bool,
    as_accent: bool,
    nucleus_is_large_op: bool,
    nucleus_is_horizontally_stretchy: bool,
) -> int {
    let gap = if nucleus_is_large_op {
        if as_over {
            shaper.constant_spec(MathConstant::UpperLimitGapMin)
        } else {
            shaper.constant_spec(MathConstant::LowerLimitGapMin)
        }
    } else if nucleus_is_horizontally_stretchy {
        if as_over {
            shaper.constant_spec(MathConstant::StretchStackGapBelowMin)
        } else {
            shaper.constant_spec(MathConstant::StretchStackGapAboveMin)
        }
    } else if !as_accent {
        if as_over {
            shaper.constant_spec(MathConstant::OverbarVerticalGap)
        } else {
            shaper.constant_spec(MathConstant::UnderbarVerticalGap)
        }
    } else {
        0
    };
    let shift = if nucleus_is_large_op {
        if as_over {
            sat(shaper.constant_spec(MathConstant::UpperLimitBaselineRiseMin) + nucleus_ext.ascent)
        } else {
            sat(
                shaper.constant_spec(MathConstant::LowerLimitBaselineDropMin)
                    + nucleus_ext.descent,
            )
        }
    } else if nucleus_is_horizontally_stretchy {
        if as_over {
            shaper.constant_spec(MathConstant::StretchStackTopShiftUp)
        } else {
            shaper.constant_spec(MathConstant::StretchStackBottomShiftDown)
        }
    } else if !as_accent {
        gap
    } else {
        0
    };
    if as_accent {
        if as_over {
            let abh = shaper.constant_spec(MathConstant::AccentBaseHeight);
            let over_base = sat(nucleus_ext.ascent - abh);
            if over_base >= 0 {
                -over_base
            } else {
                0
            }
        } else {
            nucleus_ext.descent as int
        }
    } else {
        if as_over {
            let m = sat(sat(nucleus_ext.ascent + gap) + attachment_ext.descent);
            let w = if shift >= m {
                shift
            } else {
                m
            };
            sat(-w)
        } else {
            let m = sat(sat(nucleus_ext.descent + gap) + attachment_ext.ascent);
            if shift >= m {
                shift
            } else {
                m
            }
        }
    }
}

/// Stack an attachment over or under a nucleus: choose the vertical gap and
/// shift from the applicable constants, center the attachment against the
/// nucleus (top accent attachment points for an over-accent, geometric centers
/// otherwise, never shrinking, only nudging the trailing one forward), and
/// apply the large-operator italic nudge. The attachment comes first in the
/// result so the nucleus's italic correction is the one the row keeps.
pub fn layout_over_or_under<T, S: MathShaper>(
    attachment: MathBox<T>,
    nucleus: MathBox<T>,
    shaper: &S,
    style: LayoutStyle,
    as_over: bool,
    as_accent: bool,
    nucleus_is_large_op: bool,
    nucleus_is_horizontally_stretchy: bool,
) -> (r: MathBox<T>)
    ensures
        r.origin == Point::zero_spec(),
        r.content is Boxes,
        r.content->Boxes_0@.len() == 2,
        r.extents == union_logical(r.content->Boxes_0@),
        r.ink_extents == union_ink(r.content->Boxes_0@),
        ({
            let offset = over_under_offset_spec(
                *shaper,
                nucleus.extents,
                attachment.extents,
                as_over,
                as_accent,
                nucleus_is_large_op,
                nucleus_is_horizontally_stretchy,
            );
            let cdiff = sat(
                (if as_accent && as_over {
                    sat(nucleus.origin.x + nucleus.top_accent_attachment)
                } else {
                    sat(nucleus.origin.x + nucleus.extents.center_spec())
                }) - (if as_accent && as_over {
                    sat(attachment.origin.x + attachment.top_accent_attachment)
                } else {
                    sat(attachment.origin.x + attachment.extents.center_spec())
                }),
            );
            let nx = if cdiff < 0 {
                sat(nucleus.origin.x - cdiff)
            } else {
                nucleus.origin.x as int
            };
            let ax0 = if cdiff < 0 {
                attachment.origin.x as int
            } else {
                sat(attachment.origin.x + cdiff)
            };
            let ax = if nucleus_is_large_op {
                if as_over {
                    sat(ax0 + half(nucleus.italic_correction as int))
                } else {
                    sat(ax0 - half(nucleus.italic_correction as int))
                }
            } else {
                ax0
            };
            &&& r.content->Boxes_0@[0] == (MathBox {
                origin: Point {
                    x: ax as i64,
                    y: sat(sat(attachment.origin.y + nucleus.origin.y) + offset) as i64,
                },
                ..attachment
            })
            &&& r.content->Boxes_0@[1] == (MathBox {
                origin: Point { x: nx as i64, y: nucleus.origin.y },
                ..nucleus
            })
        }),
{
    let mut attachment = attachment;
    let mut nucleus = nucleus;
    let mut gap: i64 = 0;
    let mut shift: i64 = 0;
    if nucleus_is_large_op {
        if as_over {
            gap = shaper.math_constant(MathConstant::UpperLimitGapMin);
            shift = sadd(
                shaper.math_constant(MathConstant::UpperLimitBaselineRiseMin),
                nucleus.extents.ascent,
            );
        } else {
            gap = shaper.math_constant(MathConstant::LowerLimitGapMin);
            shift = sadd(
                shaper.math_constant(MathConstant::LowerLimitBaselineDropMin),
                nucleus.extents.descent,
            );
        }
    } else if nucleus_is_horizontally_stretchy {
        if as_over {
            gap = shaper.math_constant(MathConstant::StretchStackGapBelowMin);
            shift = shaper.math_constant(MathConstant::StretchStackTopShiftUp);
        } else {
            gap = shaper.math_constant(MathConstant::StretchStackGapAboveMin);
            shift = shaper.math_constant(MathConstant::StretchStackBottomShiftDown);
        }
    } else if !as_accent {
        gap = if as_over {
            shaper.math_constant(MathConstant::OverbarVerticalGap)
        } else {
            shaper.math_constant(MathConstant::UnderbarVerticalGap)
        };
        shift = gap;
    }
    let baseline_offset: i64 = if as_accent {
        if as_over {
            let accent_base_height = shaper.math_constant(MathConstant::AccentBaseHeight);
            let over_base = ssub(nucleus.extents.ascent, accent_base_height);
            if over_base >= 0 {
                -over_base
            } else {
                0
            }
        } else {
            nucleus.extents.descent
        }
    } else {
        if as_over {
            let m = sadd(sadd(nucleus.extents.ascent, gap), attachment.extents.descent);
            ssub(0, imax(shift, m))
        } else {
            let m = sadd(sadd(nucleus.extents.descent, gap), attachment.extents.ascent);
            imax(shift, m)
        }
    };
    attachment.origin.y = sadd(attachment.origin.y, nucleus.origin.y);
    attachment.origin.y = sadd(attachment.origin.y, baseline_offset);
    // centering: nudge whichever of nucleus / attachment trails
    let center_difference = if as_accent && as_over {
        ssub(
            sadd(nucleus.origin.x, nucleus.top_accent_attachment),
            sadd(attachment.origin.x, attachment.top_accent_attachment),
        )
    } else {
        ssub(
            sadd(nucleus.origin.x, nucleus.extents.center()),
            sadd(attachment.origin.x, attachment.extents.center()),
        )
    };
    if center_difference < 0 {
        nucleus.origin.x = ssub(nucleus.origin.x, center_difference);
    } else {
        attachment.origin.x = sadd(attachment.origin.x, center_difference);
    }
    // large-operator italic correction
    if nucleus_is_large_op {
        let italic = crate::geom::div2(nucleus.italic_correction);
        if as_over {
            attachment.origin.x = sadd(attachment.origin.x, italic);
        } else {
            attachment.origin.x = ssub(attachment.origin.x, italic);
        }
    }
    // the attachment first, then the nucleus, preserving the latter's italic
    // correction as the row's
    let mut children: Vec<MathBox<T>> = Vec::new();
    children.push(attachment);
    children.push(nucleus);
    MathBox::with_vec(children)
}

/// The style a fraction's numerator is laid in: Display demotes to Inline at
/// the same script level; any other style goes one level deeper.
pub open spec fn fraction_numerator_style(style: LayoutStyle) -> LayoutStyle {
    if style.math_style == MathStyle::Display {
        LayoutStyle { math_style: MathStyle::Inline, ..style }
    } else {
        LayoutStyle { script_level: style.deeper_level(), ..style }
    }
}

/// The denominator's style: the numerator's, cramped.
pub open spec fn fraction_denominator_style(style: LayoutStyle) -> LayoutStyle {
    fraction_numerator_style(style).cramped_style_spec()
}

/// Numerator shift up: the larger of the font-table shift (Display or Inline
/// pair) minus the axis height, and the gap minimum plus half the rule
/// thickness plus the numerator's descent.
pub open spec fn fraction_num_shift_spec<S: MathShaper>(
    shaper: S,
    display: bool,
    numerator_descent: int,
) -> int {
    let shift_const = if display {
        shaper.constant_spec(MathConstant::FractionNumeratorDisplayStyleShiftUp)
    } else {
        shaper.constant_spec(MathConstant::FractionNumeratorShiftUp)
    };
    let gap_const = if display {
        shaper.constant_spec(MathConstant::FractionNumDisplayStyleGapMin)
    } else {
        shaper.constant_spec(MathConstant::FractionNumeratorGapMin)
    };
    let axis = shaper.constant_spec(MathConstant::AxisHeight);
    let th = shaper.constant_spec(MathConstant::FractionRuleThickness);
    let a = sat(shift_const - axis);
    let b = sat(sat(gap_const + half(th)) + numerator_descent);
    if a >= b {
        a
    } else {
        b
    }
}

/// Denominator shift down, the mirror image of the numerator shift.
pub open spec fn fraction_den_shift_spec<S: MathShaper>(
    shaper: S,
    display: bool,
    denominator_ascent: int,
) -> int {
    let shift_const = if display {
        shaper.constant_spec(MathConstant::FractionDenominatorDisplayStyleShiftDown)
    } else {
        shaper.constant_spec(MathConstant::FractionDenominatorShiftDown)
    };
    let gap_const = if display {
        shaper.constant_spec(MathConstant::FractionDenomDisplayStyleGapMin)
    } else {
        shaper.constant_spec(MathConstant::FractionDenominatorGapMin)
    };
    let axis = shaper.constant_spec(MathConstant::AxisHeight);
    let th = shaper.constant_spec(MathConstant::FractionRuleThickness);
    let a = sat(shift_const + axis);
    let b = sat(sat(gap_const + half(th)) + denominator_ascent);
    if a >= b {
        a
    } else {
        b
    }
}

/// A font whose Display-style numerator constants dominate its Inline ones
/// shifts numerators at least as far up in Display style as in Inline style,
/// whatever the numerator.
pub proof fn lemma_fraction_display_shift<S: MathShaper>(shaper: S, numerator_descent: int)
    requires
        shaper.constant_spec(MathConstant::FractionNumeratorDisplayStyleShiftUp)
            >= shaper.constant_spec(MathConstant::FractionNumeratorShiftUp),
        shaper.constant_spec(MathConstant::FractionNumDisplayStyleGapMin) >= shaper.constant_spec(
            MathConstant::FractionNumeratorGapMin,
        ),
    ensures
        fraction_num_shift_spec(shaper, true, numerator_descent) >= fraction_num_shift_spec(
            shaper,
            false,
            numerator_descent,
        ),
{
}

/// Lay out one expression node: its content becomes a box that carries the
/// node's annotations.
pub fn layout_expression<T, S: MathShaper>(
    expr: MathExpression<T>,
    options: LayoutOptions,
    shaper: &S,
) -> (r: MathBox<T>)
    ensures
        r.origin == Point::zero_spec(),
        r.user_info == Some(expr.user_info),
        expr.content is Space ==> space_box_ok(*shaper, expr.content->Space_0, r),
        expr.content is Field ==> field_box_ok(*shaper, expr.content->Field_0, options, r),
        expr.content is GeneralizedFraction ==> fraction_box_ok(*shaper, options, r),
        expr.content is List ==> list_box_ok(*shaper, expr.content->List_0@, options, r),
        expr.content is Root ==> root_box_ok(*shaper, options, expr.content->Root_0.degree is Some, r),
        expr.content is Operator ==> operator_box_ok(*shaper, expr.content->Operator_0, options, r),
        expr.content is OverUnder ==> over_under_box_ok(*shaper, expr.content->OverUnder_0, options, r),
        expr.content is Atom && (expr.content->Atom_0.top_right is Some || expr.content->Atom_0.bottom_right is Some)
            ==> scripts_box_ok(
            *shaper,
            expr.content->Atom_0.bottom_right is Some,
            expr.content->Atom_0.top_right is Some,
            expr.content->Atom_0.nucleus.content is Operator
                && expr.content->Atom_0.nucleus.content->Operator_0.is_large_op,
            options,
            r,
        ),
    decreases exp_size(expr), 0int,
{
    let MathExpression { content, user_info } = expr;
    let mut math_box = layout_item(content, options, shaper);
    math_box.user_info = Some(user_info);
    math_box
}

/// Exhaustive dispatch over the expression variants.
pub fn layout_item<T, S: MathShaper>(item: MathItem<T>, options: LayoutOptions, shaper: &S) -> (r:
    MathBox<T>)
    ensures
        r.origin == Point::zero_spec(),
        item is Space ==> space_box_ok(*shaper, item->Space_0, r),
        item is Field ==> field_box_ok(*shaper, item->Field_0, options, r),
        item is GeneralizedFraction ==> fraction_box_ok(*shaper, options, r),
        item is List ==> list_box_ok(*shaper, item->List_0@, options, r),
        item is Root ==> root_box_ok(*shaper, options, item->Root_0.degree is Some, r),
        item is Operator ==> operator_box_ok(*shaper, item->Operator_0, options, r),
        item is OverUnder ==> over_under_box_ok(*shaper, item->OverUnder_0, options, r),
        item is Atom && (item->Atom_0.top_right is Some || item->Atom_0.bottom_right is Some)
            ==> scripts_box_ok(
            *shaper,
            item->Atom_0.bottom_right is Some,
            item->Atom_0.top_right is Some,
            item->Atom_0.nucleus.content is Operator
                && item->Atom_0.nucleus.content->Operator_0.is_large_op,
            options,
            r,
        ),
    decreases item_size(item), 1int,
{
    match item {
        MathItem::Field(field) => layout_field(field, options, shaper),
        MathItem::Space(space) => layout_space(space, options, shaper),
        MathItem::Atom(atom) => layout_atom(atom, options, shaper),
        MathItem::GeneralizedFraction(frac) => layout_fraction(frac, options, shaper),
        MathItem::OverUnder(over_under) => layout_over_under(over_under, options, shaper),
        MathItem::List(list) => layout_list(list, options, shaper),
        MathItem::Root(root) => layout_root(root, options, shaper),
        MathItem::Operator(operator) => layout_operator(operator, options, shaper),
    }
}

/// An atom delegates to the shared sub/superscript routine.
pub fn layout_atom<T, S: MathShaper>(atom: Atom<T>, options: LayoutOptions, shaper: &S) -> (r:
    MathBox<T>)
    ensures
        r.origin == Point::zero_spec(),
        atom.top_right is Some || atom.bottom_right is Some ==> scripts_box_ok(
            *shaper,
            atom.bottom_right is Some,
            atom.top_right is Some,
            atom.nucleus.content is Operator && atom.nucleus.content->Operator_0.is_large_op,
            options,
            r,
        ),
        atom.top_right is Some || atom.bottom_right is Some ==> ({
            let bs = r.content->Boxes_0@;
            &&& bs[0].user_info == Some(atom.nucleus.user_info)
            &&& (atom.bottom_right is Some ==> bs[1].user_info == Some(
                atom.bottom_right->Some_0.user_info,
            ))
            &&& (atom.top_right is Some ==> bs[(
                if atom.bottom_right is Some {
                    2int
                } else {
                    1int
                }
            )].user_info == Some(atom.top_right->Some_0.user_info))
        }),
        atom.top_right is None && atom.bottom_right is None ==> r.user_info == Some(
            atom.nucleus.user_info,
        ) && (atom.nucleus.content is Field ==> field_box_ok(
            *shaper,
            atom.nucleus.content->Field_0,
            options,
            r,
        )) && (atom.nucleus.content is Operator ==> operator_box_ok(
            *shaper,
            atom.nucleus.content->Operator_0,
            options,
            r,
        )),
    decreases item_size(MathItem::Atom(atom)), 0int,
{
    let Atom { nucleus, top_right, bottom_right } = atom;
    layout_sub_superscript(bottom_right, top_right, *nucleus, options, shaper)
}

/// Lay out a sibling list: lay out each child (a stretchy child sees the
/// ambient stretch request, any other child none), then pack the boxes left
/// to right with italic-correction bookkeeping; see `pack_spec`.
/// Everything list layout guarantees of its result.
pub open spec fn list_box_ok<T, S: MathShaper>(
    shaper: S,
    elems: Seq<MathExpression<T>>,
    options: LayoutOptions,
    r: MathBox<T>,
) -> bool {
    &&& r.origin == Point::zero_spec()
    &&& r.content is Boxes
    &&& r.content->Boxes_0@.len() == elems.len()
    &&& r.extents == union_logical(r.content->Boxes_0@)
    &&& r.ink_extents == union_ink(r.content->Boxes_0@)
    &&& ({
            let bs = r.content->Boxes_0@;
            // each child is the box of the matching list element, and the row
            // is exactly the packing of the children at their own baselines
            &&& (forall|i: int|
                0 <= i < bs.len() ==> (#[trigger] bs[i]).user_info == Some(elems[i].user_info))
            &&& bs == pack_spec(
                Seq::new(
                    bs.len(),
                    |i: int| MathBox { origin: Point { x: 0, y: bs[i].origin.y }, ..bs[i] },
                ),
                0,
                0,
            )
        })
}

pub fn layout_list<T, S: MathShaper>(
    items: Vec<MathExpression<T>>,
    options: LayoutOptions,
    shaper: &S,
) -> (r: MathBox<T>)
    ensures
        list_box_ok(*shaper, items@, options, r),
    decreases list_size(items@), 1int,
{
    let ghost items0 = items@;
    let boxes = layout_children(items, options, shaper, Ghost(items0));
    let ghost unpacked = boxes@;
    let packed = pack_row(boxes);
    proof {
        lemma_pack_len(unpacked, 0, 0);
        lemma_pack_fields(unpacked, 0, 0);
        assert(Seq::new(
            pack_spec(unpacked, 0, 0).len(),
            |i: int|
                MathBox {
                    origin: Point { x: 0, y: pack_spec(unpacked, 0, 0)[i].origin.y },
                    ..pack_spec(unpacked, 0, 0)[i]
                },
        ) =~= unpacked);
    }
    MathBox::with_vec(packed)
}

/// Lay out each child of a sibling list in order; a stretchy child sees the
/// ambient stretch request, any other child none.
fn layout_children<T, S: MathShaper>(
    items: Vec<MathExpression<T>>,
    options: LayoutOptions,
    shaper: &S,
    Ghost(m): Ghost<Seq<MathExpression<T>>>,
) -> (r: Vec<MathBox<T>>)
    requires
        items@ == m,
    ensures
        r@.len() == m.len(),
        forall|i: int|
            0 <= i < m.len() ==> (#[trigger] r@[i]).user_info == Some(m[i].user_info)
                && r@[i].origin == Point::zero_spec(),
    decreases list_size(m), 0int,
{
    let mut rest = items;
    if rest.len() == 0 {
        return Vec::new();
    }
    let e = rest.remove(0);
    proof {
        assert(e == m[0]);
        assert(rest@ =~= m.drop_first());
        lemma_list_size_element(m, 0);
        crate::item::lemma_list_size_drop_first(m);
    }
    let child_options = if can_stretch(&e, shaper) {
        options
    } else {
        LayoutOptions { stretch_size: None, ..options }
    };
    let b = layout_expression(e, child_options, shaper);
    let mut tail = layout_children(rest, options, shaper, Ghost(m.drop_first()));
    let mut out: Vec<MathBox<T>> = Vec::new();
    out.push(b);
    out.append(&mut tail);
    proof {
        assert forall|i: int|
            0 <= i < m.len() implies (#[trigger] out@[i]).user_info == Some(m[i].user_info)
            && out@[i].origin == Point::zero_spec() by {
            if i > 0 {
                assert(m.drop_first()[i - 1] == m[i]);
            }
        }
    }
    out
}

/// Packing a row keeps its length.
pub proof fn lemma_pack_len<T>(bs: Seq<MathBox<T>>, c: int, ic: int)
    ensures
        pack_spec(bs, c, ic).len() == bs.len(),
    decreases bs.len(),
{
    if bs.len() > 0 {
        let b = bs[0];
        let c1 = if b.italic_correction == 0 {
            sat(c + ic)
        } else {
            c
        };
        lemma_pack_len(bs.drop_first(), sat(c1 + b.advance_width), b.italic_correction as int);
    }
}

/// Packing moves boxes only horizontally: every other field, and the vertical
/// position, is the input's.
pub proof fn lemma_pack_fields<T>(bs: Seq<MathBox<T>>, c: int, ic: int)
    ensures
        pack_spec(bs, c, ic).len() == bs.len(),
        forall|i: int|
            0 <= i < bs.len() ==> #[trigger] pack_spec(bs, c, ic)[i] == (MathBox {
                origin: Point { x: pack_spec(bs, c, ic)[i].origin.x, y: bs[i].origin.y },
                ..bs[i]
            }),
    decreases bs.len(),
{
    lemma_pack_len(bs, c, ic);
    if bs.len() > 0 {
        let b = bs[0];
        let c1 = if b.italic_correction == 0 {
            sat(c + ic)
        } else {
            c
        };
        let c2 = sat(c1 + b.advance_width);
        let ic2 = b.italic_correction as int;
        lemma_pack_fields(bs.drop_first(), c2, ic2);
        assert forall|i: int|
            0 <= i < bs.len() implies #[trigger] pack_spec(bs, c, ic)[i] == (MathBox {
            origin: Point { x: pack_spec(bs, c, ic)[i].origin.x, y: bs[i].origin.y },
            ..bs[i]
        }) by {
            if i > 0 {
                assert(pack_spec(bs, c, ic)[i] == pack_spec(bs.drop_first(), c2, ic2)[i - 1]);
                assert(bs.drop_first()[i - 1] == bs[i]);
            }
        }
    }
}

/// The horizontal position an attachment receives at a corner of its nucleus:
/// after the nucleus's advance, kerned against the glyph corners, and for a
/// large-operator nucleus nudged by half the italic correction (outward on
/// top, inward on bottom).
pub open spec fn attach_x_spec<T, S: MathShaper>(
    shaper: S,
    nucleus: MathBox<T>,
    attachment: MathBox<T>,
    position: CornerPosition,
    shift: i64,
    nucleus_is_largeop: bool,
) -> int {
    let kern = crate::multiscripts::attachment_kern_spec(
        shaper,
        nucleus,
        attachment,
        position,
        shift,
    );
    let base = sat(sat(nucleus.origin.x + nucleus.advance_width) + kern);
    if nucleus_is_largeop {
        if position.is_top_spec() {
            sat(base + half(nucleus.italic_correction as int))
        } else {
            sat(base - half(nucleus.italic_correction as int))
        }
    } else {
        base
    }
}

/// What script layout guarantees when at least one script is present: the
/// result is nucleus, then the present scripts, then a trailing space of the
/// space-after-script constant at the rightmost pen position; each script
/// sits at the shift the placement math computes from the boxes' ink extents
/// and at the kerned corner position.
pub open spec fn scripts_box_ok<T, S: MathShaper>(
    shaper: S,
    has_sub: bool,
    has_sup: bool,
    nucleus_is_largeop: bool,
    options: LayoutOptions,
    r: MathBox<T>,
) -> bool {
    &&& r.origin == Point::zero_spec()
    &&& r.content is Boxes
    &&& ({
        let bs = r.content->Boxes_0@;
        let n = bs.len() as int;
        &&& n == (if has_sub && has_sup {
            4int
        } else {
            3int
        })
        &&& r.extents == union_logical(bs)
        &&& r.ink_extents == union_ink(bs)
        &&& ({
            let nucleus = bs[0];
            let space = bs[n - 1];
            &&& nucleus.origin.x == 0
            &&& space.content is Empty
            &&& space.extents.left_side_bearing == 0
            &&& space.extents.width as int == shaper.constant_spec(MathConstant::SpaceAfterScript)
            &&& space.extents.ascent == 0
            &&& space.extents.descent == 0
            &&& space.origin.y == 0
            &&& space.origin.x as int == run_advance(bs.take(n - 1))
            &&& (has_sub && has_sup ==> ({
                let sub = bs[1];
                let sup = bs[2];
                let shifts = crate::multiscripts::subsup_shifts_spec(
                    shaper,
                    sub.ink_extents,
                    sup.ink_extents,
                    nucleus.ink_extents,
                    options.style.is_cramped,
                );
                &&& sub.origin.y as int == shifts.0
                &&& sup.origin.y as int == sat(0 - shifts.1)
                &&& sub.origin.x as int == attach_x_spec(
                    shaper,
                    nucleus,
                    sub,
                    CornerPosition::BottomRight,
                    shifts.0 as i64,
                    nucleus_is_largeop,
                )
                &&& sup.origin.x as int == attach_x_spec(
                    shaper,
                    nucleus,
                    sup,
                    CornerPosition::TopRight,
                    shifts.1 as i64,
                    nucleus_is_largeop,
                )
            }))
            &&& (has_sub && !has_sup ==> ({
                let sub = bs[1];
                let shift = crate::multiscripts::subscript_shift_spec(
                    shaper,
                    sub.ink_extents,
                    nucleus.ink_extents,
                );
                &&& sub.origin.y as int == shift
                &&& sub.origin.x as int == attach_x_spec(
                    shaper,
                    nucleus,
                    sub,
                    CornerPosition::BottomRight,
                    shift as i64,
                    nucleus_is_largeop,
                )
            }))
            &&& (!has_sub && has_sup ==> ({
                let sup = bs[1];
                let shift = crate::multiscripts::superscript_shift_spec(
                    shaper,
                    sup.ink_extents,
                    nucleus.ink_extents,
                    options.style.is_cramped,
                );
                &&& sup.origin.y as int == sat(0 - shift)
                &&& sup.origin.x as int == attach_x_spec(
                    shaper,
                    nucleus,
                    sup,
                    CornerPosition::TopRight,
                    shift as i64,
                    nucleus_is_largeop,
                )
            }))
        })
    })
}

/// The shared sub/superscript routine: scripts are laid out one level deeper
/// (the subscript cramped), shifts come from the placement math, each script
/// is attached at its corner of the nucleus, and a space of the
/// space-after-script constant trails the rightmost pen position. With no
/// script at all the nucleus is returned unchanged.
#[verifier::rlimit(100)]
#[verifier::spinoff_prover]
pub fn layout_sub_superscript<T, S: MathShaper>(
    subscript: Option<Box<MathExpression<T>>>,
    superscript: Option<Box<MathExpression<T>>>,
    nucleus: MathExpression<T>,
    options: LayoutOptions,
    shaper: &S,
) -> (r: MathBox<T>)
    ensures
        r.origin == Point::zero_spec(),
        subscript is Some || superscript is Some ==> scripts_box_ok(
            *shaper,
            subscript is Some,
            superscript is Some,
            nucleus.content is Operator && nucleus.content->Operator_0.is_large_op,
            options,
            r,
        ),
        subscript is Some || superscript is Some ==> ({
            let bs = r.content->Boxes_0@;
            &&& bs[0].user_info == Some(nucleus.user_info)
            &&& (subscript is Some ==> bs[1].user_info == Some(subscript->Some_0.user_info))
            &&& (superscript is Some ==> bs[(
                if subscript is Some {
                    2int
                } else {
                    1int
                }
            )].user_info == Some(superscript->Some_0.user_info))
        }),
        subscript is None && superscript is None ==> r.user_info == Some(nucleus.user_info)
            && (nucleus.content is Space ==> space_box_ok(*shaper, nucleus.content->Space_0, r))
            && (nucleus.content is Field ==> field_box_ok(
            *shaper,
            nucleus.content->Field_0,
            options,
            r,
        )) && (nucleus.content is Operator ==> operator_box_ok(
            *shaper,
            nucleus.content->Operator_0,
            options,
            r,
        )) && (nucleus.content is GeneralizedFraction ==> fraction_box_ok(*shaper, options, r)) && (
        nucleus.content is List ==> list_box_ok(*shaper, nucleus.content->List_0@, options, r)) && (
        nucleus.content is Root ==> root_box_ok(
            *shaper,
            options,
            nucleus.content->Root_0.degree is Some,
            r,
        )) && (nucleus.content is OverUnder ==> over_under_box_ok(
            *shaper,
            nucleus.content->OverUnder_0,
            options,
            r,
        )) && (nucleus.content is Atom && (nucleus.content->Atom_0.top_right is Some
            || nucleus.content->Atom_0.bottom_right is Some) ==> scripts_box_ok(
            *shaper,
            nucleus.content->Atom_0.bottom_right is Some,
            nucleus.content->Atom_0.top_right is Some,
            nucleus.content->Atom_0.nucleus.content is Operator
                && nucleus.content->Atom_0.nucleus.content->Operator_0.is_large_op,
            options,
            r,
        )),
        (subscript is Some || superscript is Some) && nucleus.content is Field
            && nucleus.content->Field_0 is Unicode ==> is_glyph_run(
            *shaper,
            r.content->Boxes_0@[0],
            shaper.shape_spec(nucleus.content->Field_0->Unicode_0@, options.style),
            shaper.scale_spec(options.style.script_level),
        ),
        subscript is Some && subscript->Some_0.content is Field
            && subscript->Some_0.content->Field_0 is Unicode ==> ({
            let sub_style = options.style.subscript_style_spec();
            let sub = r.content->Boxes_0@[1];
            sub.content is Boxes && glyph_run_children(
                *shaper,
                sub.content->Boxes_0@,
                shaper.shape_spec(subscript->Some_0.content->Field_0->Unicode_0@, sub_style),
                shaper.scale_spec(sub_style.script_level),
            )
        }),
        superscript is Some && superscript->Some_0.content is Field
            && superscript->Some_0.content->Field_0 is Unicode ==> ({
            let sup_style = options.style.superscript_style_spec();
            let sup = r.content->Boxes_0@[(
                if subscript is Some {
                    2int
                } else {
                    1int
                }
            )];
            sup.content is Boxes && glyph_run_children(
                *shaper,
                sup.content->Boxes_0@,
                shaper.shape_spec(superscript->Some_0.content->Field_0->Unicode_0@, sup_style),
                shaper.scale_spec(sup_style.script_level),
            )
        }),
    decreases opt_size(subscript) + opt_size(superscript) + exp_size(nucleus), 0int,
{
    let subscript_options = LayoutOptions { style: options.style.subscript_style(), ..options };
    let superscript_options = LayoutOptions {
        style: options.style.superscript_style(),
        ..options
    };
    let sub_box: Option<MathBox<T>> = match subscript {
        Some(b) => Some(layout_expression(*b, subscript_options, shaper)),
        None => None,
    };
    let sup_box: Option<MathBox<T>> = match superscript {
        Some(b) => Some(layout_expression(*b, superscript_options, shaper)),
        None => None,
    };
    let nucleus_is_largeop = match &nucleus.content {
        MathItem::Operator(op) => op.is_large_op,
        _ => false,
    };
    let MathExpression { content, user_info } = nucleus;
    let mut nucleus_box: MathBox<T> = layout_item(content, options, shaper);
    nucleus_box.user_info = Some(user_info);

    let space_after_script = shaper.math_constant(MathConstant::SpaceAfterScript);

    let mut result: Vec<MathBox<T>> = Vec::new();
    match (sub_box, sup_box) {
        (Some(mut sub), Some(mut sup)) => {
            let shifts = get_subsup_shifts(&sub, &sup, &nucleus_box, shaper, options.style);
            let ghost sub0 = sub;
            let ghost sup0 = sup;
            position_attachment(
                &mut sub,
                &nucleus_box,
                nucleus_is_largeop,
                CornerPosition::BottomRight,
                shifts.0,
                shaper,
            );
            position_attachment(
                &mut sup,
                &nucleus_box,
                nucleus_is_largeop,
                CornerPosition::TopRight,
                shifts.1,
                shaper,
            );
            proof {
                assert(crate::multiscripts::attachment_kern_spec(
                    *shaper,
                    nucleus_box,
                    sub,
                    CornerPosition::BottomRight,
                    shifts.0,
                ) == crate::multiscripts::attachment_kern_spec(
                    *shaper,
                    nucleus_box,
                    sub0,
                    CornerPosition::BottomRight,
                    shifts.0,
                ));
                assert(crate::multiscripts::attachment_kern_spec(
                    *shaper,
                    nucleus_box,
                    sup,
                    CornerPosition::TopRight,
                    shifts.1,
                ) == crate::multiscripts::attachment_kern_spec(
                    *shaper,
                    nucleus_box,
                    sup0,
                    CornerPosition::TopRight,
                    shifts.1,
                ));
            }
            result.push(nucleus_box);
            result.push(sub);
            result.push(sup);
        },
        (Some(mut sub), None) => {
            let sub_shift = get_subscript_shift_dn(&sub, &nucleus_box, shaper);
            let ghost sub0 = sub;
            position_attachment(
                &mut sub,
                &nucleus_box,
                nucleus_is_largeop,
                CornerPosition::BottomRight,
                sub_shift,
                shaper,
            );
            proof {
                assert(crate::multiscripts::attachment_kern_spec(
                    *shaper,
                    nucleus_box,
                    sub,
                    CornerPosition::BottomRight,
                    sub_shift,
                ) == crate::multiscripts::attachment_kern_spec(
                    *shaper,
                    nucleus_box,
                    sub0,
                    CornerPosition::BottomRight,
                    sub_shift,
                ));
            }
            result.push(nucleus_box);
            result.push(sub);
        },
        (None, Some(mut sup)) => {
            let sup_shift = get_superscript_shift_up(&sup, &nucleus_box, shaper, options.style);
            let ghost sup0 = sup;
            position_attachment(
                &mut sup,
                &nucleus_box,
                nucleus_is_largeop,
                CornerPosition::TopRight,
                sup_shift,
                shaper,
            );
            proof {
                assert(crate::multiscripts::attachment_kern_spec(
                    *shaper,
                    nucleus_box,
                    sup,
                    CornerPosition::TopRight,
                    sup_shift,
                ) == crate::multiscripts::attachment_kern_spec(
                    *shaper,
                    nucleus_box,
                    sup0,
                    CornerPosition::TopRight,
                    sup_shift,
                ));
            }
            result.push(nucleus_box);
            result.push(sup);
        },
        (None, None) => {
            return nucleus_box;
        },
    }
    // trailing space at the rightmost pen position among the parts
    let mut space: MathBox<T> = MathBox::empty(
        Extents { left_side_bearing: 0, width: space_after_script, ascent: 0, descent: 0 },
    );
    let mut rightmost: i64 = sadd(result[0].origin.x, result[0].advance_width);
    let mut i: usize = 1;
    while i < result.len()
        invariant
            1 <= i <= result@.len(),
            result@.len() >= 2,
            rightmost as int == run_advance(result@.take(i as int)),
        decreases result@.len() - i,
    {
        rightmost = imax(rightmost, sadd(result[i].origin.x, result[i].advance_width));
        proof {
            assert(result@.take(i + 1).drop_last() =~= result@.take(i as int));
            assert(result@.take(i + 1).last() == result@[i as int]);
        }
        i += 1;
    }
    proof {
        assert(result@.take(result@.len() as int) =~= result@);
        assert(result@.take(1int).drop_last() =~= Seq::<MathBox<T>>::empty());
    }
    space.origin.x = rightmost;
    let ghost parts = result@;
    result.push(space);
    proof {
        assert(result@.take(result@.len() - 1) =~= parts);
    }
    MathBox::with_vec(result)
}

/// Inline-style limits collapse to scripts; a thin front for the shared
/// script routine stating only what over/under layout passes on.
fn layout_collapsed_limits<T, S: MathShaper>(
    subscript: Option<Box<MathExpression<T>>>,
    superscript: Option<Box<MathExpression<T>>>,
    nucleus: MathExpression<T>,
    options: LayoutOptions,
    shaper: &S,
) -> (r: MathBox<T>)
    ensures
        r.origin == Point::zero_spec(),
        subscript is Some || superscript is Some ==> scripts_box_ok(
            *shaper,
            subscript is Some,
            superscript is Some,
            nucleus.content is Operator && nucleus.content->Operator_0.is_large_op,
            options,
            r,
        ),
        subscript is Some || superscript is Some ==> ({
            let bs = r.content->Boxes_0@;
            &&& bs[0].user_info == Some(nucleus.user_info)
            &&& (subscript is Some ==> bs[1].user_info == Some(subscript->Some_0.user_info))
            &&& (superscript is Some ==> bs[(
                if subscript is Some {
                    2int
                } else {
                    1int
                }
            )].user_info == Some(superscript->Some_0.user_info))
        }),
    decreases opt_size(subscript) + opt_size(superscript) + exp_size(nucleus), 1int,
{
    layout_sub_superscript(subscript, superscript, nucleus, options, shaper)
}

/// Lay out one part of an over/under stack; a thin front for
/// `layout_expression` stating only what the stacking needs.
fn layout_stack_part<T, S: MathShaper>(
    expr: MathExpression<T>,
    options: LayoutOptions,
    shaper: &S,
) -> (r: MathBox<T>)
    ensures
        r.origin == Point::zero_spec(),
        r.user_info == Some(expr.user_info),
        expr.content is Field ==> field_box_ok(*shaper, expr.content->Field_0, options, r),
    decreases exp_size(expr), 1int,
{
    layout_expression(expr, options, shaper)
}

/// Everything over/under layout guarantees of its result.
pub open spec fn over_under_box_ok<T, S: MathShaper>(
    shaper: S,
    over_under: OverUnder<T>,
    options: LayoutOptions,
    r: MathBox<T>,
) -> bool {
    &&& r.origin == Point::zero_spec()
    &&& over_under.is_limits && options.style.math_style == MathStyle::Inline && (
        over_under.under is Some || over_under.over is Some) ==> scripts_box_ok(
            shaper,
            over_under.under is Some,
            over_under.over is Some,
            over_under.nucleus.content is Operator
                && over_under.nucleus.content->Operator_0.is_large_op,
            options,
            r,
        )
    &&& !(over_under.is_limits && options.style.math_style == MathStyle::Inline) && (
        over_under.over is Some || over_under.under is Some) ==> r.content is Boxes
            && r.content->Boxes_0@.len() == 2 && r.extents == union_logical(r.content->Boxes_0@)
            && r.ink_extents == union_ink(r.content->Boxes_0@) && (over_under.over is Some && over_under.under is Some ==> r.content->Boxes_0@[1].content is Boxes
            && r.content->Boxes_0@[1].content->Boxes_0@.len() == 2)
    &&& !(over_under.is_limits && options.style.math_style == MathStyle::Inline) && (
        over_under.over is Some || over_under.under is Some) ==> ({
            let bs = r.content->Boxes_0@;
            let largeop = over_under.nucleus.content is Operator
                && over_under.nucleus.content->Operator_0.is_large_op;
            let hstretchy = can_stretch_spec(shaper, *over_under.nucleus);
            let outer_is_over = over_under.under is None;
            let outer_accent = if outer_is_over {
                over_under.over_is_accent
            } else {
                over_under.under_is_accent
            };
            &&& bs[0].origin.y as int == sat(
                over_under_offset_spec(
                    shaper,
                    bs[1].extents,
                    bs[0].extents,
                    outer_is_over,
                    outer_accent,
                    largeop,
                    hstretchy,
                ),
            )
            &&& bs[0].user_info == Some(
                if outer_is_over {
                    over_under.over->Some_0.user_info
                } else {
                    over_under.under->Some_0.user_info
                },
            )
            &&& (!(over_under.over is Some && over_under.under is Some) ==> bs[1].user_info
                == Some(over_under.nucleus.user_info))
            &&& (over_under.over is Some && over_under.under is Some ==> ({
                let inner = bs[1].content->Boxes_0@;
                &&& inner[0].origin.y as int == sat(
                    over_under_offset_spec(
                        shaper,
                        inner[1].extents,
                        inner[0].extents,
                        true,
                        over_under.over_is_accent,
                        largeop,
                        hstretchy,
                    ),
                )
                &&& inner[0].user_info == Some(over_under.over->Some_0.user_info)
                &&& inner[1].user_info == Some(over_under.nucleus.user_info)
            }))
        })
    &&& !(over_under.is_limits && options.style.math_style == MathStyle::Inline) && (
        over_under.over is Some || over_under.under is Some) && (if over_under.under is Some {
            over_under.under->Some_0
        } else {
            over_under.over->Some_0
        }).content is Field && (if over_under.under is Some {
            over_under.under->Some_0
        } else {
            over_under.over->Some_0
        }).content->Field_0 is Unicode ==> ({
            let att_expr = if over_under.under is Some {
                over_under.under->Some_0
            } else {
                over_under.over->Some_0
            };
            let att_style = if over_under.under is Some {
                under_attachment_style(options.style, over_under.under_is_accent)
            } else {
                over_attachment_style(options.style, over_under.over_is_accent)
            };
            let att = r.content->Boxes_0@[0];
            att.content is Boxes && glyph_run_children(
                shaper,
                att.content->Boxes_0@,
                shaper.shape_spec(att_expr.content->Field_0->Unicode_0@, att_style),
                shaper.scale_spec(att_style.script_level),
            )
        })
}

/// Stack one attachment against a nucleus; a thin front for
/// `layout_over_or_under` stating only what the stacked layout passes on.
fn stack_one<T, S: MathShaper>(
    attachment: MathBox<T>,
    nucleus: MathBox<T>,
    shaper: &S,
    style: LayoutStyle,
    as_over: bool,
    as_accent: bool,
    nucleus_is_large_op: bool,
    nucleus_is_horizontally_stretchy: bool,
) -> (r: MathBox<T>)
    ensures
        r.origin == Point::zero_spec(),
        r.content is Boxes,
        r.content->Boxes_0@.len() == 2,
        r.extents == union_logical(r.content->Boxes_0@),
        r.ink_extents == union_ink(r.content->Boxes_0@),
        r.content->Boxes_0@[0] == (MathBox {
            origin: r.content->Boxes_0@[0].origin,
            ..attachment
        }),
        r.content->Boxes_0@[1] == (MathBox { origin: r.content->Boxes_0@[1].origin, ..nucleus }),
        r.content->Boxes_0@[0].origin.y as int == sat(
            sat(attachment.origin.y + nucleus.origin.y) + over_under_offset_spec(
                *shaper,
                nucleus.extents,
                attachment.extents,
                as_over,
                as_accent,
                nucleus_is_large_op,
                nucleus_is_horizontally_stretchy,
            ),
        ),
{
    layout_over_or_under(
        attachment,
        nucleus,
        shaper,
        style,
        as_over,
        as_accent,
        nucleus_is_large_op,
        nucleus_is_horizontally_stretchy,
    )
}

/// The stacked (non-collapsed) over/under layout: non-stretchy parts are
/// laid eagerly, stretchy parts re-laid to the widest part or the ambient
/// request, then over and under are stacked against the nucleus.
#[verifier::rlimit(100)]
#[verifier::spinoff_prover]
fn layout_stacked_over_under<T, S: MathShaper>(
    nucleus: Box<MathExpression<T>>,
    over: Option<Box<MathExpression<T>>>,
    under: Option<Box<MathExpression<T>>>,
    over_is_accent: bool,
    under_is_accent: bool,
    options: LayoutOptions,
    shaper: &S,
) -> (r: MathBox<T>)
    ensures
        r.origin == Point::zero_spec(),
        over is Some || under is Some ==> r.content is Boxes
            && r.content->Boxes_0@.len() == 2 && r.extents == union_logical(r.content->Boxes_0@)
            && r.ink_extents == union_ink(r.content->Boxes_0@) && (over is Some && under is Some ==> r.content->Boxes_0@[1].content is Boxes
            && r.content->Boxes_0@[1].content->Boxes_0@.len() == 2),
        over is Some || under is Some ==> ({
            let bs = r.content->Boxes_0@;
            let largeop = nucleus.content is Operator && nucleus.content->Operator_0.is_large_op;
            let hstretchy = can_stretch_spec(*shaper, *nucleus);
            let outer_is_over = under is None;
            let outer_accent = if outer_is_over {
                over_is_accent
            } else {
                under_is_accent
            };
            // the outermost attachment sits at the stacking offset against
            // the rest, and is the box of the matching input expression
            &&& bs[0].origin.y as int == sat(
                over_under_offset_spec(
                    *shaper,
                    bs[1].extents,
                    bs[0].extents,
                    outer_is_over,
                    outer_accent,
                    largeop,
                    hstretchy,
                ),
            )
            &&& bs[0].user_info == Some(
                if outer_is_over {
                    over->Some_0.user_info
                } else {
                    under->Some_0.user_info
                },
            )
            &&& (!(over is Some && under is Some) ==> bs[1].user_info == Some(
                nucleus.user_info,
            ))
            &&& (over is Some && under is Some ==> ({
                let inner = bs[1].content->Boxes_0@;
                &&& inner[0].origin.y as int == sat(
                    over_under_offset_spec(
                        *shaper,
                        inner[1].extents,
                        inner[0].extents,
                        true,
                        over_is_accent,
                        largeop,
                        hstretchy,
                    ),
                )
                &&& inner[0].user_info == Some(over->Some_0.user_info)
                &&& inner[1].user_info == Some(nucleus.user_info)
            }))
        }),
        (over is Some || under is Some) && (if under is Some {
            under->Some_0
        } else {
            over->Some_0
        }).content is Field && (if under is Some {
            under->Some_0
        } else {
            over->Some_0
        }).content->Field_0 is Unicode ==> ({
            let att_expr = if under is Some {
                under->Some_0
            } else {
                over->Some_0
            };
            let att_style = if under is Some {
                under_attachment_style(options.style, under_is_accent)
            } else {
                over_attachment_style(options.style, over_is_accent)
            };
            let att = r.content->Boxes_0@[0];
            att.content is Boxes && glyph_run_children(
                *shaper,
                att.content->Boxes_0@,
                shaper.shape_spec(att_expr.content->Field_0->Unicode_0@, att_style),
                shaper.scale_spec(att_style.script_level),
            )
        }),
    decreases opt_size(over) + opt_size(under) + exp_size(*nucleus), 2int,
{
    let nucleus_is_largeop = match &nucleus.content {
        MathItem::Operator(op) => op.is_large_op,
        _ => false,
    };
    let nucleus_is_horizontally_stretchy = can_stretch(&nucleus, shaper);

    let mut over_options = LayoutOptions {
        style: options.style.inline_style(),
        stretch_size: None,
        ..options
    };
    if !over_is_accent {
        over_options.style = over_options.style.superscript_style();
    }
    let mut under_options = LayoutOptions {
        style: options.style.inline_style(),
        stretch_size: None,
        ..options
    };
    if !under_is_accent {
        under_options.style = under_options.style.subscript_style();
    }

    // first lay out whatever cannot stretch
    let nucleus_can = can_stretch(&nucleus, shaper);
    let mut nucleus_expr: Option<MathExpression<T>> = None;
    let mut nucleus_box: Option<MathBox<T>> = None;
    if nucleus_can {
        nucleus_expr = Some(*nucleus);
    } else {
        nucleus_box = Some(layout_stack_part(*nucleus, options, shaper));
    }
    let mut over_expr: Option<MathExpression<T>> = None;
    let mut over_box: Option<MathBox<T>> = None;
    match over {
        Some(b) => {
            if can_stretch(&b, shaper) {
                over_expr = Some(*b);
            } else {
                over_box = Some(layout_stack_part(*b, over_options, shaper));
            }
        },
        None => {},
    }
    let mut under_expr: Option<MathExpression<T>> = None;
    let mut under_box: Option<MathBox<T>> = None;
    match under {
        Some(b) => {
            if can_stretch(&b, shaper) {
                under_expr = Some(*b);
            } else {
                under_box = Some(layout_stack_part(*b, under_options, shaper));
            }
        },
        None => {},
    }

    // the widest non-stretchy part, or the ambient request, decides the width
    let mut max_width: i64 = 0;
    match &nucleus_box {
        Some(b) => max_width = imax(max_width, b.extents.width),
        None => {},
    }
    match &over_box {
        Some(b) => max_width = imax(max_width, b.extents.width),
        None => {},
    }
    match &under_box {
        Some(b) => max_width = imax(max_width, b.extents.width),
        None => {},
    }
    match options.stretch_size {
        Some(size) => max_width = imax(max_width, size.width),
        None => {},
    }

    // now stretch the rest to that width
    match nucleus_expr {
        Some(e) => {
            let base = match options.stretch_size {
                Some(size) => size,
                None => Extents::zero(),
            };
            let opts = LayoutOptions {
                stretch_size: Some(Extents { width: max_width, ..base }),
                as_accent: false,
                ..options
            };
            nucleus_box = Some(layout_stack_part(e, opts, shaper));
        },
        None => {},
    }
    match over_expr {
        Some(e) => {
            let opts = LayoutOptions {
                stretch_size: Some(Extents { width: max_width, ..Extents::zero() }),
                as_accent: over_is_accent,
                ..over_options
            };
            over_box = Some(layout_stack_part(e, opts, shaper));
        },
        None => {},
    }
    match under_expr {
        Some(e) => {
            let opts = LayoutOptions {
                stretch_size: Some(Extents { width: max_width, ..Extents::zero() }),
                as_accent: under_is_accent,
                ..under_options
            };
            under_box = Some(layout_stack_part(e, opts, shaper));
        },
        None => {},
    }

    let mut combined: MathBox<T> = match nucleus_box {
        Some(b) => b,
        None => MathBox::empty(Extents::zero()),
    };
    match over_box {
        Some(b) => {
            combined = stack_one(
                b,
                combined,
                shaper,
                over_options.style,
                true,
                over_is_accent,
                nucleus_is_largeop,
                nucleus_is_horizontally_stretchy,
            );
        },
        None => {},
    }
    match under_box {
        Some(b) => {
            combined = stack_one(
                b,
                combined,
                shaper,
                under_options.style,
                false,
                under_is_accent,
                nucleus_is_largeop,
                nucleus_is_horizontally_stretchy,
            );
        },
        None => {},
    }
    combined
}

/// Fraction layout: the numerator keeps Display style demoted to Inline (or
/// one script level deeper otherwise), the denominator is additionally
/// cramped; both are shifted away from the math axis far enough for the
/// gap-minimum constants, centered against each other, and the fraction rule
/// spans the horizontal union of their extents at exactly the axis height.

/// Over/under layout: limits collapse to scripts in Inline style; otherwise
/// the parts are stacked; see `layout_stacked_over_under`.
#[verifier::rlimit(100)]
#[verifier::spinoff_prover]
pub fn layout_over_under<T, S: MathShaper>(
    over_under: OverUnder<T>,
    options: LayoutOptions,
    shaper: &S,
) -> (r: MathBox<T>)
    ensures
        r.origin == Point::zero_spec(),
        over_under.is_limits && options.style.math_style == MathStyle::Inline && (
        over_under.under is Some || over_under.over is Some) ==> scripts_box_ok(
            *shaper,
            over_under.under is Some,
            over_under.over is Some,
            over_under.nucleus.content is Operator
                && over_under.nucleus.content->Operator_0.is_large_op,
            options,
            r,
        ),
        !(over_under.is_limits && options.style.math_style == MathStyle::Inline) && (
        over_under.over is Some || over_under.under is Some) ==> r.content is Boxes
            && r.content->Boxes_0@.len() == 2 && r.extents == union_logical(r.content->Boxes_0@)
            && r.ink_extents == union_ink(r.content->Boxes_0@) && (over_under.over is Some && over_under.under is Some ==> r.content->Boxes_0@[1].content is Boxes
            && r.content->Boxes_0@[1].content->Boxes_0@.len() == 2),
        !(over_under.is_limits && options.style.math_style == MathStyle::Inline) && (
        over_under.over is Some || over_under.under is Some) ==> ({
            let bs = r.content->Boxes_0@;
            let largeop = over_under.nucleus.content is Operator
                && over_under.nucleus.content->Operator_0.is_large_op;
            let hstretchy = can_stretch_spec(*shaper, *over_under.nucleus);
            let outer_is_over = over_under.under is None;
            let outer_accent = if outer_is_over {
                over_under.over_is_accent
            } else {
                over_under.under_is_accent
            };
            &&& bs[0].origin.y as int == sat(
                over_under_offset_spec(
                    *shaper,
                    bs[1].extents,
                    bs[0].extents,
                    outer_is_over,
                    outer_accent,
                    largeop,
                    hstretchy,
                ),
            )
            &&& bs[0].user_info == Some(
                if outer_is_over {
                    over_under.over->Some_0.user_info
                } else {
                    over_under.under->Some_0.user_info
                },
            )
            &&& (!(over_under.over is Some && over_under.under is Some) ==> bs[1].user_info
                == Some(over_under.nucleus.user_info))
            &&& (over_under.over is Some && over_under.under is Some ==> ({
                let inner = bs[1].content->Boxes_0@;
                &&& inner[0].origin.y as int == sat(
                    over_under_offset_spec(
                        *shaper,
                        inner[1].extents,
                        inner[0].extents,
                        true,
                        over_under.over_is_accent,
                        largeop,
                        hstretchy,
                    ),
                )
                &&& inner[0].user_info == Some(over_under.over->Some_0.user_info)
                &&& inner[1].user_info == Some(over_under.nucleus.user_info)
            }))
        }),
        !(over_under.is_limits && options.style.math_style == MathStyle::Inline) && (
        over_under.over is Some || over_under.under is Some) && (if over_under.under is Some {
            over_under.under->Some_0
        } else {
            over_under.over->Some_0
        }).content is Field && (if over_under.under is Some {
            over_under.under->Some_0
        } else {
            over_under.over->Some_0
        }).content->Field_0 is Unicode ==> ({
            let att_expr = if over_under.under is Some {
                over_under.under->Some_0
            } else {
                over_under.over->Some_0
            };
            let att_style = if over_under.under is Some {
                under_attachment_style(options.style, over_under.under_is_accent)
            } else {
                over_attachment_style(options.style, over_under.over_is_accent)
            };
            let att = r.content->Boxes_0@[0];
            att.content is Boxes && glyph_run_children(
                *shaper,
                att.content->Boxes_0@,
                shaper.shape_spec(att_expr.content->Field_0->Unicode_0@, att_style),
                shaper.scale_spec(att_style.script_level),
            )
        }),
    decreases opt_size(over_under.over) + opt_size(over_under.under) + exp_size(
        *over_under.nucleus,
    ), 3int,
{
    let OverUnder { nucleus, over, under, over_is_accent, under_is_accent, is_limits } =
        over_under;
    if is_limits && options.style.math_style == MathStyle::Inline {
        return layout_collapsed_limits(under, over, *nucleus, options, shaper);
    }
    layout_stacked_over_under(nucleus, over, under, over_is_accent, under_is_accent, options, shaper)
}

/// Everything fraction layout guarantees of its result.
pub open spec fn fraction_box_ok<T, S: MathShaper>(
    shaper: S,
    options: LayoutOptions,
    r: MathBox<T>,
) -> bool {
    &&& r.origin == Point::zero_spec()
    &&& r.content is Boxes
    &&& r.content->Boxes_0@.len() == 3
    &&& ({
            let bs = r.content->Boxes_0@;
            let axis = shaper.constant_spec(MathConstant::AxisHeight);
            let th = shaper.constant_spec(MathConstant::FractionRuleThickness);
            let rule_left = if sat(bs[0].origin.x + bs[0].extents.left_side_bearing) <= sat(
                bs[2].origin.x + bs[2].extents.left_side_bearing,
            ) {
                sat(bs[0].origin.x + bs[0].extents.left_side_bearing)
            } else {
                sat(bs[2].origin.x + bs[2].extents.left_side_bearing)
            };
            let rule_right = if sat(bs[0].origin.x + bs[0].extents.right_edge_spec()) >= sat(
                bs[2].origin.x + bs[2].extents.right_edge_spec(),
            ) {
                sat(bs[0].origin.x + bs[0].extents.right_edge_spec())
            } else {
                sat(bs[2].origin.x + bs[2].extents.right_edge_spec())
            };
            &&& bs[1].origin.y as int == -axis
            &&& bs[1].content is Line
            &&& bs[1].content->Line_thickness == (if th >= 0 {
                th
            } else {
                0
            })
            &&& bs[1].origin.x as int == rule_left
            &&& bs[1].extents.width as int == sat(rule_right - rule_left)
            &&& ({
                let display = options.style.math_style == MathStyle::Display;
                &&& bs[0].origin.y as int == sat(
                    -axis - fraction_num_shift_spec(shaper, display, bs[0].extents.descent as int),
                )
                &&& bs[2].origin.y as int == sat(
                    -axis + fraction_den_shift_spec(shaper, display, bs[2].extents.ascent as int),
                )
            })
            &&& bs[0].origin.x >= 0
            &&& bs[2].origin.x >= 0
            &&& (bs[0].origin.x == 0 || bs[2].origin.x == 0)
            &&& ((-0x1000_0000_0000 <= bs[0].extents.left_side_bearing <= 0x1000_0000_0000
                && -0x1000_0000_0000 <= bs[0].extents.width <= 0x1000_0000_0000
                && -0x1000_0000_0000 <= bs[2].extents.left_side_bearing <= 0x1000_0000_0000
                && -0x1000_0000_0000 <= bs[2].extents.width <= 0x1000_0000_0000) ==> sat(
                bs[0].origin.x + bs[0].extents.center_spec(),
            ) == sat(bs[2].origin.x + bs[2].extents.center_spec()))
        })
}

#[verifier::rlimit(100)]
#[verifier::spinoff_prover]
pub fn layout_fraction<T, S: MathShaper>(
    frac: GeneralizedFraction<T>,
    options: LayoutOptions,
    shaper: &S,
) -> (r: MathBox<T>)
    ensures
        fraction_box_ok(*shaper, options, r),
        r.content->Boxes_0@[0].user_info == Some(frac.numerator.user_info),
        r.content->Boxes_0@[2].user_info == Some(frac.denominator.user_info),
        frac.numerator.content is Field && frac.numerator.content->Field_0 is Unicode ==> ({
            let num_style = fraction_numerator_style(options.style);
            let num = r.content->Boxes_0@[0];
            num.content is Boxes && glyph_run_children(
                *shaper,
                num.content->Boxes_0@,
                shaper.shape_spec(frac.numerator.content->Field_0->Unicode_0@, num_style),
                shaper.scale_spec(num_style.script_level),
            )
        }),
        frac.denominator.content is Field && frac.denominator.content->Field_0 is Unicode ==> ({
            let den_style = fraction_denominator_style(options.style);
            let den = r.content->Boxes_0@[2];
            den.content is Boxes && glyph_run_children(
                *shaper,
                den.content->Boxes_0@,
                shaper.shape_spec(frac.denominator.content->Field_0->Unicode_0@, den_style),
                shaper.scale_spec(den_style.script_level),
            )
        }),
    decreases exp_size(*frac.numerator) + exp_size(*frac.denominator), 1int,
{
    let mut numerator_options = options;
    if options.style.math_style == MathStyle::Display {
        numerator_options.style.math_style = MathStyle::Inline;
    } else {
        numerator_options.style = numerator_options.style.deeper();
    }
    let denominator_options = LayoutOptions {
        style: numerator_options.style.cramped_style(),
        ..options
    };
    let mut numerator = layout_expression(*frac.numerator, numerator_options, shaper);
    let mut denominator = layout_expression(*frac.denominator, denominator_options, shaper);

    let axis_height = shaper.math_constant(MathConstant::AxisHeight);
    let default_thickness = shaper.math_constant(MathConstant::FractionRuleThickness);

    let display = options.style.math_style == MathStyle::Display;
    let numerator_shift_const = if display {
        shaper.math_constant(MathConstant::FractionNumeratorDisplayStyleShiftUp)
    } else {
        shaper.math_constant(MathConstant::FractionNumeratorShiftUp)
    };
    let denominator_shift_const = if display {
        shaper.math_constant(MathConstant::FractionDenominatorDisplayStyleShiftDown)
    } else {
        shaper.math_constant(MathConstant::FractionDenominatorShiftDown)
    };
    let numerator_gap_min = if display {
        shaper.math_constant(MathConstant::FractionNumDisplayStyleGapMin)
    } else {
        shaper.math_constant(MathConstant::FractionNumeratorGapMin)
    };
    let denominator_gap_min = if display {
        shaper.math_constant(MathConstant::FractionDenomDisplayStyleGapMin)
    } else {
        shaper.math_constant(MathConstant::FractionDenominatorGapMin)
    };

    let numerator_shift_up = imax(
        ssub(numerator_shift_const, axis_height),
        sadd(sadd(numerator_gap_min, crate::geom::div2(default_thickness)), numerator.extents.descent),
    );
    let denominator_shift_dn = imax(
        sadd(denominator_shift_const, axis_height),
        sadd(
            sadd(denominator_gap_min, crate::geom::div2(default_thickness)),
            denominator.extents.ascent,
        ),
    );

    numerator.origin.y = ssub(numerator.origin.y, axis_height);
    denominator.origin.y = ssub(denominator.origin.y, axis_height);
    numerator.origin.y = ssub(numerator.origin.y, numerator_shift_up);
    denominator.origin.y = sadd(denominator.origin.y, denominator_shift_dn);

    // centering
    let center_difference = ssub(
        sadd(numerator.origin.x, numerator.extents.center()),
        sadd(denominator.origin.x, denominator.extents.center()),
    );
    if center_difference < 0 {
        numerator.origin.x = ssub(numerator.origin.x, center_difference);
    } else {
        denominator.origin.x = sadd(denominator.origin.x, center_difference);
    }

    // the fraction rule
    let origin = Point {
        x: imin(
            sadd(numerator.origin.x, numerator.extents.left_side_bearing),
            sadd(denominator.origin.x, denominator.extents.left_side_bearing),
        ),
        y: -axis_height,
    };
    let target = Point {
        x: imax(
            sadd(numerator.origin.x, numerator.extents.right_edge()),
            sadd(denominator.origin.x, denominator.extents.right_edge()),
        ),
        y: -axis_height,
    };
    let fraction_rule: MathBox<T> = MathBox::with_line(origin, target, default_thickness);

    let mut children: Vec<MathBox<T>> = Vec::new();
    children.push(numerator);
    children.push(fraction_rule);
    children.push(denominator);
    MathBox::with_vec(children)
}

/// The stretch target the root construction needs: the radicand's height plus
/// the style's radical gap plus the rule thickness, floored at zero.
pub open spec fn surd_target_spec<S: MathShaper>(
    shaper: S,
    display: bool,
    radicand_extents: Extents,
) -> int {
    let th = shaper.constant_spec(MathConstant::RadicalRuleThickness);
    let gap = if display {
        shaper.constant_spec(MathConstant::RadicalDisplayStyleVerticalGap)
    } else {
        shaper.constant_spec(MathConstant::RadicalVerticalGap)
    };
    let needed = sat(sat(radicand_extents.height_spec() + gap) + th);
    if needed >= 0 {
        needed
    } else {
        0
    }
}

/// Root layout: the radicand is laid out first to learn its height, a surd is
/// shaped and stretched to at least radicand height + radical gap + rule
/// thickness (falling back to the unstretched glyph when no variant exists),
/// raised so the excess is split evenly around the radicand, the radical rule
/// runs from the surd's top across the radicand, and a degree, if present, is
/// laid out two script levels deeper in Inline style and kerned before the
/// surd. The result is [degree,] surd, rule, radicand, and if the font had a
/// stretched variant, the glyph run it returned spans at least the needed
/// height.
/// Everything root layout guarantees of its result.
pub open spec fn root_box_ok<T, S: MathShaper>(
    shaper: S,
    options: LayoutOptions,
    degree_present: bool,
    r: MathBox<T>,
) -> bool {
    &&& r.origin == Point::zero_spec()
    &&& r.content is Boxes
    &&& ({
            let bs = r.content->Boxes_0@;
            let display = options.style.math_style == MathStyle::Display;
            &&& bs.len() == (if degree_present {
                4int
            } else {
                3int
            })
            &&& ({
                let surd = bs[bs.len() - 3];
                let rule = bs[bs.len() - 2];
                let radicand = bs[bs.len() - 1];
                let th = shaper.constant_spec(MathConstant::RadicalRuleThickness);
                let gap = if display {
                    shaper.constant_spec(MathConstant::RadicalDisplayStyleVerticalGap)
                } else {
                    shaper.constant_spec(MathConstant::RadicalVerticalGap)
                };
                // the radical rule sits at the surd's top, half the rule
                // thickness in, and runs to the radicand's right edge
                &&& rule.content is Line
                &&& rule.content->Line_thickness == (if th >= 0 {
                    th as i64
                } else {
                    0
                })
                &&& rule.origin.x as int == sat(surd.origin.x + surd.advance_width)
                &&& rule.origin.y as int == sat(sat(surd.origin.y - surd.extents.ascent) + half(th))
                &&& rule.extents.width as int == sat(
                    sat(surd.advance_width + radicand.extents.right_edge_spec())
                        - surd.advance_width,
                )
                // the radicand goes right after the surd, on the baseline
                &&& radicand.origin.x == rule.origin.x
                &&& radicand.origin.y == 0
                // the surd's excess height is split evenly around the radicand
                &&& surd.origin.y as int == sat(
                    sat(radicand.extents.descent - surd.extents.descent) + half(
                        sat(
                            surd.extents.height_spec() - sat(
                                sat(radicand.extents.height_spec() + gap) + th,
                            ),
                        ),
                    ),
                )
                // a degree is kerned before the surd and raised a percentage
                // of the surd's height; surd, rule and radicand all move
                // right by the kerns plus the degree's advance
                &&& (degree_present ==> ({
                    let degree = bs[0];
                    let kb = shaper.constant_spec(MathConstant::RadicalKernBeforeDegree);
                    let ka = shaper.constant_spec(MathConstant::RadicalKernAfterDegree);
                    let rp0 = shaper.constant_spec(MathConstant::RadicalDegreeBottomRaisePercent);
                    let rp = if rp0 < 0 {
                        0
                    } else if rp0 > 100 {
                        100
                    } else {
                        rp0
                    };
                    &&& degree.origin.x as int == kb
                    &&& surd.origin.x as int == sat(sat(kb + degree.advance_width) + ka)
                    &&& degree.origin.y as int == sat(
                        sat(surd.origin.y + surd.extents.descent) - scaled_spec(
                            sat(surd.extents.ascent + surd.extents.descent),
                            rp,
                        ),
                    )
                }))
                &&& (!degree_present ==> surd.origin.x == 0)
            })
            &&& ({
                let surd = bs[bs.len() - 3];
                let radicand = bs[bs.len() - 1];
                let needed = surd_target_spec(shaper, display, radicand.extents) as u64;
                shaper.shape_spec("\u{221a}"@, options.style).len() > 0 ==> match shaper
                    .stretch_spec(
                    shaper.shape_spec("\u{221a}"@, options.style)[0].glyph,
                    false,
                    false,
                    needed,
                ) {
                    Some(gs) => {
                        &&& crate::shaper::run_height((|g: u32| shaper.metrics_spec(g)), gs)
                            >= needed
                        &&& surd.content is Boxes
                        &&& surd.content->Boxes_0@.len() == gs.len()
                        &&& (gs.len() == 1 && shaper.scale_spec(options.style.script_level) == 100
                            && -0x100_0000_0000 <= gs[0].origin.y <= 0x100_0000_0000
                            && -0x100_0000_0000 <= shaper.metrics_spec(
                            gs[0].glyph,
                        ).extents.ascent <= 0x100_0000_0000 && -0x100_0000_0000 <= shaper
                            .metrics_spec(gs[0].glyph).extents.descent <= 0x100_0000_0000)
                            ==> surd.ink_extents.height_spec() >= needed
                    },
                    None => surd.content is Boxes && surd.content->Boxes_0@.len() == 1,
                }
            })
        })
}

#[verifier::rlimit(100)]
#[verifier::spinoff_prover]
pub fn layout_root<T, S: MathShaper>(root: Root<T>, options: LayoutOptions, shaper: &S) -> (r:
    MathBox<T>)
    ensures
        root_box_ok(*shaper, options, root.degree is Some, r),
        r.content->Boxes_0@[r.content->Boxes_0@.len() - 1].user_info == Some(
            root.radicand.user_info,
        ),
        root.degree is Some ==> r.content->Boxes_0@[0].user_info == Some(
            root.degree->Some_0.user_info,
        ),
    decreases exp_size(*root.radicand) + opt_size(root.degree), 1int,
{
    let display = options.style.math_style == MathStyle::Display;
    let line_thickness = shaper.math_constant(MathConstant::RadicalRuleThickness);
    let vertical_gap = if display {
        shaper.math_constant(MathConstant::RadicalDisplayStyleVerticalGap)
    } else {
        shaper.math_constant(MathConstant::RadicalVerticalGap)
    };

    // the radicand first, to learn the surd height it needs
    let mut radicand = layout_expression(*root.radicand, options, shaper);
    let needed_surd_height: u64 = imax(
        0,
        sadd(sadd(radicand.extents.height(), vertical_gap), line_thickness),
    ) as u64;

    // a stretched surd, or the unstretched glyph when no variant exists
    let surd_shape = shaper.shape_string("\u{221a}", options.style);
    let mut surd: MathBox<T> = if surd_shape.len() > 0 {
        match shaper.stretch_glyph(surd_shape[0].glyph, false, false, needed_surd_height) {
            Some(stretched) => math_box_from_shaped_glyphs(stretched, options, shaper),
            None => {
                let mut one = surd_shape;
                one.truncate(1);
                math_box_from_shaped_glyphs(one, options, shaper)
            },
        }
    } else {
        math_box_from_shaped_glyphs(surd_shape, options, shaper)
    };

    // split the excess stretch height evenly above and below the radicand
    let surd_excess_height = ssub(
        surd.extents.height(),
        sadd(sadd(radicand.extents.height(), vertical_gap), line_thickness),
    );
    surd.origin.y = sadd(
        ssub(radicand.extents.descent, surd.extents.descent),
        crate::geom::div2(surd_excess_height),
    );

    // the radicand goes after the surd
    radicand.origin.x = sadd(radicand.origin.x, sadd(surd.origin.x, surd.advance_width));

    // the radical rule sits at the surd's top, half the rule thickness in
    let rule_origin = Point {
        x: sadd(surd.origin.x, surd.advance_width),
        y: sadd(ssub(surd.origin.y, surd.extents.ascent), crate::geom::div2(line_thickness)),
    };
    let rule_target = Point {
        x: sadd(rule_origin.x, radicand.extents.right_edge()),
        y: rule_origin.y,
    };
    let mut radical_rule: MathBox<T> = MathBox::with_line(rule_origin, rule_target, line_thickness);

    let mut children: Vec<MathBox<T>> = Vec::new();
    match root.degree {
        Some(degree_expr) => {
            // the degree: two script levels deeper, Inline, raised a
            // percentage of the surd height, kerned before and after
            let raise_raw = shaper.math_constant(MathConstant::RadicalDegreeBottomRaisePercent);
            let raise_percent: u32 = if raise_raw < 0 {
                0
            } else if raise_raw > 100 {
                100
            } else {
                raise_raw as u32
            };
            let kern_before = shaper.math_constant(MathConstant::RadicalKernBeforeDegree);
            let kern_after = shaper.math_constant(MathConstant::RadicalKernAfterDegree);
            let surd_height = sadd(surd.extents.ascent, surd.extents.descent);
            let degree_bottom = ssub(
                sadd(surd.origin.y, surd.extents.descent),
                crate::geom::scale_value(surd_height, raise_percent),
            );

            let mut degree_style = options.style.deeper_twice();
            degree_style.math_style = MathStyle::Inline;
            let degree_options = LayoutOptions { style: degree_style, ..options };
            let mut degree = layout_expression(*degree_expr, degree_options, shaper);
            degree.origin.y = sadd(degree.origin.y, degree_bottom);
            degree.origin.x = sadd(degree.origin.x, kern_before);

            let surd_kern = sadd(sadd(kern_before, degree.advance_width), kern_after);
            surd.origin.x = sadd(surd.origin.x, surd_kern);
            radicand.origin.x = sadd(radicand.origin.x, surd_kern);
            radical_rule.origin.x = sadd(radical_rule.origin.x, surd_kern);

            children.push(degree);
        },
        None => {},
    }
    children.push(surd);
    children.push(radical_rule);
    children.push(radicand);
    MathBox::with_vec(children)
}

/// The glyph-run target a stretchy operator asks the font for, in the glyph's
/// design size: the needed size divided by the script level's scale.
pub open spec fn stretch_target_spec(needed: u64, percent: int) -> int {
    sat_u64(needed as int * 100 / percent)
}

/// The vertical offset that re-centers a symmetric vertical stretch on the
/// math axis.
pub open spec fn symmetric_recenter_spec(ext: Extents, axis: int) -> int {
    sat(half(sat(ext.descent - ext.ascent)) + axis)
}

/// The vertical offset balancing an asymmetric vertical stretch's own excess
/// ascent and descent against the requested box.
pub open spec fn asymmetric_recenter_spec(ext: Extents, requested: Extents) -> int {
    half(sat(sat(ext.ascent - requested.ascent) - sat(ext.descent - requested.descent)))
}

/// What stretchy operator layout guarantees. A non-text field lays out
/// unstretched. For text: an empty shaping yields the empty run; a nonzero
/// needed width first tries a horizontal stretch and uses the returned run;
/// otherwise a nonzero needed height tries a vertical stretch, falling back
/// to the unstretched first glyph, and under stretch constraints the run is
/// wrapped and re-centered vertically (on the math axis when symmetric, else
/// against the requested box); with nothing to stretch the first glyph is
/// used as it is.
pub open spec fn stretchy_box_ok<T, S: MathShaper>(
    shaper: S,
    op: Operator,
    needed_height: u64,
    needed_width: u64,
    options: LayoutOptions,
    r: MathBox<T>,
) -> bool {
    let percent = shaper.scale_spec(options.style.script_level);
    let htarget = stretch_target_spec(needed_height, percent);
    let wtarget = stretch_target_spec(needed_width, percent);
    &&& r.origin == Point::zero_spec()
    &&& (!(op.field is Unicode) ==> field_box_ok(shaper, op.field, options, r))
    &&& (op.field matches Field::Unicode(text) ==> ({
        let gs0 = shaper.shape_spec(text@, options.style);
        &&& (gs0.len() == 0 ==> is_glyph_run(shaper, r, gs0, percent))
        &&& (gs0.len() > 0 ==> ({
            let hstretch = shaper.stretch_spec(
                gs0[0].glyph,
                true,
                options.as_accent,
                wtarget as u64,
            );
            let vstretch = shaper.stretch_spec(gs0[0].glyph, false, false, htarget as u64);
            &&& (needed_width > 0 && hstretch is Some ==> is_glyph_run(
                shaper,
                r,
                hstretch->Some_0,
                percent,
            ))
            &&& ((needed_width == 0 || hstretch is None) && needed_height > 0 ==> ({
                let run_gs = if vstretch is Some {
                    vstretch->Some_0
                } else {
                    seq![gs0[0]]
                };
                &&& (vstretch is Some ==> crate::shaper::run_height(
                    (|g: u32| shaper.metrics_spec(g)),
                    run_gs,
                ) >= htarget)
                &&& (match op.stretch_constraints {
                    None => is_glyph_run(shaper, r, run_gs, percent),
                    Some(sc) => {
                        &&& r.content is Boxes
                        &&& r.content->Boxes_0@.len() == 1
                        &&& ({
                            let inner = r.content->Boxes_0@[0];
                            &&& is_glyph_run_at(
                                shaper,
                                inner,
                                run_gs,
                                percent,
                                if sc.symmetric {
                                    sat(
                                        0 - symmetric_recenter_spec(
                                            inner.extents,
                                            shaper.constant_spec(MathConstant::AxisHeight),
                                        ),
                                    )
                                } else {
                                    asymmetric_recenter_spec(
                                        inner.extents,
                                        match options.stretch_size {
                                            Some(ss) => ss,
                                            None => Extents::zero_spec(),
                                        },
                                    )
                                },
                            )
                            &&& r.extents == union_logical(r.content->Boxes_0@)
                            &&& r.ink_extents == union_ink(r.content->Boxes_0@)
                        })
                    },
                })
            }))
            &&& ((needed_width == 0 || hstretch is None) && needed_height == 0 ==> is_glyph_run(
                shaper,
                r,
                seq![gs0[0]],
                percent,
            ))
        }))
    }))
}

/// The height a stretchy operator asks for under an ambient stretch request:
/// the symmetric case doubles the larger distance from the math axis, the
/// asymmetric case sums ascent and descent; the result is clamped to the
/// constraints' bounds (in font units) and floored at zero.
pub open spec fn operator_needed_height<S: MathShaper>(
    shaper: S,
    stretch_size: Extents,
    sc: StretchConstraints,
) -> int {
    let axis = shaper.constant_spec(MathConstant::AxisHeight);
    let em = shaper.em_size_spec();
    let ppem = shaper.ppem_spec();
    let domh = shaper.constant_spec(MathConstant::DisplayOperatorMinHeight);
    let base = if sc.symmetric {
        let m1 = sat(stretch_size.ascent - axis);
        let m2 = sat(axis + stretch_size.descent);
        let m = if m1 >= m2 {
            m1
        } else {
            m2
        };
        sat(m + m)
    } else {
        sat(stretch_size.ascent + stretch_size.descent)
    };
    let lo: Option<i64> = match sc.min_size {
        Some(l) => Some(l.font_units_spec(em, ppem, domh) as i64),
        None => None,
    };
    let hi: Option<i64> = match sc.max_size {
        Some(l) => Some(l.font_units_spec(em, ppem, domh) as i64),
        None => None,
    };
    let clamped = clamp_spec(base, lo, hi);
    if clamped >= 0 {
        clamped
    } else {
        0
    }
}

/// Lay out an operator that must stretch to a needed height or width. A
/// nonzero needed width first tries a horizontal stretch; failing that, a
/// nonzero needed height tries a vertical stretch, falling back to the
/// unstretched first glyph; a symmetric vertical stretch is re-centered on the
/// math axis, an asymmetric one balanced against the requested box. Only a
/// text field can stretch; a glyph or empty field lays out unstretched.
#[verifier::rlimit(100)]
#[verifier::spinoff_prover]
pub fn layout_operator_stretchy<T, S: MathShaper>(
    op: Operator,
    needed_height: u64,
    needed_width: u64,
    options: LayoutOptions,
    shaper: &S,
) -> (r: MathBox<T>)
    ensures
        stretchy_box_ok(*shaper, op, needed_height, needed_width, options, r),
{
    match op.field {
        Field::Unicode(string) => {
            let percent = shaper.scale_factor_for_script_level(options.style.script_level);
            proof {
                assert(needed_height > 0 ==> needed_height as int * 100 / percent as int > 0)
                    by (nonlinear_arith)
                    requires
                        1 <= percent <= 100,
                ;
                assert(needed_width > 0 ==> needed_width as int * 100 / percent as int > 0)
                    by (nonlinear_arith)
                    requires
                        1 <= percent <= 100,
                ;
                assert(needed_width == 0 ==> needed_width as int * 100 / percent as int == 0)
                    by (nonlinear_arith)
                    requires
                        1 <= percent <= 100,
                ;
                assert(needed_height == 0 ==> needed_height as int * 100 / percent as int == 0)
                    by (nonlinear_arith)
                    requires
                        1 <= percent <= 100,
                ;
            }
            let needed_height = unscale_size(needed_height, percent);
            let needed_width = unscale_size(needed_width, percent);
            let shape_result = shaper.shape_string(string.as_str(), options.style);
            if shape_result.len() == 0 {
                return math_box_from_shaped_glyphs(shape_result, options, shaper);
            }
            let first_glyph = shape_result[0];

            if needed_width > 0 {
                match shaper.stretch_glyph(
                    first_glyph.glyph,
                    true,
                    options.as_accent,
                    needed_width,
                ) {
                    Some(stretched) => {
                        return math_box_from_shaped_glyphs(stretched, options, shaper);
                    },
                    None => {},
                }
            }

            if needed_height > 0 {
                let stretched = shaper.stretch_glyph(first_glyph.glyph, false, false, needed_height);
                let mut math_box: MathBox<T> = match stretched {
                    Some(glyphs) => math_box_from_shaped_glyphs(glyphs, options, shaper),
                    None => {
                        // no stretched variant: the unstretched first glyph
                        let mut one = shape_result;
                        one.truncate(1);
                        proof {
                            assert(one@ =~= seq![
                                shaper.shape_spec(string@, options.style)[0],
                            ]);
                        }
                        math_box_from_shaped_glyphs(one, options, shaper)
                    },
                };
                match op.stretch_constraints {
                    Some(stretch_constraints) => {
                        if stretch_constraints.symmetric {
                            let axis_height = shaper.math_constant(MathConstant::AxisHeight);
                            let shift_up = sadd(
                                crate::geom::div2(
                                    ssub(math_box.extents.descent, math_box.extents.ascent),
                                ),
                                axis_height,
                            );
                            math_box.origin.y = ssub(math_box.origin.y, shift_up);
                        } else {
                            let stretch_size = match options.stretch_size {
                                Some(size) => size,
                                None => Extents::zero(),
                            };
                            let excess_ascent = ssub(math_box.extents.ascent, stretch_size.ascent);
                            let excess_descent = ssub(
                                math_box.extents.descent,
                                stretch_size.descent,
                            );
                            math_box.origin.y = sadd(
                                math_box.origin.y,
                                crate::geom::div2(ssub(excess_ascent, excess_descent)),
                            );
                        }
                        // wrap the re-centered run so the result, like every
                        // laid-out box, sits at its parent's pen position
                        let mut recentered: Vec<MathBox<T>> = Vec::new();
                        recentered.push(math_box);
                        return MathBox::with_vec(recentered);
                    },
                    None => {},
                }
                return math_box;
            }

            let mut one = shape_result;
            one.truncate(1);
            proof {
                assert(one@ =~= seq![shaper.shape_spec(string@, options.style)[0]]);
            }
            math_box_from_shaped_glyphs(one, options, shaper)
        },
        other => layout_field(other, options, shaper),
    }
}

/// Operator layout: with an ambient stretch request and stretch constraints,
/// the needed height is the symmetric double of the distance from the math
/// axis (or the plain ascent-plus-descent), clamped to the constraints, and
/// the operator stretches to it; otherwise a large operator in Display style
/// forces a symmetric stretch to at least the display-operator minimum
/// height, and anything else lays out as its bare field.
/// Everything operator layout guarantees of its result.
pub open spec fn operator_box_ok<T, S: MathShaper>(
    shaper: S,
    op: Operator,
    options: LayoutOptions,
    r: MathBox<T>,
) -> bool {
    &&& r.origin == Point::zero_spec()
    &&& options.stretch_size is Some && op.stretch_constraints is Some ==> stretchy_box_ok(
            shaper,
            op,
            operator_needed_height(
                shaper,
                options.stretch_size->Some_0,
                op.stretch_constraints->Some_0,
            ) as u64,
            (if options.stretch_size->Some_0.width >= 0 {
                options.stretch_size->Some_0.width
            } else {
                0
            }) as u64,
            options,
            r,
        )
    &&& !(options.stretch_size is Some && op.stretch_constraints is Some) && op.is_large_op
            && options.style.math_style == MathStyle::Display ==> stretchy_box_ok(
            shaper,
            (Operator {
                stretch_constraints: Some(
                    StretchConstraints { min_size: None, max_size: None, symmetric: true },
                ),
                ..op
            }),
            (if shaper.constant_spec(MathConstant::DisplayOperatorMinHeight) >= 0 {
                shaper.constant_spec(MathConstant::DisplayOperatorMinHeight)
            } else {
                0
            }) as u64,
            0,
            options,
            r,
        )
    &&& !(options.stretch_size is Some && op.stretch_constraints is Some) && !(op.is_large_op
            && options.style.math_style == MathStyle::Display) ==> field_box_ok(
            shaper,
            op.field,
            options,
            r,
        )
}

#[verifier::rlimit(100)]
#[verifier::spinoff_prover]
pub fn layout_operator<T, S: MathShaper>(op: Operator, options: LayoutOptions, shaper: &S) -> (r:
    MathBox<T>)
    ensures
        operator_box_ok(*shaper, op, options, r),
{
    let has_stretch = options.stretch_size.is_some() && op.stretch_constraints.is_some();
    if has_stretch {
        let stretch_size = match options.stretch_size {
            Some(s) => s,
            None => Extents::zero(),
        };
        let stretch_constraints = match op.stretch_constraints {
            Some(c) => c,
            None => StretchConstraints { min_size: None, max_size: None, symmetric: false },
        };
        let min_size: Option<i64> = match stretch_constraints.min_size {
            Some(l) => Some(l.to_font_units(shaper)),
            None => None,
        };
        let max_size: Option<i64> = match stretch_constraints.max_size {
            Some(l) => Some(l.to_font_units(shaper)),
            None => None,
        };
        let mut needed_height: i64 = if stretch_constraints.symmetric {
            let axis_height = shaper.math_constant(MathConstant::AxisHeight);
            let m = imax(
                ssub(stretch_size.ascent, axis_height),
                sadd(axis_height, stretch_size.descent),
            );
            sadd(m, m)
        } else {
            sadd(stretch_size.ascent, stretch_size.descent)
        };
        needed_height = clamp_value(needed_height, min_size, max_size);
        let needed_height: u64 = imax(0, needed_height) as u64;
        let needed_width: u64 = imax(0, stretch_size.width) as u64;
        layout_operator_stretchy(op, needed_height, needed_width, options, shaper)
    } else {
        if op.is_large_op && options.style.math_style == MathStyle::Display {
            let display_min_height = shaper.math_constant(
                MathConstant::DisplayOperatorMinHeight,
            );
            let op2 = Operator {
                stretch_constraints: Some(
                    StretchConstraints { min_size: None, max_size: None, symmetric: true },
                ),
                ..op
            };
            layout_operator_stretchy(op2, imax(0, display_min_height) as u64, 0, options, shaper)
        } else {
            layout_field(op.field, options, shaper)
        }
    }
}

} // verus!
