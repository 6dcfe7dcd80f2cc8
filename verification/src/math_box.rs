//! The output of layout: positioned, sized boxes. A box has an origin relative
//! to its parent, logical extents, separately tracked ink extents (tight
//! visual bounds, used by the script-shift math), and a content variant:
//! empty, a single scaled glyph, a sequence of child boxes, or a straight
//! line (fraction and radical rules). Extents, advance width, italic
//! correction and top accent attachment are computed once at construction.

use vstd::prelude::*;
use crate::geom::{Extents, Point, div2, half, imax, imin, sadd, sat, scale_value, scaled_spec, ssub};
use crate::item::UserInfo;
use crate::shaper::GlyphMetrics;

verus! {

/// A glyph reference with the percentage scale it is drawn at.
#[derive(Clone, Copy, Debug, PartialEq, Eq, Structural)]
pub struct GlyphFragment {
    pub glyph_code: u32,
    pub scale_percent: u32,
}

/// What a box draws.
#[derive(Debug)]
pub enum BoxContent<T> {
    /// Nothing: a space or an empty field.
    Empty,
    /// One glyph.
    Glyph(GlyphFragment),
    /// Child boxes, each positioned relative to this box.
    Boxes(Vec<MathBox<T>>),
    /// A straight line from the box origin along `vector`, `thickness` units
    /// thick.
    Line { vector: Point, thickness: i64 },
}

/// One node of the box tree.
#[derive(Debug)]
pub struct MathBox<T> {
    pub origin: Point,
    pub extents: Extents,
    pub ink_extents: Extents,
    pub advance_width: i64,
    pub italic_correction: i64,
    pub top_accent_attachment: i64,
    pub content: BoxContent<T>,
    pub user_info: Option<UserInfo<T>>,
}

/// Extents as seen from a parent whose child sits at `origin`.
pub open spec fn shifted(ext: Extents, origin: Point) -> Extents {
    Extents {
        left_side_bearing: sat(ext.left_side_bearing + origin.x) as i64,
        width: ext.width,
        ascent: sat(ext.ascent - origin.y) as i64,
        descent: sat(ext.descent + origin.y) as i64,
    }
}

/// The smallest extents covering both arguments.
pub open spec fn union2(a: Extents, b: Extents) -> Extents {
    let lsb = if a.left_side_bearing <= b.left_side_bearing {
        a.left_side_bearing
    } else {
        b.left_side_bearing
    };
    let right = if a.right_edge_spec() >= b.right_edge_spec() {
        a.right_edge_spec()
    } else {
        b.right_edge_spec()
    };
    Extents {
        left_side_bearing: lsb,
        width: sat(right - lsb) as i64,
        ascent: if a.ascent >= b.ascent {
            a.ascent
        } else {
            b.ascent
        },
        descent: if a.descent >= b.descent {
            a.descent
        } else {
            b.descent
        },
    }
}

/// Logical extents of a child sequence: the union of each child's logical
/// extents shifted by its origin.
pub open spec fn union_logical<T>(bs: Seq<MathBox<T>>) -> Extents
    decreases bs.len(),
{
    if bs.len() == 0 {
        Extents::zero_spec()
    } else if bs.len() == 1 {
        shifted(bs[0].extents, bs[0].origin)
    } else {
        union2(union_logical(bs.drop_last()), shifted(bs.last().extents, bs.last().origin))
    }
}

/// Ink extents of a child sequence.
pub open spec fn union_ink<T>(bs: Seq<MathBox<T>>) -> Extents
    decreases bs.len(),
{
    if bs.len() == 0 {
        Extents::zero_spec()
    } else if bs.len() == 1 {
        shifted(bs[0].ink_extents, bs[0].origin)
    } else {
        union2(union_ink(bs.drop_last()), shifted(bs.last().ink_extents, bs.last().origin))
    }
}

/// Advance width of a child sequence: the largest pen position any child
/// reaches.
pub open spec fn run_advance<T>(bs: Seq<MathBox<T>>) -> int
    decreases bs.len(),
{
    if bs.len() == 0 {
        0
    } else if bs.len() == 1 {
        sat(bs[0].origin.x + bs[0].advance_width)
    } else {
        let last = sat(bs.last().origin.x + bs.last().advance_width);
        if run_advance(bs.drop_last()) >= last {
            run_advance(bs.drop_last())
        } else {
            last
        }
    }
}

/// Italic correction of a child sequence: the last child's.
pub open spec fn last_italic<T>(bs: Seq<MathBox<T>>) -> int {
    if bs.len() == 0 {
        0
    } else {
        bs.last().italic_correction as int
    }
}

/// Each glyph metrics field scaled by the percentage.
pub open spec fn scaled_extents(ext: Extents, percent: int) -> Extents {
    Extents {
        left_side_bearing: scaled_spec(ext.left_side_bearing as int, percent) as i64,
        width: scaled_spec(ext.width as int, percent) as i64,
        ascent: scaled_spec(ext.ascent as int, percent) as i64,
        descent: scaled_spec(ext.descent as int, percent) as i64,
    }
}

/// Extents as seen from a parent, executable counterpart of `shifted`.
pub fn shift_extents(ext: &Extents, origin: &Point) -> (r: Extents)
    ensures
        r == shifted(*ext, *origin),
{
    Extents {
        left_side_bearing: sadd(ext.left_side_bearing, origin.x),
        width: ext.width,
        ascent: ssub(ext.ascent, origin.y),
        descent: sadd(ext.descent, origin.y),
    }
}

/// Union of two extents, executable counterpart of `union2`.
pub fn union_extents(a: &Extents, b: &Extents) -> (r: Extents)
    ensures
        r == union2(*a, *b),
{
    let lsb = imin(a.left_side_bearing, b.left_side_bearing);
    let right = imax(a.right_edge(), b.right_edge());
    Extents {
        left_side_bearing: lsb,
        width: ssub(right, lsb),
        ascent: imax(a.ascent, b.ascent),
        descent: imax(a.descent, b.descent),
    }
}

impl<T> MathBox<T> {
    /// A box with nothing in it and the given logical extents; its ink extents
    /// are empty.
    pub fn empty(extents: Extents) -> (r: MathBox<T>)
        ensures
            r.origin == Point::zero_spec(),
            r.extents == extents,
            r.ink_extents == Extents::zero_spec(),
            r.advance_width == extents.width,
            r.italic_correction == 0,
            r.top_accent_attachment as int == extents.center_spec(),
            r.content is Empty,
            r.user_info is None,
    {
        let taa = extents.center();
        MathBox {
            origin: Point::zero(),
            extents,
            ink_extents: Extents::zero(),
            advance_width: extents.width,
            italic_correction: 0,
            top_accent_attachment: taa,
            content: BoxContent::Empty,
            user_info: None,
        }
    }

    /// A box holding one glyph, its font metrics scaled to the given
    /// percentage; logical and ink extents are the glyph's scaled bounds.
    pub fn with_glyph(glyph_code: u32, metrics: &GlyphMetrics, percent: u32) -> (r: MathBox<T>)
        requires
            1 <= percent <= 100,
        ensures
            r.origin == Point::zero_spec(),
            r.extents == scaled_extents(metrics.extents, percent as int),
            r.ink_extents == scaled_extents(metrics.extents, percent as int),
            r.advance_width as int == scaled_spec(metrics.advance as int, percent as int),
            r.italic_correction as int == scaled_spec(
                metrics.italic_correction as int,
                percent as int,
            ),
            r.top_accent_attachment as int == scaled_spec(
                metrics.top_accent_attachment as int,
                percent as int,
            ),
            r.content == BoxContent::<T>::Glyph(GlyphFragment { glyph_code, scale_percent: percent }),
            r.user_info is None,
    {
        let ext = Extents {
            left_side_bearing: scale_value(metrics.extents.left_side_bearing, percent),
            width: scale_value(metrics.extents.width, percent),
            ascent: scale_value(metrics.extents.ascent, percent),
            descent: scale_value(metrics.extents.descent, percent),
        };
        MathBox {
            origin: Point::zero(),
            extents: ext,
            ink_extents: ext,
            advance_width: scale_value(metrics.advance, percent),
            italic_correction: scale_value(metrics.italic_correction, percent),
            top_accent_attachment: scale_value(metrics.top_accent_attachment, percent),
            content: BoxContent::Glyph(GlyphFragment { glyph_code, scale_percent: percent }),
            user_info: None,
        }
    }

    /// A box drawing a straight line from `origin` to `target`, `thickness`
    /// thick (a negative thickness counts as zero); used for fraction and
    /// radical rules.
    pub fn with_line(origin: Point, target: Point, thickness: i64) -> (r: MathBox<T>)
        ensures
            r.origin == origin,
            r.content == (BoxContent::<T>::Line {
                vector: Point {
                    x: sat(target.x - origin.x) as i64,
                    y: sat(target.y - origin.y) as i64,
                },
                thickness: if thickness >= 0 {
                    thickness
                } else {
                    0
                },
            }),
            r.extents == r.ink_extents,
            r.extents.left_side_bearing == 0,
            r.extents.width as int == sat(target.x - origin.x),
            r.extents.ascent as int == (if thickness >= 0 {
                thickness
            } else {
                0
            }) - half(if thickness >= 0 {
                thickness as int
            } else {
                0
            }),
            r.extents.descent as int == half(
                if thickness >= 0 {
                    thickness as int
                } else {
                    0
                },
            ),
            r.advance_width == r.extents.width,
            r.italic_correction == 0,
            r.user_info is None,
    {
        let th = imax(thickness, 0);
        let vector = Point { x: ssub(target.x, origin.x), y: ssub(target.y, origin.y) };
        let below = div2(th);
        let ext = Extents {
            left_side_bearing: 0,
            width: vector.x,
            ascent: th - below,
            descent: below,
        };
        let taa = ext.center();
        MathBox {
            origin,
            extents: ext,
            ink_extents: ext,
            advance_width: ext.width,
            italic_correction: 0,
            top_accent_attachment: taa,
            content: BoxContent::Line { vector, thickness: th },
        user_info: None,
        }
    }

    /// A box made of child boxes: its extents are the unions of the children's
    /// shifted extents, its advance the furthest pen position, its italic
    /// correction the last child's.
    pub fn with_vec(children: Vec<MathBox<T>>) -> (r: MathBox<T>)
        ensures
            r.origin == Point::zero_spec(),
            r.extents == union_logical(children@),
            r.ink_extents == union_ink(children@),
            r.advance_width as int == run_advance(children@),
            r.italic_correction as int == last_italic(children@),
            r.top_accent_attachment as int == union_logical(children@).center_spec(),
            r.content == BoxContent::Boxes(children),
            r.user_info is None,
    {
        let n = children.len();
        let mut logical = Extents::zero();
        let mut ink = Extents::zero();
        let mut advance: i64 = 0;
        let mut italic: i64 = 0;
        if n > 0 {
            logical = shift_extents(&children[0].extents, &children[0].origin);
            ink = shift_extents(&children[0].ink_extents, &children[0].origin);
            advance = sadd(children[0].origin.x, children[0].advance_width);
            italic = children[n - 1].italic_correction;
            let mut i: usize = 1;
            while i < n
                invariant
                    1 <= i <= n,
                    n == children@.len(),
                    logical == union_logical(children@.take(i as int)),
                    ink == union_ink(children@.take(i as int)),
                    advance as int == run_advance(children@.take(i as int)),
                decreases n - i,
            {
                let sl = shift_extents(&children[i].extents, &children[i].origin);
                let si = shift_extents(&children[i].ink_extents, &children[i].origin);
                logical = union_extents(&logical, &sl);
                ink = union_extents(&ink, &si);
                advance = imax(advance, sadd(children[i].origin.x, children[i].advance_width));
                proof {
                    assert(children@.take(i + 1).drop_last() =~= children@.take(i as int));
                    assert(children@.take(i + 1).last() == children@[i as int]);
                }
                i += 1;
            }
            proof {
                assert(children@.take(n as int) =~= children@);
            }
        }
        let taa = logical.center();
        MathBox {
            origin: Point::zero(),
            extents: logical,
            ink_extents: ink,
            advance_width: advance,
            italic_correction: italic,
            top_accent_attachment: taa,
            content: BoxContent::Boxes(children),
            user_info: None,
        }
    }
}

} // verus!
