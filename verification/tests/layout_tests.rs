use math_layout::geom::{Extents, Point};
use math_layout::item::{
    Atom, Field, GeneralizedFraction, MathExpression, MathItem, MathSpace, Operator, OverUnder,
    Root, StretchConstraints, UserInfo,
};
use math_layout::layout::{
    can_stretch, expr_operator_properties, layout_expression, layout_fraction, layout_operator,
    layout_root, layout_sub_superscript, pack_row, LayoutOptions,
};
use math_layout::length::Length;
use math_layout::math_box::{BoxContent, MathBox};
use math_layout::metrics::{constant_slot, FontMetrics, VERTICAL_STRETCH_MARK};
use math_layout::multiscripts::{
    get_attachment_kern, get_subscript_shift_dn, get_subsup_shifts, get_superscript_shift_up,
};
use math_layout::shaper::{CornerPosition, GlyphMetrics, MathConstant, MathShaper};
use math_layout::style::{LayoutStyle, MathStyle};

type Expr = MathExpression<()>;
type TestBox = MathBox<()>;

fn font() -> FontMetrics {
    let mut f = FontMetrics::new(1000, 72);
    let values = [
        (MathConstant::AxisHeight, 250),
        (MathConstant::AccentBaseHeight, 450),
        (MathConstant::DisplayOperatorMinHeight, 1300),
        (MathConstant::FractionRuleThickness, 40),
        (MathConstant::FractionNumeratorShiftUp, 450),
        (MathConstant::FractionNumeratorDisplayStyleShiftUp, 677),
        (MathConstant::FractionDenominatorShiftDown, 345),
        (MathConstant::FractionDenominatorDisplayStyleShiftDown, 686),
        (MathConstant::FractionNumeratorGapMin, 40),
        (MathConstant::FractionNumDisplayStyleGapMin, 120),
        (MathConstant::FractionDenominatorGapMin, 40),
        (MathConstant::FractionDenomDisplayStyleGapMin, 120),
        (MathConstant::SubSuperscriptGapMin, 160),
        (MathConstant::SuperscriptBottomMaxWithSubscript, 344),
        (MathConstant::SuperscriptShiftUp, 363),
        (MathConstant::SuperscriptShiftUpCramped, 289),
        (MathConstant::SuperscriptBottomMin, 108),
        (MathConstant::SuperscriptBaselineDropMax, 200),
        (MathConstant::SubscriptShiftDown, 247),
        (MathConstant::SubscriptTopMax, 344),
        (MathConstant::SubscriptBaselineDropMin, 50),
        (MathConstant::SpaceAfterScript, 56),
        (MathConstant::RadicalVerticalGap, 50),
        (MathConstant::RadicalDisplayStyleVerticalGap, 148),
        (MathConstant::RadicalRuleThickness, 40),
        (MathConstant::RadicalKernBeforeDegree, 278),
        (MathConstant::RadicalKernAfterDegree, 60),
        (MathConstant::RadicalDegreeBottomRaisePercent, 60),
        (MathConstant::UpperLimitGapMin, 111),
        (MathConstant::UpperLimitBaselineRiseMin, 167),
        (MathConstant::LowerLimitGapMin, 111),
        (MathConstant::LowerLimitBaselineDropMin, 600),
    ];
    for (c, v) in values {
        f.set_constant(c, v);
    }
    f
}

fn inline_options() -> LayoutOptions {
    LayoutOptions {
        style: LayoutStyle::new(MathStyle::Inline),
        stretch_size: None,
        as_accent: false,
    }
}

fn display_options() -> LayoutOptions {
    LayoutOptions {
        style: LayoutStyle::new(MathStyle::Display),
        stretch_size: None,
        as_accent: false,
    }
}

fn text(s: &str) -> Expr {
    MathExpression {
        content: MathItem::Field(Field::Unicode(String::from(s))),
        user_info: UserInfo { payload: None, operator_attrs: None },
    }
}

fn children(b: &TestBox) -> &Vec<TestBox> {
    match &b.content {
        BoxContent::Boxes(v) => v,
        _ => panic!("expected a box sequence"),
    }
}

#[test]
fn fraction_rule_spans_extents_at_axis_height() {
    // numerator two glyphs wide, denominator one: the rule runs along the
    // horizontal union at exactly the axis height
    let f = font();
    let frac = GeneralizedFraction {
        numerator: Box::new(text("xy")),
        denominator: Box::new(text("1")),
    };
    let result = layout_fraction(frac, inline_options(), &f);
    let bs = children(&result);
    assert_eq!(bs.len(), 3);
    let rule = &bs[1];
    assert_eq!(rule.origin.y, -250);
    match &rule.content {
        BoxContent::Line { thickness, .. } => assert_eq!(*thickness, 40),
        _ => panic!("middle box should be the fraction rule"),
    }
    // in Inline style both parts are one script level deeper (70 percent):
    // the numerator spans 700 units, the narrower denominator is centered
    // under it, and the rule covers the union
    assert_eq!(rule.origin.x, 0);
    assert_eq!(rule.extents.width, 700);
}

#[test]
fn fraction_display_shift_exceeds_inline_shift() {
    // the same 1/2 in Display vs Inline style: numerator shift-up comes from
    // different constant tables; Display must end up at least as high
    let f = font();
    let make = || GeneralizedFraction::<()> {
        numerator: Box::new(text("1")),
        denominator: Box::new(text("2")),
    };
    let inline_box = layout_fraction(make(), inline_options(), &f);
    let display_box = layout_fraction(make(), display_options(), &f);
    let inline_num_y = children(&inline_box)[0].origin.y;
    let display_num_y = children(&display_box)[0].origin.y;
    // inline: the numerator is a script level deeper (70 percent, descent
    // 140), so the shift is max(450 - 250, 40 + 20 + 140) = 200
    assert_eq!(inline_num_y, -(250 + 200));
    // display: the numerator is demoted to full-size Inline (descent 200),
    // and the Display constants give max(677 - 250, 120 + 20 + 200) = 427
    assert_eq!(display_num_y, -(250 + 427));
    assert!(display_num_y < inline_num_y);
}

#[test]
fn scripts_never_collide() {
    // nucleus with both scripts: the gap between the superscript's ink
    // bottom and the subscript's ink top stays at least the gap minimum
    let f = font();
    let result = layout_sub_superscript(
        Some(Box::new(text("2"))),
        Some(Box::new(text("2"))),
        text("x"),
        inline_options(),
        &f,
    );
    let bs = children(&result);
    assert_eq!(bs.len(), 4);
    let sub = &bs[1];
    let sup = &bs[2];
    let sup_bottom = sup.origin.y + sup.ink_extents.descent;
    let sub_top = sub.origin.y - sub.ink_extents.ascent;
    let gap = sub_top - sup_bottom;
    assert!(gap >= 160, "scripts too close: gap {}", gap);
    // the trailing box is the space-after-script
    assert_eq!(bs[3].extents.width, 56);
}

#[test]
fn subscript_only_shift() {
    let f = font();
    // boxes with known ink extents through the table metrics
    let g = GlyphMetrics {
        extents: Extents { left_side_bearing: 0, width: 500, ascent: 700, descent: 200 },
        advance: 500,
        italic_correction: 0,
        top_accent_attachment: 250,
    };
    let nucleus: TestBox = MathBox::with_glyph(10, &g, 100);
    let sub: TestBox = MathBox::with_glyph(11, &g, 100);
    // max(200 + 50, max(247, 700 - 344)) = max(250, 356) = 356
    assert_eq!(get_subscript_shift_dn(&sub, &nucleus, &f), 356);
    // cramped superscript: max(700 - 200, max(289, 200 + 108)) = 500
    let style = LayoutStyle { is_cramped: true, ..LayoutStyle::new(MathStyle::Inline) };
    assert_eq!(get_superscript_shift_up(&sub, &nucleus, &f, style), 500);
    let (dn, up) = get_subsup_shifts(&sub, &sub, &nucleus, &f, LayoutStyle::new(MathStyle::Inline));
    let gap = (up - 200) - (700 - dn);
    assert!(gap >= 160);
}

#[test]
fn attachment_kerning_sums_both_corners() {
    let mut f = font();
    f.kern_value = 25;
    let g = GlyphMetrics {
        extents: Extents { left_side_bearing: 0, width: 500, ascent: 700, descent: 200 },
        advance: 500,
        italic_correction: 0,
        top_accent_attachment: 250,
    };
    let nucleus: TestBox = MathBox::with_glyph(10, &g, 100);
    let sup: TestBox = MathBox::with_glyph(11, &g, 100);
    let kern = get_attachment_kern(&nucleus, &sup, CornerPosition::TopRight, 363, &f);
    assert_eq!(kern, 50);
    // an empty box draws no glyph: no kerning
    let empty: TestBox = MathBox::empty(Extents::zero());
    let none = get_attachment_kern(&empty, &sup, CornerPosition::TopRight, 363, &f);
    assert_eq!(none, 0);
}

#[test]
fn display_large_operator_stretches_to_min_height() {
    // a big summation in Display style with no ambient stretch request:
    // layout synthesizes a symmetric stretch to the display minimum height
    let f = font();
    let op = Operator {
        field: Field::Unicode(String::from("\u{2211}")),
        is_large_op: true,
        stretch_constraints: None,
        leading_space: Length::em(0),
        trailing_space: Length::em(0),
    };
    let result: TestBox = layout_operator(op, display_options(), &f);
    // the re-centered run is wrapped: one child holding the glyph run
    let bs = children(&result);
    assert_eq!(bs.len(), 1);
    let run = &bs[0];
    // the table font answers a vertical stretch with a glyph spanning
    // exactly the target
    assert_eq!(run.ink_extents.ascent, 1300);
    assert_eq!(run.ink_extents.descent, 0);
    match &children(run)[0].content {
        BoxContent::Glyph(g) => assert_eq!(g.glyph_code, VERTICAL_STRETCH_MARK + 1300),
        _ => panic!("expected a stretched glyph"),
    }
    // the symmetric stretch is re-centered on the math axis:
    // shift_up = (0 - 1300) / 2 + 250 = -400, so the run moves down by -400
    assert_eq!(result.origin.y, 0);
    assert_eq!(run.origin.y, 400);
    // seen from outside, the box is symmetric about the 250-unit axis
    assert_eq!(result.ink_extents.ascent, 900);
    assert_eq!(result.ink_extents.descent, 400);
}

#[test]
fn inline_large_operator_does_not_stretch() {
    let f = font();
    let op = Operator {
        field: Field::Unicode(String::from("\u{2211}")),
        is_large_op: true,
        stretch_constraints: None,
        leading_space: Length::em(0),
        trailing_space: Length::em(0),
    };
    let result: TestBox = layout_operator(op, inline_options(), &f);
    // laid out as the bare field: the ordinary glyph metrics
    assert_eq!(result.ink_extents.ascent, 700);
    assert_eq!(result.origin.y, 0);
}

#[test]
fn root_surd_covers_radicand() {
    // surd ink height must reach radicand height + gap + rule thickness
    let f = font();
    let root = Root { radicand: Box::new(text("x")), degree: None };
    let result = layout_root(root, inline_options(), &f);
    let bs = children(&result);
    assert_eq!(bs.len(), 3);
    let surd = &bs[0];
    let rule = &bs[1];
    let radicand = &bs[2];
    let needed = radicand.extents.ascent + radicand.extents.descent + 50 + 40;
    assert_eq!(needed, 990);
    let surd_height = surd.ink_extents.ascent + surd.ink_extents.descent;
    assert!(surd_height >= needed, "surd height {} below {}", surd_height, needed);
    // the stretched surd (990 tall) has no excess: it is raised so its bottom
    // matches the radicand's descent
    assert_eq!(surd.origin.y, 200);
    // the rule starts after the surd's advance, at its top plus half the
    // rule thickness, and spans the radicand
    assert_eq!(rule.origin.x, 500);
    assert_eq!(rule.origin.y, 200 - 990 + 20);
    assert_eq!(rule.extents.width, 500);
    assert_eq!(radicand.origin.x, 500);
    assert_eq!(radicand.origin.y, 0);
}

#[test]
fn root_without_stretch_variant_keeps_native_glyph() {
    let mut f = font();
    f.max_stretch = 0;  // the font has no stretched variants at all
    let root = Root { radicand: Box::new(text("x")), degree: None };
    let result = layout_root(root, inline_options(), &f);
    let bs = children(&result);
    let surd = &bs[0];
    // fallback: the unstretched glyph's native height, never less
    let surd_height = surd.ink_extents.ascent + surd.ink_extents.descent;
    assert_eq!(surd_height, 900);
}

#[test]
fn root_with_degree_kerns_everything_right() {
    let f = font();
    let root = Root { radicand: Box::new(text("x")), degree: Some(Box::new(text("3"))) };
    let result = layout_root(root, inline_options(), &f);
    let bs = children(&result);
    assert_eq!(bs.len(), 4);
    let degree = &bs[0];
    let surd = &bs[1];
    // the degree starts after the kern-before; the surd moves right by
    // kern-before + degree advance + kern-after
    assert_eq!(degree.origin.x, 278);
    // degree advance: one glyph at 70% scale (script level 2 still 70%)
    let degree_advance = 350;
    assert_eq!(surd.origin.x, 278 + degree_advance + 60);
}

#[test]
fn list_packs_left_to_right_with_italic_correction() {
    let mut f = font();
    f.glyph_italic = 30;
    // a slanted glyph followed by an upright space: the space is pushed by
    // the pending italic correction, a slanted neighbor is not
    let list = vec![
        text("x"),
        MathExpression {
            content: MathItem::Space(MathSpace {
                width: Length::em(18),
                ascent: Length::em(0),
                descent: Length::em(0),
            }),
            user_info: UserInfo { payload: None, operator_attrs: None },
        },
        text("y"),
    ];
    let result: TestBox = layout_expression(
        MathExpression {
            content: MathItem::List(list),
            user_info: UserInfo { payload: None, operator_attrs: None },
        },
        inline_options(),
        &f,
    );
    let bs = children(&result);
    assert_eq!(bs.len(), 3);
    assert_eq!(bs[0].origin.x, 0);
    // the space box is upright (italic correction zero): 500 + 30
    assert_eq!(bs[1].origin.x, 530);
    // the next glyph box is slanted (correction 30): no second application
    assert_eq!(bs[2].origin.x, 530 + 1000);
}

#[test]
fn pack_row_positions_directly() {
    let g = GlyphMetrics {
        extents: Extents { left_side_bearing: 0, width: 500, ascent: 700, descent: 200 },
        advance: 500,
        italic_correction: 0,
        top_accent_attachment: 250,
    };
    let boxes: Vec<TestBox> = vec![MathBox::with_glyph(1, &g, 100), MathBox::with_glyph(2, &g, 100)];
    let packed = pack_row(boxes);
    assert_eq!(packed[0].origin.x, 0);
    assert_eq!(packed[1].origin.x, 500);
}

#[test]
fn over_under_limits_in_display_style() {
    // limits on a large operator in Display style go above and below
    let f = font();
    let op_expr = MathExpression {
        content: MathItem::Operator(Operator {
            field: Field::Unicode(String::from("\u{2211}")),
            is_large_op: true,
            stretch_constraints: None,
            leading_space: Length::em(0),
            trailing_space: Length::em(0),
        }),
        user_info: UserInfo { payload: None, operator_attrs: None },
    };
    let ou = OverUnder {
        nucleus: Box::new(op_expr),
        over: Some(Box::new(text("n"))),
        under: Some(Box::new(text("k"))),
        over_is_accent: false,
        under_is_accent: false,
        is_limits: true,
    };
    let result: TestBox = layout_expression(
        MathExpression {
            content: MathItem::OverUnder(ou),
            user_info: UserInfo { payload: None, operator_attrs: None },
        },
        display_options(),
        &f,
    );
    // under first against the (over+nucleus) stack: two children at the top
    let bs = children(&result);
    assert_eq!(bs.len(), 2);
    // the under limit sits below the nucleus baseline, the over limit above
    let under = &bs[0];
    assert!(under.origin.y > 0, "under limit must drop below the baseline");
}

#[test]
fn over_under_limits_collapse_inline() {
    // the same limits in Inline style become ordinary scripts: the result is
    // nucleus + subscript + superscript + trailing space
    let f = font();
    let ou = OverUnder {
        nucleus: Box::new(text("s")),
        over: Some(Box::new(text("n"))),
        under: Some(Box::new(text("k"))),
        over_is_accent: false,
        under_is_accent: false,
        is_limits: true,
    };
    let result: TestBox = layout_expression(
        MathExpression {
            content: MathItem::OverUnder(ou),
            user_info: UserInfo { payload: None, operator_attrs: None },
        },
        inline_options(),
        &f,
    );
    let bs = children(&result);
    assert_eq!(bs.len(), 4);
}

#[test]
fn atom_without_scripts_is_the_nucleus() {
    let f = font();
    let atom = Atom { nucleus: Box::new(text("x")), top_right: None, bottom_right: None };
    let result: TestBox = layout_expression(
        MathExpression {
            content: MathItem::Atom(atom),
            user_info: UserInfo { payload: None, operator_attrs: None },
        },
        inline_options(),
        &f,
    );
    // one glyph run, no script machinery
    assert_eq!(children(&result).len(), 1);
    assert_eq!(result.ink_extents.ascent, 700);
}

#[test]
fn space_converts_lengths_to_font_units() {
    let f = font();
    let space = MathExpression {
        content: MathItem::Space(MathSpace {
            width: Length::em(9),
            ascent: Length::em(18),
            descent: Length::em(0),
        }),
        user_info: UserInfo { payload: None, operator_attrs: None },
    };
    let result: TestBox = layout_expression(space, inline_options(), &f);
    // 9/18 em of a 1000-unit em is 500
    assert_eq!(result.extents.width, 500);
    assert_eq!(result.extents.ascent, 1000);
    assert_eq!(result.extents.descent, 0);
    assert_eq!(result.ink_extents, Extents::zero());
}

#[test]
fn stretchy_operator_fills_requested_size() {
    let f = font();
    let op = Operator {
        field: Field::Unicode(String::from("(")),
        is_large_op: false,
        stretch_constraints: Some(StretchConstraints {
            min_size: None,
            max_size: None,
            symmetric: false,
        }),
        leading_space: Length::em(0),
        trailing_space: Length::em(0),
    };
    let options = LayoutOptions {
        stretch_size: Some(Extents { left_side_bearing: 0, width: 0, ascent: 900, descent: 300 }),
        ..inline_options()
    };
    let result: TestBox = layout_operator(op, options, &f);
    // asymmetric: needed height is ascent + descent; the run is wrapped and
    // balanced against the requested box
    let bs = children(&result);
    assert_eq!(bs[0].ink_extents.ascent, 1200);
    // excesses: (1200 - 900) and (0 - 300); half their difference is 300
    assert_eq!(bs[0].origin.y, 300);
}

#[test]
fn operator_properties_convert_spacing() {
    let f = font();
    let op_expr: Expr = MathExpression {
        content: MathItem::Operator(Operator {
            field: Field::Unicode(String::from("+")),
            is_large_op: false,
            stretch_constraints: Some(StretchConstraints {
                min_size: None,
                max_size: None,
                symmetric: true,
            }),
            leading_space: Length::em(4),
            trailing_space: Length::em(2),
        }),
        user_info: UserInfo { payload: None, operator_attrs: None },
    };
    let props = expr_operator_properties(&op_expr, &f).unwrap();
    // 4/18 em of 1000 units, truncating
    assert_eq!(props.leading_space, 222);
    assert_eq!(props.trailing_space, 111);
    assert!(props.stretch_properties.is_some());
    assert!(can_stretch(&op_expr, &f));
    assert!(!can_stretch(&text("x"), &f));
}

#[test]
fn shaper_clamps_degenerate_tables() {
    let f = FontMetrics::new(0, 0);
    assert_eq!(f.em_size(), 1);
    assert_eq!(f.ppem().0, 1);
    let mut g = FontMetrics::new(1000, 72);
    g.consts[constant_slot(MathConstant::AxisHeight)] = i64::MAX;
    assert_eq!(g.math_constant(MathConstant::AxisHeight), 0x100_0000);
}

#[test]
fn glyph_boxes_scale_with_script_level() {
    let f = font();
    let opts = LayoutOptions {
        style: LayoutStyle { script_level: 1, ..LayoutStyle::new(MathStyle::Inline) },
        stretch_size: None,
        as_accent: false,
    };
    let result: TestBox = layout_expression(text("x"), opts, &f);
    // 70 percent of 700/200/500
    assert_eq!(result.ink_extents.ascent, 490);
    assert_eq!(result.ink_extents.descent, 140);
    assert_eq!(result.extents.width, 350);
}

#[test]
fn length_conversion_through_points() {
    let f = font();
    // 18 * 72 point-eighteenths = 72 points = one em at 72 ppem
    let l = Length { unit: math_layout::length::LengthUnit::Point, eighteenths: 18 * 72 };
    assert_eq!(l.to_font_units(&f), 1000);
    let d = Length {
        unit: math_layout::length::LengthUnit::DisplayOperatorMinHeight,
        eighteenths: 18,
    };
    assert_eq!(d.to_font_units(&f), 1300);
    assert_eq!(Length::em(0).to_font_units(&f), 0);
}

#[test]
fn user_info_carries_over() {
    let f = font();
    let expr = MathExpression {
        content: MathItem::Field(Field::Unicode(String::from("x"))),
        user_info: UserInfo { payload: Some(7u32), operator_attrs: None },
    };
    let result = layout_expression(expr, inline_options(), &f);
    assert_eq!(result.user_info.unwrap().payload, Some(7));
    let _ = Point { x: 1, y: 2 };
}

#[test]
fn resolved_operator_spaces_become_boxes() {
    // after resolution, the explicit spaces around an infix `+` lay out as
    // empty boxes of exactly the resolved width flanking the operator box
    let f = font();
    let plus = MathExpression {
        content: MathItem::Field(Field::Unicode(String::from("+"))),
        user_info: UserInfo {
            payload: None,
            operator_attrs: Some(math_layout::operator::Attributes {
                character: Some('+'),
                form: None,
                lspace: None,
                rspace: None,
                flags: math_layout::operator::Flags::empty(),
                user_overrides: math_layout::operator::Flags::empty(),
            }),
        },
    };
    let mut list = vec![text("a"), plus, text("b")];
    math_layout::operator::process_operators(&mut list);
    let result: TestBox = layout_expression(
        MathExpression {
            content: MathItem::List(list),
            user_info: UserInfo { payload: None, operator_attrs: None },
        },
        inline_options(),
        &f,
    );
    let bs = children(&result);
    assert_eq!(bs.len(), 5);
    // 4/18 em of a 1000-unit em, truncating: 222 on either side, nonzero
    assert_eq!(bs[1].extents.width, 222);
    assert_eq!(bs[4].origin.x, 500 + 222 + 500 + 222);
    assert!(matches!(bs[1].content, BoxContent::Empty));
    assert!(matches!(bs[3].content, BoxContent::Empty));
    assert_eq!(bs[1].extents.width, bs[3].extents.width);
    assert!(bs[1].extents.width > 0);
    assert_eq!(bs[1].extents.ascent, 0);
    assert_eq!(bs[1].extents.descent, 0);
}
