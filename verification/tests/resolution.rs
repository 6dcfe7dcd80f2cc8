use math_layout::item::{Field, MathExpression, MathItem, MathSpace, UserInfo};
use math_layout::length::{Length, LengthUnit};
use math_layout::operator::{
    insert_space_for_operator, process_operators, set_default_form, Attributes, Flags, Form,
};
use math_layout::operator_dict;

type Expr = MathExpression<()>;

fn letter(s: &str) -> Expr {
    MathExpression {
        content: MathItem::Field(Field::Unicode(String::from(s))),
        user_info: UserInfo { payload: None, operator_attrs: None },
    }
}

fn blank() -> Expr {
    MathExpression {
        content: MathItem::Space(MathSpace {
            width: Length::em(18),
            ascent: Length::em(0),
            descent: Length::em(0),
        }),
        user_info: UserInfo { payload: None, operator_attrs: None },
    }
}

fn bare_attrs(ch: char) -> Attributes {
    Attributes {
        character: Some(ch),
        form: None,
        lspace: None,
        rspace: None,
        flags: Flags::empty(),
        user_overrides: Flags::empty(),
    }
}

fn operator(ch: char) -> Expr {
    MathExpression {
        content: MathItem::Field(Field::Unicode(ch.to_string())),
        user_info: UserInfo { payload: None, operator_attrs: Some(bare_attrs(ch)) },
    }
}

fn attrs_of(e: &Expr) -> Attributes {
    e.user_info.operator_attrs.expect("element should hold operator attributes")
}

fn space_width(e: &Expr) -> Length {
    match &e.content {
        MathItem::Space(s) => {
            assert!(s.ascent.is_null());
            assert!(s.descent.is_null());
            s.width
        }
        _ => panic!("expected a space node"),
    }
}

#[test]
fn infix_plus_gets_dictionary_spacing() {
    // operator `+` between two fields: Infix, 4/18 em on both sides,
    // materialized as explicit zero-height spaces flanking the `+`
    let mut list = vec![letter("a"), operator('+'), letter("b")];
    process_operators(&mut list);
    assert_eq!(list.len(), 5);
    let a = attrs_of(&list[2]);
    assert_eq!(a.form, Some(Form::Infix));
    assert_eq!(a.lspace, Some(Length::em(4)));
    assert_eq!(a.rspace, Some(Length::em(4)));
    assert_eq!(space_width(&list[1]), Length::em(4));
    assert_eq!(space_width(&list[3]), Length::em(4));
    assert!(!Length::em(4).is_null());
}

#[test]
fn first_and_last_positions_get_prefix_and_postfix() {
    let mut list = vec![operator('+'), letter("a"), operator('!')];
    process_operators(&mut list);
    // prefix '+' has lspace 0 (null, no node inserted) and rspace 1/18 em
    let plus = attrs_of(&list[0]);
    assert_eq!(plus.form, Some(Form::Prefix));
    assert_eq!(plus.lspace, Some(Length::em(0)));
    assert_eq!(plus.rspace, Some(Length::em(1)));
    assert_eq!(space_width(&list[1]), Length::em(1));
    // postfix '!' has lspace 1/18 em and rspace 0
    let bang = attrs_of(&list[4]);
    assert_eq!(bang.form, Some(Form::Postfix));
    assert_eq!(bang.lspace, Some(Length::em(1)));
    assert_eq!(bang.rspace, Some(Length::em(0)));
    assert_eq!(space_width(&list[3]), Length::em(1));
    assert_eq!(list.len(), 5);
}

#[test]
fn whitespace_elements_do_not_count_for_positions() {
    let mut list = vec![blank(), operator('+'), letter("a"), blank()];
    process_operators(&mut list);
    // '+' is the first non-whitespace element of several: Prefix
    let plus = attrs_of(&list[1]);
    assert_eq!(plus.form, Some(Form::Prefix));
}

#[test]
fn single_operator_resolves_to_infix() {
    let mut list = vec![blank(), operator('+'), blank()];
    process_operators(&mut list);
    // the only non-whitespace element: Infix despite being first and last
    let plus = attrs_of(&list[2]);
    assert_eq!(plus.form, Some(Form::Infix));
    assert_eq!(plus.lspace, Some(Length::em(4)));
}

#[test]
fn explicit_form_is_kept() {
    let mut op = operator('+');
    op.user_info.operator_attrs.as_mut().unwrap().form = Some(Form::Postfix);
    let mut list = vec![op, letter("a")];
    process_operators(&mut list);
    // first position would default to Prefix, but the explicit form wins;
    // '+' has no postfix dictionary entry, so spacing defaults to zero and
    // no space node appears
    assert_eq!(list.len(), 2);
    let a = attrs_of(&list[0]);
    assert_eq!(a.form, Some(Form::Postfix));
    assert_eq!(a.lspace, Some(Length::em(0)));
    assert_eq!(a.rspace, Some(Length::em(0)));
}

#[test]
fn explicit_spacing_skips_the_dictionary() {
    let mut op = operator('+');
    {
        let a = op.user_info.operator_attrs.as_mut().unwrap();
        a.lspace = Some(Length::em(7));
        a.rspace = Some(Length::em(2));
        a.flags = Flags::new(false, false, true, false, false, false, false);
    }
    let mut list = vec![letter("a"), op, letter("b")];
    process_operators(&mut list);
    let a = attrs_of(&list[2]);
    // values kept, and the flags untouched because spacing resolution was
    // skipped entirely
    assert_eq!(a.lspace, Some(Length::em(7)));
    assert_eq!(a.rspace, Some(Length::em(2)));
    assert!(a.flags.stretchy);
    assert_eq!(space_width(&list[1]), Length::em(7));
    assert_eq!(space_width(&list[3]), Length::em(2));
}

#[test]
fn resolving_twice_changes_no_attribute() {
    let mut list = vec![letter("a"), operator('+'), letter("b"), operator('!')];
    process_operators(&mut list);
    let before: Vec<Option<Attributes>> =
        list.iter().map(|e| e.user_info.operator_attrs).collect();
    let mut again = Vec::new();
    std::mem::swap(&mut again, &mut list);
    let mut list2 = again;
    process_operators(&mut list2);
    // every element of the first pass keeps form, spacing and flags
    for (i, b) in before.iter().enumerate() {
        if let Some(a) = b {
            // find the same element in the re-processed list: re-splicing may
            // have inserted more spaces, so match by attribute identity
            let found = list2
                .iter()
                .filter_map(|e| e.user_info.operator_attrs)
                .any(|a2| {
                    a2.character == a.character
                        && a2.form == a.form
                        && a2.lspace == a.lspace
                        && a2.rspace == a.rspace
                        && a2.flags == a.flags
                });
            assert!(found, "attributes of element {} changed under re-resolution", i);
        }
    }
}

#[test]
fn user_overridden_flags_beat_the_dictionary() {
    // '(' in prefix form has fence+stretchy+symmetric in the dictionary;
    // the caller explicitly clears stretchy and sets separator
    let mut op = operator('(');
    {
        let a = op.user_info.operator_attrs.as_mut().unwrap();
        a.set_user_override(Flags::new(false, false, true, false, false, false, false), false);
        a.set_user_override(Flags::new(false, false, false, true, false, false, false), true);
    }
    let mut list = vec![op, letter("a")];
    process_operators(&mut list);
    let a = attrs_of(&list[0]);
    assert_eq!(a.form, Some(Form::Prefix));
    assert!(!a.flags.stretchy, "user cleared stretchy; dictionary must not set it");
    assert!(a.flags.separator, "user set separator; dictionary must not clear it");
    assert!(a.flags.fence, "non-overridden flag takes the dictionary value");
    assert!(a.flags.symmetric);
}

#[test]
fn insert_space_places_exact_nodes() {
    let mut op = operator('+');
    {
        let a = op.user_info.operator_attrs.as_mut().unwrap();
        a.form = Some(Form::Infix);
        a.lspace = Some(Length::em(5));
        a.rspace = Some(Length::em(0));
    }
    let mut list = vec![letter("a"), op];
    insert_space_for_operator(&mut list, 1);
    assert_eq!(list.len(), 3);
    assert_eq!(space_width(&list[1]), Length::em(5));
    assert!(attrs_of(&list[2]).lspace == Some(Length::em(5)));
}

#[test]
fn set_default_form_never_overrides() {
    let mut op = operator('+');
    set_default_form(&mut op, Form::Prefix);
    assert_eq!(attrs_of(&op).form, Some(Form::Prefix));
    set_default_form(&mut op, Form::Postfix);
    assert_eq!(attrs_of(&op).form, Some(Form::Prefix));
    let mut plain = letter("a");
    set_default_form(&mut plain, Form::Infix);
    assert!(plain.user_info.operator_attrs.is_none());
}

#[test]
fn form_parsing() {
    assert_eq!(Form::from_str("prefix").ok(), Some(Form::Prefix));
    assert_eq!(Form::from_str("infix").ok(), Some(Form::Infix));
    assert_eq!(Form::from_str("postfix").ok(), Some(Form::Postfix));
    let e = Form::from_str("sideways").err().expect("unknown form must be an error");
    assert_eq!(e.unknown_str, "sideways");
    assert_eq!(Form::default(), Form::Infix);
}

#[test]
fn dictionary_lookup() {
    let plus = operator_dict::find_entry('+', Form::Infix).unwrap();
    assert_eq!(plus.lspace, 4);
    assert_eq!(plus.rspace, 4);
    let sum = operator_dict::find_entry('\u{2211}', Form::Prefix).unwrap();
    assert!(sum.flags.large_op);
    assert!(sum.flags.movable_limits);
    assert!(operator_dict::find_entry('q', Form::Infix).is_none());
    let comma = operator_dict::find_entry(',', Form::Infix).unwrap();
    assert!(comma.flags.separator);
    assert_eq!(comma.rspace, 3);
}

#[test]
fn unknown_character_gets_all_defaults() {
    let mut list = vec![letter("a"), operator('q'), letter("b")];
    process_operators(&mut list);
    // no dictionary entry: zero spacing (null, so no nodes inserted), no flags
    assert_eq!(list.len(), 3);
    let a = attrs_of(&list[1]);
    assert_eq!(a.form, Some(Form::Infix));
    assert_eq!(a.lspace, Some(Length::em(0)));
    assert_eq!(a.rspace, Some(Length::em(0)));
    assert_eq!(a.flags, Flags::empty());
}

#[test]
fn length_units() {
    let l = Length { unit: LengthUnit::Em, eighteenths: 0 };
    assert!(l.is_null());
    assert!(!Length::em(1).is_null());
    assert_eq!(Length::em(3), Length { unit: LengthUnit::Em, eighteenths: 3 });
}
