//! The expression tree: a tagged variant over the mathematical constructs the
//! layout engine understands, generic over an opaque per-node caller payload.

use vstd::prelude::*;
use crate::length::Length;
use crate::operator::Attributes;

verus! {

/// The contents of an atomic field: nothing, a single glyph by identifier, or
/// text to be shaped by the font capability.
#[derive(Debug)]
pub enum Field {
    Empty,
    Glyph(u32),
    Unicode(String),
}

/// An explicit space of configured width, ascent and descent.
#[derive(Clone, Copy, Debug)]
pub struct MathSpace {
    pub width: Length,
    pub ascent: Length,
    pub descent: Length,
}

/// A nucleus with optional top-right (superscript) and bottom-right
/// (subscript) attachments. With neither attachment it lays out as the bare
/// nucleus.
#[derive(Debug)]
pub struct Atom<T> {
    pub nucleus: Box<MathExpression<T>>,
    pub top_right: Option<Box<MathExpression<T>>>,
    pub bottom_right: Option<Box<MathExpression<T>>>,
}

/// A nucleus with optional over and under attachments; `is_limits` marks
/// large-operator limits, which collapse to scripts in Inline style.
#[derive(Debug)]
pub struct OverUnder<T> {
    pub nucleus: Box<MathExpression<T>>,
    pub over: Option<Box<MathExpression<T>>>,
    pub under: Option<Box<MathExpression<T>>>,
    pub over_is_accent: bool,
    pub under_is_accent: bool,
    pub is_limits: bool,
}

/// A numerator over a denominator, separated by the fraction rule.
#[derive(Debug)]
pub struct GeneralizedFraction<T> {
    pub numerator: Box<MathExpression<T>>,
    pub denominator: Box<MathExpression<T>>,
}

/// A radicand under a surd, with an optional degree.
#[derive(Debug)]
pub struct Root<T> {
    pub radicand: Box<MathExpression<T>>,
    pub degree: Option<Box<MathExpression<T>>>,
}

/// Size limits for a stretchable operator and whether it stretches
/// symmetrically about the math axis.
#[derive(Clone, Copy, Debug)]
pub struct StretchConstraints {
    pub min_size: Option<Length>,
    pub max_size: Option<Length>,
    pub symmetric: bool,
}

/// An operator: its field, whether it is a large operator, its stretch
/// constraints if it may stretch, and its resolved leading/trailing spacing.
#[derive(Debug)]
pub struct Operator {
    pub field: Field,
    pub is_large_op: bool,
    pub stretch_constraints: Option<StretchConstraints>,
    pub leading_space: Length,
    pub trailing_space: Length,
}

/// One node of the expression tree.
#[derive(Debug)]
pub enum MathItem<T> {
    Field(Field),
    Space(MathSpace),
    Atom(Atom<T>),
    GeneralizedFraction(GeneralizedFraction<T>),
    OverUnder(OverUnder<T>),
    List(Vec<MathExpression<T>>),
    Root(Root<T>),
    Operator(Operator),
}

/// Per-node annotations: an arbitrary caller payload, and the operator
/// attributes if the node is (or embeds) an operator.
#[derive(Debug)]
pub struct UserInfo<T> {
    pub payload: Option<T>,
    pub operator_attrs: Option<Attributes>,
}

impl<T> UserInfo<T> {
    pub open spec fn none_spec() -> UserInfo<T> {
        UserInfo { payload: None, operator_attrs: None }
    }

    pub fn none() -> (r: UserInfo<T>)
        ensures
            r == UserInfo::<T>::none_spec(),
    {
        UserInfo { payload: None, operator_attrs: None }
    }

    pub open spec fn is_operator_spec(&self) -> bool {
        self.operator_attrs is Some
    }

    /// A node embeds an operator exactly when its operator attributes are
    /// present.
    pub fn is_operator(&self) -> (r: bool)
        ensures
            r == self.is_operator_spec(),
    {
        self.operator_attrs.is_some()
    }
}

/// An expression node together with its annotations.
#[derive(Debug)]
pub struct MathExpression<T> {
    pub content: MathItem<T>,
    pub user_info: UserInfo<T>,
}

impl<T> MathExpression<T> {
    pub open spec fn is_space_spec(&self) -> bool {
        self.content is Space
    }

    /// Whether this element counts as whitespace for operator-form
    /// resolution.
    pub fn is_space(&self) -> (r: bool)
        ensures
            r == self.is_space_spec(),
    {
        match self.content {
            MathItem::Space(_) => true,
            _ => false,
        }
    }
}

/// Structural size of an expression, the termination measure of the layout
/// recursion. Always at least one.
pub open spec fn exp_size<T>(e: MathExpression<T>) -> nat
    decreases e,
{
    1 + item_size(e.content)
}

pub open spec fn opt_size<T>(e: Option<Box<MathExpression<T>>>) -> nat
    decreases e,
{
    match e {
        Some(b) => exp_size(*b),
        None => 0,
    }
}

pub open spec fn item_size<T>(it: MathItem<T>) -> nat
    decreases it,
{
    match it {
        MathItem::Field(_) => 0,
        MathItem::Space(_) => 0,
        MathItem::Atom(a) => 1 + exp_size(*a.nucleus) + opt_size(a.top_right) + opt_size(
            a.bottom_right,
        ),
        MathItem::GeneralizedFraction(f) => 1 + exp_size(*f.numerator) + exp_size(*f.denominator),
        MathItem::OverUnder(ou) => 1 + exp_size(*ou.nucleus) + opt_size(ou.over) + opt_size(
            ou.under,
        ),
        MathItem::List(v) => 1 + list_size(v@),
        MathItem::Root(r) => 1 + exp_size(*r.radicand) + opt_size(r.degree),
        MathItem::Operator(_) => 0,
    }
}

/// Size of a sibling list; one more than the sizes of the elements combined,
/// so an element is always strictly smaller than the list holding it.
pub open spec fn list_size<T>(s: Seq<MathExpression<T>>) -> nat
    decreases s,
{
    if s.len() == 0 {
        1
    } else {
        exp_size(s[0]) + list_size(s.drop_first())
    }
}

/// Every element of a list is structurally smaller than the list.
pub proof fn lemma_list_size_element<T>(s: Seq<MathExpression<T>>, i: int)
    requires
        0 <= i < s.len(),
    ensures
        exp_size(s[i]) < list_size(s),
    decreases s.len(),
{
    if i == 0 {
        lemma_list_size_pos(s.drop_first());
    } else {
        lemma_list_size_element(s.drop_first(), i - 1);
        assert(s.drop_first()[i - 1] == s[i]);
    }
}

/// A list's size is positive.
pub proof fn lemma_list_size_pos<T>(s: Seq<MathExpression<T>>)
    ensures
        list_size(s) >= 1,
    decreases s.len(),
{
    if s.len() > 0 {
        lemma_list_size_pos(s.drop_first());
    }
}

/// Removing the head of a list shrinks its size by the head's size.
pub proof fn lemma_list_size_drop_first<T>(s: Seq<MathExpression<T>>)
    requires
        s.len() > 0,
    ensures
        list_size(s.drop_first()) < list_size(s),
{
    assert(exp_size(s[0]) >= 1);
}

} // verus!
