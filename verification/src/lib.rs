//! Layout of mathematical notation: an operator-attribute resolution pass,
//! pure multiscript placement math, and a recursive layout engine that turns
//! a tree of mathematical constructs into a tree of positioned boxes, following
//! the OpenType MATH model. Font access goes through the `MathShaper`
//! capability trait; the operator dictionary is a pure lookup.

pub mod geom;
pub mod item;
pub mod math_box;
pub mod metrics;
pub mod multiscripts;
pub mod layout;
pub mod length;
pub mod operator;
pub mod operator_dict;
pub mod shaper;
pub mod style;
