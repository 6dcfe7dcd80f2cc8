//! Math layout styles: Display or Inline rendering, script nesting level, and
//! the cramped flag that suppresses extra room for superscripts.

use vstd::prelude::*;

verus! {

#[derive(Clone, Copy, Debug, PartialEq, Eq, Structural)]
pub enum MathStyle {
    /// Displayed formulas: operators may grow, limits attach above and below.
    Display,
    /// In-text formulas.
    Inline,
}

#[derive(Clone, Copy, Debug, PartialEq, Eq, Structural)]
pub struct LayoutStyle {
    pub math_style: MathStyle,
    /// Nesting depth of scripts; each level may shrink glyphs.
    pub script_level: u32,
    /// Cramped styles allow less room above the baseline (denominators,
    /// radicands, anything under a bar).
    pub is_cramped: bool,
}

impl LayoutStyle {
    pub open spec fn new_spec(math_style: MathStyle) -> LayoutStyle {
        LayoutStyle { math_style, script_level: 0, is_cramped: false }
    }

    pub fn new(math_style: MathStyle) -> (r: LayoutStyle)
        ensures
            r == LayoutStyle::new_spec(math_style),
    {
        LayoutStyle { math_style, script_level: 0, is_cramped: false }
    }

    /// The script level one deeper, saturating at the largest level.
    pub open spec fn deeper_level(self) -> u32 {
        if self.script_level < u32::MAX {
            (self.script_level + 1) as u32
        } else {
            self.script_level
        }
    }

    /// The same style one script level deeper.
    pub fn deeper(self) -> (r: LayoutStyle)
        ensures
            r == (LayoutStyle { script_level: self.deeper_level(), ..self }),
    {
        let level: u32 = if self.script_level < u32::MAX {
            self.script_level + 1
        } else {
            self.script_level
        };
        LayoutStyle { script_level: level, ..self }
    }

    /// The same style two script levels deeper.
    pub fn deeper_twice(self) -> (r: LayoutStyle)
        ensures
            r == (LayoutStyle {
                script_level: (LayoutStyle { script_level: self.deeper_level(), ..self }).deeper_level(),
                ..self
            }),
    {
        self.deeper().deeper()
    }

    pub open spec fn cramped_style_spec(self) -> LayoutStyle {
        LayoutStyle { is_cramped: true, ..self }
    }

    /// The same style, cramped.
    pub fn cramped_style(self) -> (r: LayoutStyle)
        ensures
            r == self.cramped_style_spec(),
    {
        LayoutStyle { is_cramped: true, ..self }
    }

    pub open spec fn superscript_style_spec(self) -> LayoutStyle {
        LayoutStyle { script_level: self.deeper_level(), ..self }
    }

    /// The style for a superscript: one script level deeper.
    pub fn superscript_style(self) -> (r: LayoutStyle)
        ensures
            r == self.superscript_style_spec(),
    {
        let level: u32 = if self.script_level < u32::MAX {
            self.script_level + 1
        } else {
            self.script_level
        };
        LayoutStyle { script_level: level, ..self }
    }

    pub open spec fn subscript_style_spec(self) -> LayoutStyle {
        LayoutStyle { script_level: self.deeper_level(), is_cramped: true, ..self }
    }

    /// The style for a subscript: one script level deeper and cramped.
    pub fn subscript_style(self) -> (r: LayoutStyle)
        ensures
            r == self.subscript_style_spec(),
    {
        let level: u32 = if self.script_level < u32::MAX {
            self.script_level + 1
        } else {
            self.script_level
        };
        LayoutStyle { script_level: level, is_cramped: true, ..self }
    }

    pub open spec fn inline_style_spec(self) -> LayoutStyle {
        LayoutStyle { math_style: MathStyle::Inline, ..self }
    }

    /// The same style demoted to Inline rendering.
    pub fn inline_style(self) -> (r: LayoutStyle)
        ensures
            r == self.inline_style_spec(),
    {
        LayoutStyle { math_style: MathStyle::Inline, ..self }
    }
}

} // verus!
