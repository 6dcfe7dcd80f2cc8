//! The operator dictionary: a pure lookup from (character, form) to default
//! spacing and flags. Spacing values are whole eighteenths of an em. This is a
//! compact subset of the Unicode math operator dictionary; a character without
//! an entry receives all defaults (zero spacing, no flags).

use vstd::prelude::*;
use crate::operator::Flags;
use crate::operator::Form;

verus! {

/// A dictionary entry: default leading/trailing space in eighteenths of an em
/// and default flags for the operator in the given form.
#[derive(Clone, Copy, Debug)]
pub struct Entry {
    pub lspace: u32,
    pub rspace: u32,
    pub flags: Flags,
}

impl Default for Entry {
    /// The all-default entry: zero spacing, no flags.
    fn default() -> (r: Entry)
        ensures
            r == Entry::default_spec(),
    {
        Entry { lspace: 0, rspace: 0, flags: Flags::empty() }
    }
}

impl Entry {
    pub open spec fn default_spec() -> Entry {
        Entry { lspace: 0, rspace: 0, flags: Flags::empty_spec() }
    }
}

/// Flag order: symmetric, fence, stretchy, separator, accent, large_op,
/// movable_limits.
pub open spec fn fl(
    sy: bool,
    fe: bool,
    st: bool,
    se: bool,
    ac: bool,
    lo: bool,
    ml: bool,
) -> Flags {
    Flags {
        symmetric: sy,
        fence: fe,
        stretchy: st,
        separator: se,
        accent: ac,
        large_op: lo,
        movable_limits: ml,
    }
}

pub open spec fn entry_spec(lspace: u32, rspace: u32, flags: Flags) -> Entry {
    Entry { lspace, rspace, flags }
}

/// The dictionary as a pure function.
#[verifier::opaque]
pub open spec fn find_entry_spec(character: char, form: Form) -> Option<Entry> {
    match form {
        Form::Infix => match character {
            '+' => Some(entry_spec(4, 4, fl(false, false, false, false, false, false, false))),
            '-' => Some(entry_spec(4, 4, fl(false, false, false, false, false, false, false))),
            '\u{00d7}' => Some(
                entry_spec(4, 4, fl(false, false, false, false, false, false, false)),
            ),
            '/' => Some(entry_spec(3, 3, fl(false, false, false, false, false, false, false))),
            '=' => Some(entry_spec(5, 5, fl(false, false, false, false, false, false, false))),
            '<' => Some(entry_spec(5, 5, fl(false, false, false, false, false, false, false))),
            '>' => Some(entry_spec(5, 5, fl(false, false, false, false, false, false, false))),
            '\u{2192}' => Some(entry_spec(5, 5, fl(false, false, true, false, true, false, false))),
            ',' => Some(entry_spec(0, 3, fl(false, false, false, true, false, false, false))),
            ';' => Some(entry_spec(0, 3, fl(false, false, false, true, false, false, false))),
            '|' => Some(entry_spec(2, 2, fl(true, true, true, false, false, false, false))),
            _ => None,
        },
        Form::Prefix => match character {
            '+' => Some(entry_spec(0, 1, fl(false, false, false, false, false, false, false))),
            '-' => Some(entry_spec(0, 1, fl(false, false, false, false, false, false, false))),
            '(' => Some(entry_spec(0, 0, fl(true, true, true, false, false, false, false))),
            '[' => Some(entry_spec(0, 0, fl(true, true, true, false, false, false, false))),
            '\u{2211}' => Some(entry_spec(1, 1, fl(true, false, false, false, false, true, true))),
            '\u{222b}' => Some(entry_spec(1, 1, fl(true, false, false, false, false, true, false))),
            _ => None,
        },
        Form::Postfix => match character {
            ')' => Some(entry_spec(0, 0, fl(true, true, true, false, false, false, false))),
            ']' => Some(entry_spec(0, 0, fl(true, true, true, false, false, false, false))),
            '!' => Some(entry_spec(1, 0, fl(false, false, false, false, false, false, false))),
            '^' => Some(entry_spec(0, 0, fl(false, false, true, false, true, false, false))),
            '\u{203e}' => Some(entry_spec(0, 0, fl(false, false, true, false, true, false, false))),
            _ => None,
        },
    }
}

/// Look up the dictionary entry for a character in a given form.
pub fn find_entry(character: char, form: Form) -> (r: Option<Entry>)
    ensures
        r == find_entry_spec(character, form),
{
    proof {
        reveal(find_entry_spec);
    }
    match form {
        Form::Infix => match character {
            '+' => Some(Entry { lspace: 4, rspace: 4, flags: Flags::empty() }),
            '-' => Some(Entry { lspace: 4, rspace: 4, flags: Flags::empty() }),
            '\u{00d7}' => Some(Entry { lspace: 4, rspace: 4, flags: Flags::empty() }),
            '/' => Some(Entry { lspace: 3, rspace: 3, flags: Flags::empty() }),
            '=' => Some(Entry { lspace: 5, rspace: 5, flags: Flags::empty() }),
            '<' => Some(Entry { lspace: 5, rspace: 5, flags: Flags::empty() }),
            '>' => Some(Entry { lspace: 5, rspace: 5, flags: Flags::empty() }),
            '\u{2192}' => Some(
                Entry {
                    lspace: 5,
                    rspace: 5,
                    flags: Flags::new(false, false, true, false, true, false, false),
                },
            ),
            ',' => Some(
                Entry {
                    lspace: 0,
                    rspace: 3,
                    flags: Flags::new(false, false, false, true, false, false, false),
                },
            ),
            ';' => Some(
                Entry {
                    lspace: 0,
                    rspace: 3,
                    flags: Flags::new(false, false, false, true, false, false, false),
                },
            ),
            '|' => Some(
                Entry {
                    lspace: 2,
                    rspace: 2,
                    flags: Flags::new(true, true, true, false, false, false, false),
                },
            ),
            _ => None,
        },
        Form::Prefix => match character {
            '+' => Some(Entry { lspace: 0, rspace: 1, flags: Flags::empty() }),
            '-' => Some(Entry { lspace: 0, rspace: 1, flags: Flags::empty() }),
            '(' => Some(
                Entry {
                    lspace: 0,
                    rspace: 0,
                    flags: Flags::new(true, true, true, false, false, false, false),
                },
            ),
            '[' => Some(
                Entry {
                    lspace: 0,
                    rspace: 0,
                    flags: Flags::new(true, true, true, false, false, false, false),
                },
            ),
            '\u{2211}' => Some(
                Entry {
                    lspace: 1,
                    rspace: 1,
                    flags: Flags::new(true, false, false, false, false, true, true),
                },
            ),
            '\u{222b}' => Some(
                Entry {
                    lspace: 1,
                    rspace: 1,
                    flags: Flags::new(true, false, false, false, false, true, false),
                },
            ),
            _ => None,
        },
        Form::Postfix => match character {
            ')' => Some(
                Entry {
                    lspace: 0,
                    rspace: 0,
                    flags: Flags::new(true, true, true, false, false, false, false),
                },
            ),
            ']' => Some(
                Entry {
                    lspace: 0,
                    rspace: 0,
                    flags: Flags::new(true, true, true, false, false, false, false),
                },
            ),
            '!' => Some(Entry { lspace: 1, rspace: 0, flags: Flags::empty() }),
            '^' => Some(
                Entry {
                    lspace: 0,
                    rspace: 0,
                    flags: Flags::new(false, false, true, false, true, false, false),
                },
            ),
            '\u{203e}' => Some(
                Entry {
                    lspace: 0,
                    rspace: 0,
                    flags: Flags::new(false, false, true, false, true, false, false),
                },
            ),
            _ => None,
        },
    }
}

} // verus!
