//! Operator attributes and the operator-attribute resolution pass.
//!
//! The resolver walks a flat list of sibling expression nodes, determines each
//! embedded operator's form (prefix / infix / postfix), fills in spacing and
//! flags from the operator dictionary where the caller left them unset, and
//! then materializes the resolved spacing as explicit space nodes around each
//! operator, so that layout never needs operator-spacing logic of its own.

use vstd::prelude::*;
use crate::item::{MathExpression, MathItem, MathSpace, UserInfo};
use crate::length::Length;
use crate::operator_dict;
use crate::operator_dict::Entry;

verus! {

/// The operator flag set.
#[derive(Clone, Copy, Debug, PartialEq, Eq, Structural)]
pub struct Flags {
    pub symmetric: bool,
    pub fence: bool,
    pub stretchy: bool,
    pub separator: bool,
    pub accent: bool,
    pub large_op: bool,
    pub movable_limits: bool,
}

impl Default for Flags {
    fn default() -> (r: Flags)
        ensures
            r == Flags::empty_spec(),
    {
        Flags::empty()
    }
}

impl Flags {
    pub open spec fn empty_spec() -> Flags {
        Flags {
            symmetric: false,
            fence: false,
            stretchy: false,
            separator: false,
            accent: false,
            large_op: false,
            movable_limits: false,
        }
    }

    /// The empty flag set.
    pub fn empty() -> (r: Flags)
        ensures
            r == Flags::empty_spec(),
    {
        Flags {
            symmetric: false,
            fence: false,
            stretchy: false,
            separator: false,
            accent: false,
            large_op: false,
            movable_limits: false,
        }
    }

    /// Flag order: symmetric, fence, stretchy, separator, accent, large_op,
    /// movable_limits.
    pub fn new(sy: bool, fe: bool, st: bool, se: bool, ac: bool, lo: bool, ml: bool) -> (r: Flags)
        ensures
            r == (Flags {
                symmetric: sy,
                fence: fe,
                stretchy: st,
                separator: se,
                accent: ac,
                large_op: lo,
                movable_limits: ml,
            }),
    {
        Flags {
            symmetric: sy,
            fence: fe,
            stretchy: st,
            separator: se,
            accent: ac,
            large_op: lo,
            movable_limits: ml,
        }
    }

    pub open spec fn union_spec(self, o: Flags) -> Flags {
        Flags {
            symmetric: self.symmetric || o.symmetric,
            fence: self.fence || o.fence,
            stretchy: self.stretchy || o.stretchy,
            separator: self.separator || o.separator,
            accent: self.accent || o.accent,
            large_op: self.large_op || o.large_op,
            movable_limits: self.movable_limits || o.movable_limits,
        }
    }

    /// Set every flag that is set in `o`.
    pub fn union(self, o: Flags) -> (r: Flags)
        ensures
            r == self.union_spec(o),
    {
        Flags {
            symmetric: self.symmetric || o.symmetric,
            fence: self.fence || o.fence,
            stretchy: self.stretchy || o.stretchy,
            separator: self.separator || o.separator,
            accent: self.accent || o.accent,
            large_op: self.large_op || o.large_op,
            movable_limits: self.movable_limits || o.movable_limits,
        }
    }

    pub open spec fn difference_spec(self, o: Flags) -> Flags {
        Flags {
            symmetric: self.symmetric && !o.symmetric,
            fence: self.fence && !o.fence,
            stretchy: self.stretchy && !o.stretchy,
            separator: self.separator && !o.separator,
            accent: self.accent && !o.accent,
            large_op: self.large_op && !o.large_op,
            movable_limits: self.movable_limits && !o.movable_limits,
        }
    }

    /// Clear every flag that is set in `o`.
    pub fn difference(self, o: Flags) -> (r: Flags)
        ensures
            r == self.difference_spec(o),
    {
        Flags {
            symmetric: self.symmetric && !o.symmetric,
            fence: self.fence && !o.fence,
            stretchy: self.stretchy && !o.stretchy,
            separator: self.separator && !o.separator,
            accent: self.accent && !o.accent,
            large_op: self.large_op && !o.large_op,
            movable_limits: self.movable_limits && !o.movable_limits,
        }
    }

    /// Combine flags per flag: one marked in `overrides` keeps its value in
    /// `user`, every other flag takes its value from `dict`.
    pub open spec fn combine_spec(overrides: Flags, user: Flags, dict: Flags) -> Flags {
        Flags {
            symmetric: if overrides.symmetric {
                user.symmetric
            } else {
                dict.symmetric
            },
            fence: if overrides.fence {
                user.fence
            } else {
                dict.fence
            },
            stretchy: if overrides.stretchy {
                user.stretchy
            } else {
                dict.stretchy
            },
            separator: if overrides.separator {
                user.separator
            } else {
                dict.separator
            },
            accent: if overrides.accent {
                user.accent
            } else {
                dict.accent
            },
            large_op: if overrides.large_op {
                user.large_op
            } else {
                dict.large_op
            },
            movable_limits: if overrides.movable_limits {
                user.movable_limits
            } else {
                dict.movable_limits
            },
        }
    }

    pub fn combine(overrides: Flags, user: Flags, dict: Flags) -> (r: Flags)
        ensures
            r == Flags::combine_spec(overrides, user, dict),
    {
        Flags {
            symmetric: if overrides.symmetric {
                user.symmetric
            } else {
                dict.symmetric
            },
            fence: if overrides.fence {
                user.fence
            } else {
                dict.fence
            },
            stretchy: if overrides.stretchy {
                user.stretchy
            } else {
                dict.stretchy
            },
            separator: if overrides.separator {
                user.separator
            } else {
                dict.separator
            },
            accent: if overrides.accent {
                user.accent
            } else {
                dict.accent
            },
            large_op: if overrides.large_op {
                user.large_op
            } else {
                dict.large_op
            },
            movable_limits: if overrides.movable_limits {
                user.movable_limits
            } else {
                dict.movable_limits
            },
        }
    }
}

/// Reported when an operator form string is not one of "prefix", "infix",
/// "postfix"; carries the offending text.
pub struct FormParsingError {
    pub unknown_str: String,
}

/// An operator's form.
#[derive(PartialEq, Eq, Copy, Clone, Debug, Ord, PartialOrd, Structural)]
pub enum Form {
    Prefix,
    Infix,
    Postfix,
}

impl Default for Form {
    fn default() -> (r: Form)
        ensures
            r == Form::Infix,
    {
        Form::Infix
    }
}

impl Form {
    /// Parse a form name; any other string is a recoverable error carrying
    /// the offending text.
    pub fn from_str(s: &str) -> (r: Result<Form, FormParsingError>)
        ensures
            s@ == "prefix"@ ==> r == Ok::<Form, FormParsingError>(Form::Prefix),
            s@ == "infix"@ ==> r == Ok::<Form, FormParsingError>(Form::Infix),
            s@ == "postfix"@ ==> r == Ok::<Form, FormParsingError>(Form::Postfix),
            r is Err ==> s@ != "prefix"@ && s@ != "infix"@ && s@ != "postfix"@
                && r->Err_0.unknown_str@ == s@,
            r is Ok ==> (s@ == "prefix"@ || s@ == "infix"@ || s@ == "postfix"@),
    {
        proof {
            reveal_strlit("prefix");
            reveal_strlit("infix");
            reveal_strlit("postfix");
            assert("prefix"@.len() == 6);
            assert("infix"@.len() == 5);
            assert("postfix"@.len() == 7);
        }
        if str_eq(s, "prefix") {
            Ok(Form::Prefix)
        } else if str_eq(s, "infix") {
            Ok(Form::Infix)
        } else if str_eq(s, "postfix") {
            Ok(Form::Postfix)
        } else {
            Err(FormParsingError { unknown_str: s.to_owned() })
        }
    }
}

/// Character-wise string equality.
fn str_eq(a: &str, b: &str) -> (r: bool)
    ensures
        r == (a@ == b@),
{
    let alen = a.unicode_len();
    let blen = b.unicode_len();
    if alen != blen {
        proof {
            assert(a@ != b@) by {
                if a@ == b@ {
                    assert(a@.len() == b@.len());
                }
            }
        }
        return false;
    }
    let mut i: usize = 0;
    while i < alen
        invariant
            i <= alen,
            alen == a@.len(),
            alen == b@.len(),
            forall|j: int| 0 <= j < i ==> a@[j] == b@[j],
        decreases alen - i,
    {
        if a.get_char(i) != b.get_char(i) {
            proof {
                assert(a@ != b@) by {
                    if a@ == b@ {
                        assert(a@[i as int] == b@[i as int]);
                    }
                }
            }
            return false;
        }
        i += 1;
    }
    proof {
        assert(a@ =~= b@);
    }
    true
}

/// An operator's attributes: its defining character, form, spacing, flags,
/// and the record of which flags the caller set explicitly. Once resolved,
/// `form`, `lspace` and `rspace` are always present.
#[derive(Debug, Copy, Clone)]
pub struct Attributes {
    pub character: Option<char>,
    pub form: Option<Form>,
    pub lspace: Option<Length>,
    pub rspace: Option<Length>,
    pub flags: Flags,
    pub user_overrides: Flags,
}

impl Default for Attributes {
    fn default() -> (r: Attributes)
        ensures
            r == Attributes::default_spec(),
    {
        Attributes {
            character: None,
            form: None,
            lspace: None,
            rspace: None,
            flags: Flags::empty(),
            user_overrides: Flags::empty(),
        }
    }
}

impl Attributes {
    pub open spec fn default_spec() -> Attributes {
        Attributes {
            character: None,
            form: None,
            lspace: None,
            rspace: None,
            flags: Flags::empty_spec(),
            user_overrides: Flags::empty_spec(),
        }
    }

    pub open spec fn set_user_override_spec(self, flag: Flags, is_true: bool) -> Attributes {
        Attributes {
            user_overrides: self.user_overrides.union_spec(flag),
            flags: if is_true {
                self.flags.union_spec(flag)
            } else {
                self.flags.difference_spec(flag)
            },
            ..self
        }
    }

    /// Record an explicit caller choice for the given flags: they are marked
    /// overridden and set or cleared, so dictionary defaults never clobber
    /// them.
    pub fn set_user_override(&mut self, flag: Flags, is_true: bool)
        ensures
            *final(self) == old(self).set_user_override_spec(flag, is_true),
    {
        self.user_overrides = self.user_overrides.union(flag);
        if is_true {
            self.flags = self.flags.union(flag);
        } else {
            self.flags = self.flags.difference(flag);
        }
    }
}

/// The dictionary entry an operator resolves against: the entry for its
/// character and form, or the all-default entry when the character is absent
/// or has no entry.
pub open spec fn dict_entry(character: Option<char>, form: Form) -> Entry {
    match character {
        Some(ch) => match operator_dict::find_entry_spec(ch, form) {
            Some(e) => e,
            None => Entry::default_spec(),
        },
        None => Entry::default_spec(),
    }
}

/// Form resolution: an explicitly set form always wins; otherwise the first of
/// several non-whitespace elements defaults to Prefix and the last to Postfix;
/// every other operator, including the only non-whitespace element of a list,
/// defaults to Infix.
pub open spec fn resolve_form(
    form: Option<Form>,
    is_first: bool,
    is_last: bool,
    multiple: bool,
) -> Form {
    match form {
        Some(f) => f,
        None => if multiple && is_first {
            Form::Prefix
        } else if multiple && is_last {
            Form::Postfix
        } else {
            Form::Infix
        },
    }
}

/// Spacing and flag resolution, once the form is known. Explicit lspace and
/// rspace both present skip the dictionary entirely; otherwise unset spacing
/// takes the dictionary value (in eighteenths of an em) and flags are combined
/// per flag, user-overridden flags keeping their user value.
pub open spec fn resolve_spacing(a: Attributes) -> Attributes {
    if a.lspace is Some && a.rspace is Some {
        a
    } else {
        let form = match a.form {
            Some(f) => f,
            None => Form::Infix,
        };
        let entry = dict_entry(a.character, form);
        Attributes {
            lspace: match a.lspace {
                Some(l) => Some(l),
                None => Some(Length::em_spec(entry.lspace)),
            },
            rspace: match a.rspace {
                Some(l) => Some(l),
                None => Some(Length::em_spec(entry.rspace)),
            },
            flags: Flags::combine_spec(a.user_overrides, a.flags, entry.flags),
            ..a
        }
    }
}

/// Full attribute resolution for an operator at a given list position.
pub open spec fn resolve_attrs(
    a: Attributes,
    is_first: bool,
    is_last: bool,
    multiple: bool,
) -> Attributes {
    resolve_spacing(
        Attributes { form: Some(resolve_form(a.form, is_first, is_last, multiple)), ..a },
    )
}

/// Whether an element takes part in operator resolution: it is not whitespace
/// and embeds operator attributes.
pub open spec fn is_resolvable<T>(e: MathExpression<T>) -> bool {
    !e.is_space_spec() && e.user_info.operator_attrs is Some
}

/// Resolution of one list element at its position.
pub open spec fn resolve_element<T>(
    e: MathExpression<T>,
    is_first: bool,
    is_last: bool,
    multiple: bool,
) -> MathExpression<T> {
    if is_resolvable(e) {
        MathExpression {
            user_info: UserInfo {
                operator_attrs: Some(
                    resolve_attrs(e.user_info.operator_attrs->Some_0, is_first, is_last, multiple),
                ),
                ..e.user_info
            },
            ..e
        }
    } else {
        e
    }
}

/// Index of the first non-whitespace element at or after `i`; the list length
/// if there is none.
pub open spec fn first_nws_from<T>(s: Seq<MathExpression<T>>, i: int) -> int
    decreases s.len() - i,
{
    if i < 0 || i >= s.len() {
        s.len() as int
    } else if !s[i].is_space_spec() {
        i
    } else {
        first_nws_from(s, i + 1)
    }
}

pub open spec fn first_nws<T>(s: Seq<MathExpression<T>>) -> int {
    first_nws_from(s, 0)
}

/// Index of the last non-whitespace element before `i`; -1 if there is none.
pub open spec fn last_nws_before<T>(s: Seq<MathExpression<T>>, i: int) -> int
    decreases i,
{
    if i <= 0 || i > s.len() {
        -1
    } else if !s[i - 1].is_space_spec() {
        i - 1
    } else {
        last_nws_before(s, i - 1)
    }
}

pub open spec fn last_nws<T>(s: Seq<MathExpression<T>>) -> int {
    last_nws_before(s, s.len() as int)
}

/// Attribute resolution over a whole sibling list (no space insertion yet).
pub open spec fn resolve_list<T>(s: Seq<MathExpression<T>>) -> Seq<MathExpression<T>> {
    Seq::new(
        s.len(),
        |i: int|
            resolve_element(
                s[i],
                i == first_nws(s),
                i == last_nws(s),
                first_nws(s) != last_nws(s),
            ),
    )
}

/// The zero-height space node materializing a resolved operator space.
pub open spec fn space_node_spec<T>(width: Length) -> MathExpression<T> {
    MathExpression {
        content: MathItem::Space(
            MathSpace { width, ascent: Length::em_spec(0), descent: Length::em_spec(0) },
        ),
        user_info: UserInfo::none_spec(),
    }
}

/// The element together with the explicit space nodes its resolved spacing
/// calls for: a space of width lspace immediately before it when lspace is
/// present and non-null, and one of width rspace immediately after it when
/// rspace is present and non-null.
pub open spec fn splice_one<T>(e: MathExpression<T>) -> Seq<MathExpression<T>> {
    if is_resolvable(e) {
        let a = e.user_info.operator_attrs->Some_0;
        let before: Seq<MathExpression<T>> = match a.lspace {
            Some(l) => if !l.is_null_spec() {
                seq![space_node_spec(l)]
            } else {
                Seq::empty()
            },
            None => Seq::empty(),
        };
        let after: Seq<MathExpression<T>> = match a.rspace {
            Some(l) => if !l.is_null_spec() {
                seq![space_node_spec(l)]
            } else {
                Seq::empty()
            },
            None => Seq::empty(),
        };
        before + seq![e] + after
    } else {
        seq![e]
    }
}

/// Space insertion over a whole (already resolved) list.
pub open spec fn splice_spaces<T>(s: Seq<MathExpression<T>>) -> Seq<MathExpression<T>>
    decreases s.len(),
{
    if s.len() == 0 {
        Seq::empty()
    } else {
        splice_one(s[0]) + splice_spaces(s.drop_first())
    }
}

/// What `process_operators` does to a sibling list: resolve every operator's
/// attributes, then materialize the resolved spacing as space nodes.
pub open spec fn process_spec<T>(s: Seq<MathExpression<T>>) -> Seq<MathExpression<T>> {
    splice_spaces(resolve_list(s))
}

/// Build the zero-height space node for a resolved operator space.
pub fn space_node<T>(width: Length) -> (r: MathExpression<T>)
    ensures
        r == space_node_spec::<T>(width),
{
    MathExpression {
        content: MathItem::Space(
            MathSpace { width, ascent: Length::em(0), descent: Length::em(0) },
        ),
        user_info: UserInfo::none(),
    }
}

pub open spec fn set_default_form_spec<T>(e: MathExpression<T>, form: Form) -> MathExpression<T> {
    match e.user_info.operator_attrs {
        Some(a) => MathExpression {
            user_info: UserInfo {
                operator_attrs: Some(
                    Attributes {
                        form: if a.form is Some {
                            a.form
                        } else {
                            Some(form)
                        },
                        ..a
                    },
                ),
                ..e.user_info
            },
            ..e
        },
        None => e,
    }
}

/// Give the element's operator attributes, if any, the default `form` unless
/// a form was already set. An already-set form is never overridden.
pub fn set_default_form<T>(elem: &mut MathExpression<T>, form: Form)
    ensures
        *final (elem) == set_default_form_spec(*old(elem), form),
{
    match elem.user_info.operator_attrs {
        Some(a) => {
            if a.form.is_none() {
                elem.user_info.operator_attrs = Some(Attributes { form: Some(form), ..a });
            }
        },
        None => {},
    }
}

/// Fill in unresolved spacing and flags from the operator dictionary, as
/// `resolve_spacing` describes. Explicitly set lspace and rspace together
/// always win, in which case nothing changes.
#[verifier::rlimit(60)]
pub fn guess_operator_space<T>(elem: &mut MathExpression<T>)
    requires
        old(elem).user_info.operator_attrs is Some,
        old(elem).user_info.operator_attrs->Some_0.form is Some || (
        old(elem).user_info.operator_attrs->Some_0.lspace is Some
            && old(elem).user_info.operator_attrs->Some_0.rspace is Some),
    ensures
        *final (elem) == (MathExpression {
            user_info: UserInfo {
                operator_attrs: Some(
                    resolve_spacing(old(elem).user_info.operator_attrs->Some_0),
                ),
                ..old(elem).user_info
            },
            ..*old(elem)
        }),
{
    let a = match elem.user_info.operator_attrs {
        Some(a) => a,
        None => {
            proof {
                assert(false);
            }
            Attributes::default()
        },
    };
    if a.lspace.is_some() && a.rspace.is_some() {
        return ;
    }
    let form = match a.form {
        Some(f) => f,
        None => Form::Infix,
    };
    let entry = match a.character {
        Some(ch) => match operator_dict::find_entry(ch, form) {
            Some(en) => en,
            None => Entry::default(),
        },
        None => Entry::default(),
    };
    let lspace = match a.lspace {
        Some(l) => Some(l),
        None => Some(Length::em(entry.lspace)),
    };
    let rspace = match a.rspace {
        Some(l) => Some(l),
        None => Some(Length::em(entry.rspace)),
    };
    let flags = Flags::combine(a.user_overrides, a.flags, entry.flags);
    elem.user_info.operator_attrs = Some(Attributes { lspace, rspace, flags, ..a });
}

/// Insert the explicit space nodes for one resolved operator around it, the
/// left space first so the operator's own index moves accordingly. The
/// element at `index` must hold resolved (present) lspace and rspace and not
/// itself be a space.
#[verifier::rlimit(60)]
pub fn insert_space_for_operator<T>(list: &mut Vec<MathExpression<T>>, index: usize)
    requires
        index < old(list)@.len(),
        old(list)@.len() + 2 <= usize::MAX,
        is_resolvable(old(list)@[index as int]),
        old(list)@[index as int].user_info.operator_attrs->Some_0.lspace is Some,
        old(list)@[index as int].user_info.operator_attrs->Some_0.rspace is Some,
    ensures
        final (list)@ == old(list)@.take(index as int) + splice_one(old(list)@[index as int])
            + old(list)@.skip(index as int + 1),
{
    let ghost s0 = list@;
    let a = match list[index].user_info.operator_attrs {
        Some(a) => a,
        None => {
            proof {
                assert(false);
            }
            Attributes::default()
        },
    };
    let mut at = index;
    let lspace = match a.lspace {
        Some(l) => l,
        None => {
            proof {
                assert(false);
            }
            Length::em(0)
        },
    };
    let rspace = match a.rspace {
        Some(l) => l,
        None => {
            proof {
                assert(false);
            }
            Length::em(0)
        },
    };
    if !lspace.is_null() {
        list.insert(at, space_node(lspace));
        at += 1;
    }
    if !rspace.is_null() {
        list.insert(at + 1, space_node(rspace));
    }
    proof {
        assert(list@ =~= s0.take(index as int) + splice_one(s0[index as int]) + s0.skip(
            index as int + 1,
        ));
    }
}

/// Resolve every operator in a sibling list and materialize its spacing:
/// determine forms from list position, fill spacing and flags from the
/// dictionary, then splice explicit space nodes before and after each
/// operator with non-null resolved spacing.

/// Resolve one operator's attributes at a known list position.
#[verifier::rlimit(100)]
#[verifier::spinoff_prover]
fn resolve_attrs_exec(a: Attributes, is_first: bool, is_last: bool, multiple: bool) -> (r:
    Attributes)
    ensures
        r == resolve_attrs(a, is_first, is_last, multiple),
{
    let form = match a.form {
        Some(f) => f,
        None => if multiple && is_first {
            Form::Prefix
        } else if multiple && is_last {
            Form::Postfix
        } else {
            Form::Infix
        },
    };
    let a1 = Attributes { form: Some(form), ..a };
    if a1.lspace.is_some() && a1.rspace.is_some() {
        a1
    } else {
        let entry = match a1.character {
            Some(ch) => match operator_dict::find_entry(ch, form) {
                Some(en) => en,
                None => Entry::default(),
            },
            None => Entry::default(),
        };
        let lspace = match a1.lspace {
            Some(l) => Some(l),
            None => Some(Length::em(entry.lspace)),
        };
        let rspace = match a1.rspace {
            Some(l) => Some(l),
            None => Some(Length::em(entry.rspace)),
        };
        Attributes {
            lspace,
            rspace,
            flags: Flags::combine(a1.user_overrides, a1.flags, entry.flags),
            ..a1
        }
    }
}

#[verifier::rlimit(100)]
pub fn process_operators<T>(list: &mut Vec<MathExpression<T>>)
    ensures
        final (list)@ == process_spec(old(list)@),
{
    let ghost s0 = list@;
    let n = list.len();
    // forward scan: first non-whitespace index (n if none)
    let mut first: usize = 0;
    while first < n && list[first].is_space()
        invariant
            first <= n,
            list@ == s0,
            n == s0.len(),
            first_nws(s0) == first_nws_from(s0, first as int),
        decreases n - first,
    {
        first += 1;
    }
    proof {
        assert(first_nws(s0) == first as int);
    }
    // backward scan: one past the last non-whitespace index (0 if none)
    let mut last_plus: usize = n;
    while last_plus > 0 && list[last_plus - 1].is_space()
        invariant
            last_plus <= n,
            list@ == s0,
            n == s0.len(),
            last_nws(s0) == last_nws_before(s0, last_plus as int),
        decreases last_plus,
    {
        last_plus -= 1;
    }
    proof {
        assert(last_nws(s0) == if last_plus == 0 {
            -1
        } else {
            last_plus - 1
        });
    }
    let multiple = !(last_plus > 0 && first == last_plus - 1);
    proof {
        assert(multiple == (first_nws(s0) != last_nws(s0)));
    }
    // resolve every operator's attributes in place
    let mut i: usize = 0;
    while i < n
        invariant
            i <= n,
            n == s0.len(),
            list@.len() == n,
            first as int == first_nws(s0),
            last_nws(s0) == if last_plus == 0 {
                -1int
            } else {
                last_plus - 1
            },
            last_plus <= n,
            multiple == (first_nws(s0) != last_nws(s0)),
            forall|j: int|
                0 <= j < i ==> list@[j] == resolve_element(
                    s0[j],
                    j == first_nws(s0),
                    j == last_nws(s0),
                    first_nws(s0) != last_nws(s0),
                ),
            forall|j: int| i <= j < n ==> list@[j] == s0[j],
        decreases n - i,
    {
        let is_ws = list[i].is_space();
        let a_opt = list[i].user_info.operator_attrs;
        if !is_ws && a_opt.is_some() {
            let a = match a_opt {
                Some(a) => a,
                None => {
                    proof {
                        assert(false);
                    }
                    Attributes::default()
                },
            };
            let is_first = i == first;
            let is_last = last_plus > 0 && i == last_plus - 1;
            let a2 = resolve_attrs_exec(a, is_first, is_last, multiple);
            let ghost before = list@;
            let e = list.remove(i);
            let MathExpression { content, user_info } = e;
            let UserInfo { payload, operator_attrs: _ } = user_info;
            let e2 = MathExpression {
                content,
                user_info: UserInfo { payload, operator_attrs: Some(a2) },
            };
            list.insert(i, e2);
            proof {
                assert(list@ =~= before.update(
                    i as int,
                    resolve_element(
                        s0[i as int],
                        i as int == first_nws(s0),
                        i as int == last_nws(s0),
                        first_nws(s0) != last_nws(s0),
                    ),
                ));
            }
        }
        i += 1;
    }
    proof {
        assert(list@ =~= resolve_list(s0));
    }
    // splice explicit space nodes around each resolved operator
    let mut src: Vec<MathExpression<T>> = Vec::new();
    core::mem::swap(list, &mut src);
    let ghost rs = src@;
    list.clear();
    let mut k: usize = 0;
    while src.len() > 0
        invariant
            k <= rs.len(),
            rs.len() <= usize::MAX,
            src@ == rs.skip(k as int),
            list@ == splice_spaces(rs.take(k as int)),
        decreases src.len(),
    {
        let ghost list_before = list@;
        let e = src.remove(0);
        proof {
            assert(e == rs[k as int]);
            assert(src@ =~= rs.skip(k as int + 1));
        }
        let is_ws = e.is_space();
        let a_opt = e.user_info.operator_attrs;
        if !is_ws && a_opt.is_some() {
            let a = match a_opt {
                Some(a) => a,
                None => {
                    proof {
                        assert(false);
                    }
                    Attributes::default()
                },
            };
            match a.lspace {
                Some(l) => {
                    if !l.is_null() {
                        list.push(space_node(l));
                    }
                },
                None => {},
            }
            list.push(e);
            match a.rspace {
                Some(l) => {
                    if !l.is_null() {
                        list.push(space_node(l));
                    }
                },
                None => {},
            }
        } else {
            list.push(e);
        }
        proof {
            assert(list@ =~= list_before + splice_one(rs[k as int]));
            lemma_splice_append(rs.take(k as int), seq![rs[k as int]]);
            assert(seq![rs[k as int]].drop_first() =~= Seq::<MathExpression<T>>::empty());
            assert(splice_spaces(seq![rs[k as int]]) =~= splice_one(rs[k as int]) + splice_spaces(
                Seq::<MathExpression<T>>::empty(),
            ));
            assert(splice_spaces(seq![rs[k as int]]) =~= splice_one(rs[k as int]));
            assert(rs.take(k as int + 1) =~= rs.take(k as int) + seq![rs[k as int]]);
        }
        k += 1;
    }
    proof {
        assert(rs.take(rs.len() as int) =~= rs);
        assert(list@ == splice_spaces(resolve_list(s0)));
    }
}

pub proof fn lemma_splice_append<T>(a: Seq<MathExpression<T>>, b: Seq<MathExpression<T>>)
    ensures
        splice_spaces(a + b) == splice_spaces(a) + splice_spaces(b),
    decreases a.len(),
{
    if a.len() == 0 {
        assert(a + b =~= b);
        assert(splice_spaces(a) + splice_spaces(b) =~= splice_spaces(b));
    } else {
        assert((a + b).drop_first() =~= a.drop_first() + b);
        lemma_splice_append(a.drop_first(), b);
        assert(splice_one((a + b)[0]) + (splice_spaces(a.drop_first()) + splice_spaces(b)) =~= (
        splice_one(a[0]) + splice_spaces(a.drop_first())) + splice_spaces(b));
    }
}

// ---------------------------------------------------------------------------
// Guarantees of the resolution pass.
// ---------------------------------------------------------------------------

/// Attributes are resolved: form and both spaces are present.
pub open spec fn attrs_resolved(a: Attributes) -> bool {
    a.form is Some && a.lspace is Some && a.rspace is Some
}

/// An element that resolution can no longer change: either it embeds no
/// operator, or its operator attributes are fully resolved.
pub open spec fn element_stable<T>(e: MathExpression<T>) -> bool {
    is_resolvable(e) ==> attrs_resolved(e.user_info.operator_attrs->Some_0)
}

/// Position bounds of the first non-whitespace scan.
pub proof fn lemma_first_nws_props<T>(s: Seq<MathExpression<T>>, i: int)
    requires
        0 <= i <= s.len(),
    ensures
        i <= first_nws_from(s, i) <= s.len(),
        first_nws_from(s, i) < s.len() ==> !s[first_nws_from(s, i)].is_space_spec(),
        forall|j: int| i <= j < first_nws_from(s, i) ==> s[j].is_space_spec(),
    decreases s.len() - i,
{
    if i < s.len() && s[i].is_space_spec() {
        lemma_first_nws_props(s, i + 1);
    }
}

/// Position bounds of the last non-whitespace scan.
pub proof fn lemma_last_nws_props<T>(s: Seq<MathExpression<T>>, i: int)
    requires
        0 <= i <= s.len(),
    ensures
        -1 <= last_nws_before(s, i) < i,
        last_nws_before(s, i) >= 0 ==> !s[last_nws_before(s, i)].is_space_spec(),
        forall|j: int| last_nws_before(s, i) < j < i ==> s[j].is_space_spec(),
    decreases i,
{
    if 0 < i <= s.len() && s[i - 1].is_space_spec() {
        lemma_last_nws_props(s, i - 1);
    }
}

/// Form resolution by position: in a sibling list with at least two
/// non-whitespace elements, an operator without an explicit form resolves to
/// Prefix at the first non-whitespace position, Postfix at the last, and
/// Infix at any other position.
pub proof fn lemma_form_by_position<T>(s: Seq<MathExpression<T>>, i: int, j: int, k: int)
    requires
        0 <= j < k < s.len(),
        !s[j].is_space_spec(),
        !s[k].is_space_spec(),
        0 <= i < s.len(),
        is_resolvable(s[i]),
        s[i].user_info.operator_attrs->Some_0.form is None,
    ensures
        resolve_list(s)[i].user_info.operator_attrs->Some_0.form == Some(
            if i == first_nws(s) {
                Form::Prefix
            } else if i == last_nws(s) {
                Form::Postfix
            } else {
                Form::Infix
            },
        ),
{
    lemma_first_nws_props(s, 0);
    lemma_last_nws_props(s, s.len() as int);
    assert(first_nws(s) <= j);
    assert(last_nws(s) >= k);
    assert(first_nws(s) != last_nws(s));
}

/// An explicitly set form is never overridden by resolution, whatever the
/// element's position.
pub proof fn lemma_explicit_form_kept<T>(s: Seq<MathExpression<T>>, i: int)
    requires
        0 <= i < s.len(),
        is_resolvable(s[i]),
        s[i].user_info.operator_attrs->Some_0.form is Some,
    ensures
        resolve_list(s)[i].user_info.operator_attrs->Some_0.form == s[
            i
        ].user_info.operator_attrs->Some_0.form,
{
}

/// A list whose only non-whitespace element is an operator resolves that
/// operator's form to Infix.
pub proof fn lemma_single_element_infix<T>(s: Seq<MathExpression<T>>, i: int)
    requires
        0 <= i < s.len(),
        is_resolvable(s[i]),
        s[i].user_info.operator_attrs->Some_0.form is None,
        forall|j: int| 0 <= j < s.len() && j != i ==> s[j].is_space_spec(),
    ensures
        resolve_list(s)[i].user_info.operator_attrs->Some_0.form == Some(Form::Infix),
{
    lemma_first_nws_props(s, 0);
    lemma_last_nws_props(s, s.len() as int);
    assert(first_nws(s) == i);
    assert(last_nws(s) == i);
}

/// Resolution produces resolved attributes.
pub proof fn lemma_resolve_attrs_resolved(a: Attributes, f: bool, l: bool, m: bool)
    ensures
        attrs_resolved(resolve_attrs(a, f, l, m)),
{
}

/// Resolution of a stable element changes nothing, whatever position flags it
/// is resolved under.
pub proof fn lemma_stable_element_fixed<T>(e: MathExpression<T>, f: bool, l: bool, m: bool)
    requires
        element_stable(e),
    ensures
        resolve_element(e, f, l, m) == e,
{
}

/// Every element a processed list holds is stable: re-resolving it changes no
/// form, spacing or flag.
pub proof fn lemma_process_output_stable<T>(s: Seq<MathExpression<T>>, idx: int)
    requires
        0 <= idx < process_spec(s).len(),
    ensures
        element_stable(process_spec(s)[idx]),
{
    lemma_splice_stable(resolve_list(s), idx);
}

proof fn lemma_splice_stable<T>(r: Seq<MathExpression<T>>, idx: int)
    requires
        0 <= idx < splice_spaces(r).len(),
        forall|i: int| 0 <= i < r.len() ==> element_stable(#[trigger] r[i]),
    ensures
        element_stable(splice_spaces(r)[idx]),
    decreases r.len(),
{
    if r.len() > 0 {
        let head = splice_one(r[0]);
        if idx < head.len() {
            assert(element_stable(head[idx])) by {
                assert(element_stable(r[0]));
            }
        } else {
            lemma_splice_stable(r.drop_first(), idx - head.len());
        }
    }
}

/// Idempotence of attribute resolution: re-resolving an already processed
/// list changes no attribute of any element.
pub proof fn lemma_resolution_idempotent<T>(s: Seq<MathExpression<T>>)
    ensures
        resolve_list(process_spec(s)) == process_spec(s),
{
    let q = process_spec(s);
    assert forall|i: int| 0 <= i < q.len() implies resolve_list(q)[i] == q[i] by {
        lemma_process_output_stable(s, i);
        lemma_stable_element_fixed(q[i], i == first_nws(q), i == last_nws(q), first_nws(q) != last_nws(q));
    }
    assert(resolve_list(q) =~= q);
}

/// Elements of `resolve_list` are resolutions of the original elements.
pub proof fn lemma_resolve_list_index<T>(s: Seq<MathExpression<T>>, i: int)
    requires
        0 <= i < s.len(),
    ensures
        resolve_list(s)[i] == resolve_element(
            s[i],
            i == first_nws(s),
            i == last_nws(s),
            first_nws(s) != last_nws(s),
        ),
{
}

/// Space insertion invariant: in a spliced list, every operator with present,
/// non-null lspace is immediately preceded by a zero-height space node of
/// exactly that width, and symmetrically for rspace.
pub proof fn lemma_space_flanks<T>(r: Seq<MathExpression<T>>, j: int)
    requires
        0 <= j < splice_spaces(r).len(),
        is_resolvable(splice_spaces(r)[j]),
    ensures
        match splice_spaces(r)[j].user_info.operator_attrs->Some_0.lspace {
            Some(l) => !l.is_null_spec() ==> j >= 1 && splice_spaces(r)[j - 1]
                == space_node_spec::<T>(l),
            None => true,
        },
        match splice_spaces(r)[j].user_info.operator_attrs->Some_0.rspace {
            Some(l) => !l.is_null_spec() ==> j + 1 < splice_spaces(r).len() && splice_spaces(r)[j
                + 1] == space_node_spec::<T>(l),
            None => true,
        },
    decreases r.len(),
{
    if r.len() > 0 {
        let head = splice_one(r[0]);
        let rest = splice_spaces(r.drop_first());
        if j < head.len() {
            if is_resolvable(r[0]) {
                let a = r[0].user_info.operator_attrs->Some_0;
                assert(!space_node_spec::<T>(Length::em_spec(0)).is_space_spec() == false);
            }
        } else {
            lemma_space_flanks(r.drop_first(), j - head.len());
        }
    }
}

/// Flag override invariant: every flag the caller marked as overridden keeps
/// its caller-supplied value through resolution, whatever the dictionary
/// holds and whatever position the operator resolves at.
pub proof fn lemma_flag_overrides(a: Attributes, f: bool, l: bool, m: bool)
    ensures
        a.user_overrides.symmetric ==> resolve_attrs(a, f, l, m).flags.symmetric
            == a.flags.symmetric,
        a.user_overrides.fence ==> resolve_attrs(a, f, l, m).flags.fence == a.flags.fence,
        a.user_overrides.stretchy ==> resolve_attrs(a, f, l, m).flags.stretchy
            == a.flags.stretchy,
        a.user_overrides.separator ==> resolve_attrs(a, f, l, m).flags.separator
            == a.flags.separator,
        a.user_overrides.accent ==> resolve_attrs(a, f, l, m).flags.accent == a.flags.accent,
        a.user_overrides.large_op ==> resolve_attrs(a, f, l, m).flags.large_op
            == a.flags.large_op,
        a.user_overrides.movable_limits ==> resolve_attrs(a, f, l, m).flags.movable_limits
            == a.flags.movable_limits,
{
}

} // verus!
