//! The ingested element model: attribute values, attributes, elements, a
//! typed extraction failure, and the derived queries (effective role,
//! focusability, event handlers) that the rules consult.
//!
//! Elements are produced by an external extractor and are immutable here.

use crate::dom::{AttributeName, Role, Tag};
use crate::text::{is_i32_string, int_value, parse_i32_str};
use vstd::prelude::*;

verus! {

/// The value of an HTML attribute: a string known at analysis time, or a
/// value computed at runtime by the host program, which cannot be checked.
#[derive(Clone, Debug, PartialEq)]
pub enum AttrValue {
    /// A static string literal value (contents without quotes).
    Static(String),
    /// A dynamic expression — cannot be checked statically.
    Dynamic,
}

impl AttrValue {
    /// The characters of a static value.
    pub open spec fn static_val(&self) -> Option<Seq<char>> {
        match self {
            AttrValue::Static(s) => Some(s@),
            AttrValue::Dynamic => None,
        }
    }

    /// Get the static string value, if available.
    pub fn as_static(&self) -> (r: Option<&str>)
        ensures
            (r is Some) == (self.static_val() is Some),
            r matches Some(s) ==> Some(s@) == self.static_val(),
    {
        match self {
            AttrValue::Static(s) => Some(s.as_str()),
            AttrValue::Dynamic => None,
        }
    }
}

/// An attribute on an HTML element, with its source position.
#[derive(Clone, Debug)]
pub struct HtmlAttribute {
    /// Attribute name (e.g. `aria-label`, `class`, `role`).
    pub name: AttributeName,
    /// Attribute value, if present.
    pub value: Option<AttrValue>,
    /// Line number in the source unit (1-based).
    pub line: usize,
    /// Column number in the source unit (0-based).
    pub column: usize,
}

/// The characters of an attribute's static value, when it has one.
pub open spec fn static_of(a: HtmlAttribute) -> Option<Seq<char>> {
    match a.value {
        Some(AttrValue::Static(s)) => Some(s@),
        _ => None,
    }
}


/// An HTML element found in a source unit.
#[derive(Clone, Debug)]
pub struct HtmlElement {
    /// Element tag.
    pub tag: Tag,
    /// Attributes on the element, in source order.
    pub attributes: Vec<HtmlAttribute>,
    /// Whether the element is self-closing (e.g. `<img />`).
    pub is_self_closing: bool,
    /// Whether the element has child content (text or nested elements).
    pub has_children: bool,
    /// Line number in the source unit (1-based).
    pub line: usize,
    /// Column number in the source unit (0-based).
    pub column: usize,
    /// The source unit (file path) the element came from.
    pub file: String,
}

/// Errors reported by the external extractor for a whole source unit; they
/// are collected apart from lint diagnostics, never mixed in.
#[derive(Clone, Debug)]
pub enum ParseError {
    /// The unit could not be read: path and cause.
    IoError(String, String),
    /// The host-language source could not be parsed: path and cause.
    SynError(String, String),
    /// Markup content inside a macro could not be parsed: path and cause.
    RstmlError(String, String),
}

impl ParseError {
    /// A human-readable account of the failure.
    pub fn message(&self) -> String {
        match self {
            ParseError::IoError(path, err) => {
                let mut s = String::from_str("Failed to read ");
                s.append(path.as_str());
                s.append(": ");
                s.append(err.as_str());
                s
            },
            ParseError::SynError(path, err) => {
                let mut s = String::from_str("Failed to parse ");
                s.append(path.as_str());
                s.append(": ");
                s.append(err.as_str());
                s
            },
            ParseError::RstmlError(path, err) => {
                let mut s = String::from_str("Invalid RSX in ");
                s.append(path.as_str());
                s.append(": ");
                s.append(err.as_str());
                s
            },
        }
    }
}

// ---------------------------------------------------------------------------
// Generic scans over attribute sequences
// ---------------------------------------------------------------------------

/// Whether some attribute carries the given name.
pub open spec fn has_attr_spec(attrs: Seq<HtmlAttribute>, n: AttributeName) -> bool {
    exists|i: int|
        0 <= i < attrs.len() && crate::dom::same_attr_name(#[trigger] attrs[i].name, n)
}

/// Whether any attribute of `attrs` carries the name `n`.
#[verifier::loop_isolation(false)]
pub fn has_attr(attrs: &Vec<HtmlAttribute>, n: &AttributeName) -> (r: bool)
    ensures
        r == has_attr_spec(attrs@, *n),
{
    let mut i: usize = 0;
    while i < attrs.len()
        invariant
            0 <= i <= attrs@.len(),
            forall|j: int|
                0 <= j < i ==> !crate::dom::same_attr_name(#[trigger] attrs@[j].name, *n),
        decreases attrs@.len() - i,
    {
        if &attrs[i].name == n {
            assert(crate::dom::same_attr_name(attrs@[i as int].name, *n));
            return true;
        }
        i += 1;
    }
    false
}

// ---------------------------------------------------------------------------
// Derived element queries
// ---------------------------------------------------------------------------

/// The concrete role an attribute contributes: it must be a `role`
/// attribute whose static value names a non-abstract role.
pub open spec fn attr_explicit_role(a: HtmlAttribute) -> Option<Role> {
    if (a.name matches AttributeName::Role) {
        match_static(a)
    } else {
        None
    }
}

/// Helper: the concrete role named by a static `role` value.
pub open spec fn match_static(a: HtmlAttribute) -> Option<Role> {
    match static_of(a) {
        Some(v) => match crate::dom::role_named(v) {
            Some(ro) => if !ro.is_abstract_spec() {
                Some(ro)
            } else {
                None
            },
            None => None,
        },
        None => None,
    }
}

/// The first concrete explicit role among the attributes from `i` on.
pub open spec fn explicit_role_from(attrs: Seq<HtmlAttribute>, i: int) -> Option<Role>
    decreases attrs.len() - i,
{
    if i < 0 || i >= attrs.len() {
        None
    } else if attr_explicit_role(attrs[i]) is Some {
        attr_explicit_role(attrs[i])
    } else {
        explicit_role_from(attrs, i + 1)
    }
}

/// `explicit_role_from` finds a role exactly when some later attribute
/// contributes one.
pub proof fn lemma_explicit_role_from_some(attrs: Seq<HtmlAttribute>, i: int)
    requires
        0 <= i <= attrs.len(),
    ensures
        (explicit_role_from(attrs, i) is Some) <==> exists|j: int|
            i <= j < attrs.len() && attr_explicit_role(#[trigger] attrs[j]) is Some,
    decreases attrs.len() - i,
{
    if i < attrs.len() {
        if attr_explicit_role(attrs[i]) is Some {
            assert(attr_explicit_role(attrs[i]) is Some);
        } else {
            lemma_explicit_role_from_some(attrs, i + 1);
        }
    }
}

/// The effective role is present exactly when the element has a
/// statically-known, recognized, non-abstract explicit `role` value, or,
/// absent that, the tag carries an implicit role; the explicit role wins.
pub proof fn lemma_effective_role(e: HtmlElement)
    ensures
        (e.role_spec() is Some) <==> ((exists|i: int|
            0 <= i < e.attributes@.len() && attr_explicit_role(#[trigger] e.attributes@[i])
                is Some) || (e.tag.implicit_role_spec() is Some)),
        (forall|i: int|
            0 <= i < e.attributes@.len() ==> attr_explicit_role(#[trigger] e.attributes@[i])
                is None) ==> e.role_spec() == e.tag.implicit_role_spec(),
{
    lemma_explicit_role_from_some(e.attributes@, 0);
}

impl HtmlElement {
    /// The effective role: a statically-known, recognized, non-abstract
    /// explicit `role` value wins; absent that, the tag's implicit role.
    pub open spec fn role_spec(&self) -> Option<Role> {
        match explicit_role_from(self.attributes@, 0) {
            Some(ro) => Some(ro),
            None => self.tag.implicit_role_spec(),
        }
    }

    /// The effective role: explicit `role` attribute (when its value is
    /// statically known and names a concrete role) over the tag's implicit
    /// role.
    #[verifier::loop_isolation(false)]
    pub fn role(&self) -> (r: Option<Role>)
        ensures
            r == self.role_spec(),
    {
        let attrs = &self.attributes;
        let mut i: usize = 0;
        while i < attrs.len()
            invariant
                0 <= i <= attrs@.len(),
                explicit_role_from(attrs@, 0) == explicit_role_from(attrs@, i as int),
            decreases attrs@.len() - i,
        {
            let a = &attrs[i];
            if matches!(a.name, AttributeName::Role) {
                if let Some(v) = &a.value {
                    if let Some(s) = v.as_static() {
                        if let Some(ro) = Role::from_str(s) {
                            if !ro.is_abstract() {
                                assert(attr_explicit_role(attrs@[i as int]) == Some(ro));
                                return Some(ro);
                            }
                        }
                    }
                }
            }
            assert(attr_explicit_role(attrs@[i as int]) is None);
            i += 1;
        }
        self.tag.implicit_role()
    }

    /// Whether an attribute makes the element focusable: a `tabindex` whose
    /// static value parses to a non-negative integer, or whose value is not
    /// statically known (assumed possibly focusable).
    pub open spec fn attr_focusable(a: HtmlAttribute) -> bool {
        (a.name matches AttributeName::TabIndex) && match static_of(a) {
            Some(v) => is_i32_string(v) && int_value(v) >= 0,
            None => true,
        }
    }

    /// Whether the element can receive keyboard focus.
    pub open spec fn focusable_spec(&self) -> bool {
        self.tag.is_interactive_spec() || exists|i: int|
            0 <= i < self.attributes@.len() && Self::attr_focusable(#[trigger] self.attributes@[i])
    }

    /// Whether the element is focusable: natively interactive, or carrying
    /// a `tabindex` that is non-negative or not statically known.
    #[verifier::loop_isolation(false)]
    pub fn is_focusable(&self) -> (r: bool)
        ensures
            r == self.focusable_spec(),
    {
        if self.tag.is_interactive() {
            return true;
        }
        let attrs = &self.attributes;
        let mut i: usize = 0;
        while i < attrs.len()
            invariant
                0 <= i <= attrs@.len(),
                forall|j: int| 0 <= j < i ==> !Self::attr_focusable(#[trigger] attrs@[j]),
            decreases attrs@.len() - i,
        {
            let a = &attrs[i];
            if matches!(a.name, AttributeName::TabIndex) {
                let focus = match &a.value {
                    Some(v) => match v.as_static() {
                        Some(s) => match parse_i32_str(s) {
                            Some(ix) => ix >= 0,
                            None => false,
                        },
                        None => true,
                    },
                    None => true,
                };
                if focus {
                    assert(Self::attr_focusable(attrs@[i as int]));
                    return true;
                }
            }
            assert(!Self::attr_focusable(attrs@[i as int]));
            i += 1;
        }
        false
    }

    /// Whether an attribute is one of the event handlers the rules track.
    pub open spec fn attr_event_handler(a: HtmlAttribute) -> bool {
        match a.name {
            AttributeName::OnClick => true,
            AttributeName::OnKeyDown => true,
            AttributeName::OnKeyUp => true,
            AttributeName::OnKeyPress => true,
            AttributeName::OnMouseOver => true,
            AttributeName::OnMouseOut => true,
            _ => false,
        }
    }

    /// Whether some tracked event handler is present.
    pub open spec fn event_handler_spec(&self) -> bool {
        exists|i: int|
            0 <= i < self.attributes@.len() && Self::attr_event_handler(
                #[trigger] self.attributes@[i],
            )
    }

    /// Whether there is an explicit event handler on this element.
    #[verifier::loop_isolation(false)]
    pub fn has_event_handler(&self) -> (r: bool)
        ensures
            r == self.event_handler_spec(),
    {
        let attrs = &self.attributes;
        let mut i: usize = 0;
        while i < attrs.len()
            invariant
                0 <= i <= attrs@.len(),
                forall|j: int| 0 <= j < i ==> !Self::attr_event_handler(#[trigger] attrs@[j]),
            decreases attrs@.len() - i,
        {
            let a = &attrs[i];
            if matches!(
                a.name,
                AttributeName::OnClick | AttributeName::OnKeyDown | AttributeName::OnKeyUp
                    | AttributeName::OnKeyPress | AttributeName::OnMouseOver
                    | AttributeName::OnMouseOut
            ) {
                assert(Self::attr_event_handler(attrs@[i as int]));
                return true;
            }
            assert(!Self::attr_event_handler(attrs@[i as int]));
            i += 1;
        }
        false
    }
}

} // verus!
