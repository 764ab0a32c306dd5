//! The individual lint rules: for each rule a specification of exactly
//! when it fires and what diagnostic it yields, and the verified check.
//!
//! Every rule follows the same pattern: an applicability guard on the tag
//! or the attributes, a structural check, and a diagnostic with a fixed
//! severity, located at the offending attribute when the violation is
//! attribute-specific and at the element otherwise. A rule that cannot
//! decide (a value only known at runtime) stays silent.

use crate::dom::{same_attr_name, Aria, AttributeName, Role, Tag};
use crate::element::{
    has_attr, has_attr_spec, static_of, AttrValue, HtmlAttribute, HtmlElement,
};
use crate::lints::{diag, opt_diag_view, DiagView, LintDiagnostic, Rule, Severity};
use crate::text::str_eq;
use vstd::prelude::*;

verus! {

// ---------------------------------------------------------------------------
// Shared helpers
// ---------------------------------------------------------------------------

/// Whether some attribute carries name `n` with the static value `v`.
pub open spec fn has_attr_valued_spec(attrs: Seq<HtmlAttribute>, n: AttributeName, v: Seq<char>) -> bool {
    exists|i: int|
        0 <= i < attrs.len() && same_attr_name(#[trigger] attrs[i].name, n) && static_of(attrs[i])
            == Some(v)
}

/// Whether any attribute carries name `n` with the static value `v`.
#[verifier::loop_isolation(false)]
pub fn has_attr_valued(attrs: &Vec<HtmlAttribute>, n: &AttributeName, v: &str) -> (r: bool)
    ensures
        r == has_attr_valued_spec(attrs@, *n, v@),
{
    let mut i: usize = 0;
    while i < attrs.len()
        invariant
            0 <= i <= attrs@.len(),
            forall|j: int|
                0 <= j < i ==> !(same_attr_name(#[trigger] attrs@[j].name, *n) && static_of(
                    attrs@[j],
                ) == Some(v@)),
        decreases attrs@.len() - i,
    {
        let a = &attrs[i];
        if &a.name == n {
            let hit = match &a.value {
                Some(AttrValue::Static(s)) => str_eq(s.as_str(), v),
                _ => false,
            };
            if hit {
                assert(same_attr_name(attrs@[i as int].name, *n) && static_of(attrs@[i as int])
                    == Some(v@));
                return true;
            }
        }
        assert(!(same_attr_name(attrs@[i as int].name, *n) && static_of(attrs@[i as int]) == Some(
            v@,
        )));
        i += 1;
    }
    false
}

/// Whether the element carries `aria-label` or `aria-labelledby`.
pub open spec fn has_aria_label_spec(attrs: Seq<HtmlAttribute>) -> bool {
    has_attr_spec(attrs, AttributeName::Aria(Aria::Label)) || has_attr_spec(
        attrs,
        AttributeName::Aria(Aria::LabelledBy),
    )
}

fn has_aria_label(attrs: &Vec<HtmlAttribute>) -> (r: bool)
    ensures
        r == has_aria_label_spec(attrs@),
{
    has_attr(attrs, &AttributeName::Aria(Aria::Label)) || has_attr(
        attrs,
        &AttributeName::Aria(Aria::LabelledBy),
    )
}

/// Three string pieces joined.
fn cat3(a: &str, b: &str, c: &str) -> (r: String)
    ensures
        r@ == a@ + b@ + c@,
{
    let mut s = String::from_str(a);
    s.append(b);
    s.append(c);
    s
}

/// Five string pieces joined.
fn cat5(a: &str, b: &str, c: &str, d: &str, e: &str) -> (r: String)
    ensures
        r@ == a@ + b@ + c@ + d@ + e@,
{
    let mut s = String::from_str(a);
    s.append(b);
    s.append(c);
    s.append(d);
    s.append(e);
    s
}

/// Seven string pieces joined.
fn cat7(a: &str, b: &str, c: &str, d: &str, e: &str, f: &str, g: &str) -> (r: String)
    ensures
        r@ == a@ + b@ + c@ + d@ + e@ + f@ + g@,
{
    let mut s = String::from_str(a);
    s.append(b);
    s.append(c);
    s.append(d);
    s.append(e);
    s.append(f);
    s.append(g);
    s
}

/// A message naming the element: `pre`, the tag name, `post`.
fn wrap_tag(pre: &str, t: &Tag, post: &str) -> (r: String)
    ensures
        r@ == pre@ + t.name_spec() + post@,
{
    let mut s = String::from_str(pre);
    s.append(t.name());
    s.append(post);
    s
}

// ---------------------------------------------------------------------------
// no-access-key
// ---------------------------------------------------------------------------

pub open spec fn access_key_hit(a: HtmlAttribute) -> bool {
    a.name matches AttributeName::AccessKey
}

pub open spec fn access_key_loc(attrs: Seq<HtmlAttribute>, i: int) -> Option<int>
    decreases attrs.len() - i,
{
    if i < 0 || i >= attrs.len() {
        None
    } else if access_key_hit(attrs[i]) {
        Some(i)
    } else {
        access_key_loc(attrs, i + 1)
    }
}

/// `no-access-key` fires on the first `accesskey` attribute.
pub open spec fn no_access_key_spec(e: HtmlElement) -> Option<DiagView> {
    match access_key_loc(e.attributes@, 0) {
        Some(k) => Some(
            DiagView {
                rule: Rule::NoAccessKey,
                message: "Avoid using the `accesskey` attribute on <"@ + e.tag.name_spec()
                    + ">. Access keys create keyboard shortcuts that conflict with screen reader and keyboard commands."@,
                severity: Severity::Warning,
                file: e.file@,
                line: e.attributes@[k].line as int,
                column: e.attributes@[k].column as int,
                element: e.tag,
                help: None,
            },
        ),
        None => None,
    }
}

#[verifier::loop_isolation(false)]
fn check_no_access_key(e: &HtmlElement) -> (r: Option<LintDiagnostic>)
    ensures
        opt_diag_view(r) == no_access_key_spec(*e),
{
    let attrs = &e.attributes;
    let mut i: usize = 0;
    while i < attrs.len()
        invariant
            0 <= i <= attrs@.len(),
            access_key_loc(attrs@, 0) == access_key_loc(attrs@, i as int),
        decreases attrs@.len() - i,
    {
        let a = &attrs[i];
        if matches!(a.name, AttributeName::AccessKey) {
            let m = wrap_tag(
                "Avoid using the `accesskey` attribute on <",
                &e.tag,
                ">. Access keys create keyboard shortcuts that conflict with screen reader and keyboard commands.",
            );
            return Some(diag(Rule::NoAccessKey, Severity::Warning, e, a.line, a.column, m, None));
        }
        assert(!access_key_hit(attrs@[i as int]));
        i += 1;
    }
    None
}

// ---------------------------------------------------------------------------
// no-autofocus
// ---------------------------------------------------------------------------

pub open spec fn autofocus_hit(a: HtmlAttribute) -> bool {
    a.name matches AttributeName::AutoFocus
}

pub open spec fn autofocus_loc(attrs: Seq<HtmlAttribute>, i: int) -> Option<int>
    decreases attrs.len() - i,
{
    if i < 0 || i >= attrs.len() {
        None
    } else if autofocus_hit(attrs[i]) {
        Some(i)
    } else {
        autofocus_loc(attrs, i + 1)
    }
}

/// `no-autofocus` fires on the first `autofocus` attribute.
pub open spec fn no_autofocus_spec(e: HtmlElement) -> Option<DiagView> {
    match autofocus_loc(e.attributes@, 0) {
        Some(k) => Some(
            DiagView {
                rule: Rule::NoAutofocus,
                message: "Avoid using the `autofocus` attribute on <"@ + e.tag.name_spec()
                    + ">. Autofocus can reduce usability and accessibility for sighted and non-sighted users."@,
                severity: Severity::Warning,
                file: e.file@,
                line: e.attributes@[k].line as int,
                column: e.attributes@[k].column as int,
                element: e.tag,
                help: None,
            },
        ),
        None => None,
    }
}

#[verifier::loop_isolation(false)]
fn check_no_autofocus(e: &HtmlElement) -> (r: Option<LintDiagnostic>)
    ensures
        opt_diag_view(r) == no_autofocus_spec(*e),
{
    let attrs = &e.attributes;
    let mut i: usize = 0;
    while i < attrs.len()
        invariant
            0 <= i <= attrs@.len(),
            autofocus_loc(attrs@, 0) == autofocus_loc(attrs@, i as int),
        decreases attrs@.len() - i,
    {
        let a = &attrs[i];
        if matches!(a.name, AttributeName::AutoFocus) {
            let m = wrap_tag(
                "Avoid using the `autofocus` attribute on <",
                &e.tag,
                ">. Autofocus can reduce usability and accessibility for sighted and non-sighted users.",
            );
            return Some(diag(Rule::NoAutofocus, Severity::Warning, e, a.line, a.column, m, None));
        }
        assert(!autofocus_hit(attrs@[i as int]));
        i += 1;
    }
    None
}

// ---------------------------------------------------------------------------
// no-distracting-elements
// ---------------------------------------------------------------------------

/// `no-distracting-elements` fires on every `<marquee>` and `<blink>`.
pub open spec fn no_distracting_spec(e: HtmlElement) -> Option<DiagView> {
    if (e.tag matches Tag::Marquee) || (e.tag matches Tag::Blink) {
        Some(
            DiagView {
                rule: Rule::NoDistractingElements,
                message: "<"@ + e.tag.name_spec()
                    + "> elements are distracting and should not be used. They can cause accessibility issues for users with visual or cognitive disabilities."@,
                severity: Severity::Error,
                file: e.file@,
                line: e.line as int,
                column: e.column as int,
                element: e.tag,
                help: Some("Use CSS animations or transitions instead."@),
            },
        )
    } else {
        None
    }
}

fn check_no_distracting(e: &HtmlElement) -> (r: Option<LintDiagnostic>)
    ensures
        opt_diag_view(r) == no_distracting_spec(*e),
{
    if matches!(e.tag, Tag::Marquee | Tag::Blink) {
        let m = wrap_tag(
            "<",
            &e.tag,
            "> elements are distracting and should not be used. They can cause accessibility issues for users with visual or cognitive disabilities.",
        );
        return Some(
            diag(
                Rule::NoDistractingElements,
                Severity::Error,
                e,
                e.line,
                e.column,
                m,
                Some(String::from_str("Use CSS animations or transitions instead.")),
            ),
        );
    }
    None
}

// ---------------------------------------------------------------------------
// scope
// ---------------------------------------------------------------------------

pub open spec fn scope_hit(a: HtmlAttribute) -> bool {
    a.name matches AttributeName::Scope
}

pub open spec fn scope_loc(attrs: Seq<HtmlAttribute>, i: int) -> Option<int>
    decreases attrs.len() - i,
{
    if i < 0 || i >= attrs.len() {
        None
    } else if scope_hit(attrs[i]) {
        Some(i)
    } else {
        scope_loc(attrs, i + 1)
    }
}

/// `scope` fires on the first `scope` attribute of any element that is not
/// a `<th>`.
pub open spec fn scope_spec(e: HtmlElement) -> Option<DiagView> {
    if (e.tag matches Tag::Th) {
        None
    } else {
        match scope_loc(e.attributes@, 0) {
            Some(k) => Some(
                DiagView {
                    rule: Rule::Scope,
                    message:
                        "The `scope` attribute should only be used on <th> elements, not <"@
                        + e.tag.name_spec() + ">."@,
                    severity: Severity::Warning,
                    file: e.file@,
                    line: e.attributes@[k].line as int,
                    column: e.attributes@[k].column as int,
                    element: e.tag,
                    help: None,
                },
            ),
            None => None,
        }
    }
}

#[verifier::loop_isolation(false)]
fn check_scope(e: &HtmlElement) -> (r: Option<LintDiagnostic>)
    ensures
        opt_diag_view(r) == scope_spec(*e),
{
    if matches!(e.tag, Tag::Th) {
        return None;
    }
    let attrs = &e.attributes;
    let mut i: usize = 0;
    while i < attrs.len()
        invariant
            0 <= i <= attrs@.len(),
            scope_loc(attrs@, 0) == scope_loc(attrs@, i as int),
        decreases attrs@.len() - i,
    {
        let a = &attrs[i];
        if matches!(a.name, AttributeName::Scope) {
            let m = wrap_tag(
                "The `scope` attribute should only be used on <th> elements, not <",
                &e.tag,
                ">.",
            );
            return Some(diag(Rule::Scope, Severity::Warning, e, a.line, a.column, m, None));
        }
        assert(!scope_hit(attrs@[i as int]));
        i += 1;
    }
    None
}

// ---------------------------------------------------------------------------
// html-has-lang
// ---------------------------------------------------------------------------

/// `html-has-lang` fires on an `<html>` element without a `lang`
/// attribute.
pub open spec fn html_has_lang_spec(e: HtmlElement) -> Option<DiagView> {
    if (e.tag matches Tag::Html) && !has_attr_spec(e.attributes@, AttributeName::Lang) {
        Some(
            DiagView {
                rule: Rule::HtmlHasLang,
                message: "<html> element is missing a `lang` attribute."@,
                severity: Severity::Warning,
                file: e.file@,
                line: e.line as int,
                column: e.column as int,
                element: e.tag,
                help: Some(
                    "Add a `lang` attribute (e.g., `lang=\"en\"`) to help screen readers determine the correct pronunciation."@,
                ),
            },
        )
    } else {
        None
    }
}

fn check_html_has_lang(e: &HtmlElement) -> (r: Option<LintDiagnostic>)
    ensures
        opt_diag_view(r) == html_has_lang_spec(*e),
{
    if !matches!(e.tag, Tag::Html) {
        return None;
    }
    if has_attr(&e.attributes, &AttributeName::Lang) {
        return None;
    }
    Some(
        diag(
            Rule::HtmlHasLang,
            Severity::Warning,
            e,
            e.line,
            e.column,
            String::from_str("<html> element is missing a `lang` attribute."),
            Some(
                String::from_str(
                    "Add a `lang` attribute (e.g., `lang=\"en\"`) to help screen readers determine the correct pronunciation.",
                ),
            ),
        ),
    )
}

// ---------------------------------------------------------------------------
// heading-has-content
// ---------------------------------------------------------------------------

/// `heading-has-content` fires on a heading with no children and no
/// `aria-label`/`aria-labelledby`.
pub open spec fn heading_has_content_spec(e: HtmlElement) -> Option<DiagView> {
    if e.tag.is_heading_spec() && !e.has_children && !has_aria_label_spec(e.attributes@) {
        Some(
            DiagView {
                rule: Rule::HeadingHasContent,
                message: "<"@ + e.tag.name_spec()
                    + "> element appears to be empty. Headings must have text content for accessibility."@,
                severity: Severity::Warning,
                file: e.file@,
                line: e.line as int,
                column: e.column as int,
                element: e.tag,
                help: Some("Add text content or an `aria-label` attribute."@),
            },
        )
    } else {
        None
    }
}

fn check_heading_has_content(e: &HtmlElement) -> (r: Option<LintDiagnostic>)
    ensures
        opt_diag_view(r) == heading_has_content_spec(*e),
{
    if !e.tag.is_heading() {
        return None;
    }
    if e.has_children || has_aria_label(&e.attributes) {
        return None;
    }
    let m = wrap_tag(
        "<",
        &e.tag,
        "> element appears to be empty. Headings must have text content for accessibility.",
    );
    Some(
        diag(
            Rule::HeadingHasContent,
            Severity::Warning,
            e,
            e.line,
            e.column,
            m,
            Some(String::from_str("Add text content or an `aria-label` attribute.")),
        ),
    )
}

// ---------------------------------------------------------------------------
// alt-text
// ---------------------------------------------------------------------------

/// Whether a `role="presentation"` or `role="none"` attribute is present.
pub open spec fn has_presentation_role_spec(attrs: Seq<HtmlAttribute>) -> bool {
    has_attr_valued_spec(attrs, AttributeName::Role, "presentation"@) || has_attr_valued_spec(
        attrs,
        AttributeName::Role,
        "none"@,
    )
}

/// `alt-text` fires on images, image maps, image inputs and objects that
/// lack alternative text.
pub open spec fn alt_text_spec(e: HtmlElement) -> Option<DiagView> {
    let attrs = e.attributes@;
    let fires = match e.tag {
        Tag::Img => !has_attr_spec(attrs, AttributeName::Alt) && !has_presentation_role_spec(attrs),
        Tag::Area => !has_attr_spec(attrs, AttributeName::Alt) && !has_aria_label_spec(attrs),
        Tag::Input => has_attr_valued_spec(attrs, AttributeName::Type, "image"@) && !has_attr_spec(
            attrs,
            AttributeName::Alt,
        ) && !has_aria_label_spec(attrs),
        Tag::Object => !has_attr_spec(attrs, AttributeName::Title) && !has_aria_label_spec(attrs)
            && !e.has_children,
        _ => false,
    };
    if fires {
        Some(
            DiagView {
                rule: Rule::AltText,
                message: match e.tag {
                    Tag::Img => "<img> element is missing an `alt` attribute."@,
                    Tag::Area => "<area> element is missing an `alt` attribute."@,
                    Tag::Input => "<input type=\"image\"> is missing an `alt` attribute."@,
                    _ => "<object> element is missing alternative text."@,
                },
                severity: Severity::Error,
                file: e.file@,
                line: e.line as int,
                column: e.column as int,
                element: e.tag,
                help: match e.tag {
                    Tag::Img => Some(
                        "Add an `alt` attribute with descriptive text, or `alt=\"\"` for decorative images, or `role=\"presentation\"` / `role=\"none\"`."@,
                    ),
                    Tag::Area => Some("Add an `alt` attribute or `aria-label` / `aria-labelledby`."@),
                    Tag::Input => Some(
                        "Add an `alt` attribute or `aria-label` / `aria-labelledby`."@,
                    ),
                    _ => Some(
                        "Add a `title` attribute, `aria-label` / `aria-labelledby`, or text content."@,
                    ),
                },
            },
        )
    } else {
        None
    }
}

fn check_alt_text(e: &HtmlElement) -> (r: Option<LintDiagnostic>)
    ensures
        opt_diag_view(r) == alt_text_spec(*e),
{
    let attrs = &e.attributes;
    match e.tag {
        Tag::Img => {
            if !has_attr(attrs, &AttributeName::Alt) && !(has_attr_valued(
                attrs,
                &AttributeName::Role,
                "presentation",
            ) || has_attr_valued(attrs, &AttributeName::Role, "none")) {
                return Some(
                    diag(
                        Rule::AltText,
                        Severity::Error,
                        e,
                        e.line,
                        e.column,
                        String::from_str("<img> element is missing an `alt` attribute."),
                        Some(
                            String::from_str(
                                "Add an `alt` attribute with descriptive text, or `alt=\"\"` for decorative images, or `role=\"presentation\"` / `role=\"none\"`.",
                            ),
                        ),
                    ),
                );
            }
            None
        },
        Tag::Area => {
            if !has_attr(attrs, &AttributeName::Alt) && !has_aria_label(attrs) {
                return Some(
                    diag(
                        Rule::AltText,
                        Severity::Error,
                        e,
                        e.line,
                        e.column,
                        String::from_str("<area> element is missing an `alt` attribute."),
                        Some(
                            String::from_str(
                                "Add an `alt` attribute or `aria-label` / `aria-labelledby`.",
                            ),
                        ),
                    ),
                );
            }
            None
        },
        Tag::Input => {
            if has_attr_valued(attrs, &AttributeName::Type, "image") && !has_attr(
                attrs,
                &AttributeName::Alt,
            ) && !has_aria_label(attrs) {
                return Some(
                    diag(
                        Rule::AltText,
                        Severity::Error,
                        e,
                        e.line,
                        e.column,
                        String::from_str("<input type=\"image\"> is missing an `alt` attribute."),
                        Some(
                            String::from_str(
                                "Add an `alt` attribute or `aria-label` / `aria-labelledby`.",
                            ),
                        ),
                    ),
                );
            }
            None
        },
        Tag::Object => {
            if !has_attr(attrs, &AttributeName::Title) && !has_aria_label(attrs)
                && !e.has_children {
                return Some(
                    diag(
                        Rule::AltText,
                        Severity::Error,
                        e,
                        e.line,
                        e.column,
                        String::from_str("<object> element is missing alternative text."),
                        Some(
                            String::from_str(
                                "Add a `title` attribute, `aria-label` / `aria-labelledby`, or text content.",
                            ),
                        ),
                    ),
                );
            }
            None
        },
        _ => None,
    }
}

// ---------------------------------------------------------------------------
// anchor-has-content
// ---------------------------------------------------------------------------

/// `anchor-has-content` fires on an `<a>` with no children and no
/// accessible name.
pub open spec fn anchor_has_content_spec(e: HtmlElement) -> Option<DiagView> {
    let named = has_aria_label_spec(e.attributes@) || has_attr_spec(
        e.attributes@,
        AttributeName::Title,
    );
    if (e.tag matches Tag::A) && !e.has_children && !named {
        Some(
            DiagView {
                rule: Rule::AnchorHasContent,
                message: "<a> element is missing content. Links must have discernible text."@,
                severity: Severity::Warning,
                file: e.file@,
                line: e.line as int,
                column: e.column as int,
                element: e.tag,
                help: Some("Add text content or an `aria-label` attribute."@),
            },
        )
    } else {
        None
    }
}

fn check_anchor_has_content(e: &HtmlElement) -> (r: Option<LintDiagnostic>)
    ensures
        opt_diag_view(r) == anchor_has_content_spec(*e),
{
    if !matches!(e.tag, Tag::A) {
        return None;
    }
    if e.has_children || has_aria_label(&e.attributes) || has_attr(
        &e.attributes,
        &AttributeName::Title,
    ) {
        return None;
    }
    Some(
        diag(
            Rule::AnchorHasContent,
            Severity::Warning,
            e,
            e.line,
            e.column,
            String::from_str("<a> element is missing content. Links must have discernible text."),
            Some(String::from_str("Add text content or an `aria-label` attribute.")),
        ),
    )
}

// ---------------------------------------------------------------------------
// label-has-associated-control
// ---------------------------------------------------------------------------

/// `label-has-associated-control` fires on a `<label>` with no `for`
/// attribute and no children.
pub open spec fn label_control_spec(e: HtmlElement) -> Option<DiagView> {
    if (e.tag matches Tag::Label) && !has_attr_spec(e.attributes@, AttributeName::For)
        && !e.has_children {
        Some(
            DiagView {
                rule: Rule::LabelHasAssociatedControl,
                message: "<label> element has no associated form control."@,
                severity: Severity::Warning,
                file: e.file@,
                line: e.line as int,
                column: e.column as int,
                element: e.tag,
                help: Some(
                    "Add a `for` attribute linking to a form control's `id`, or nest a form control inside the label."@,
                ),
            },
        )
    } else {
        None
    }
}

fn check_label_control(e: &HtmlElement) -> (r: Option<LintDiagnostic>)
    ensures
        opt_diag_view(r) == label_control_spec(*e),
{
    if !matches!(e.tag, Tag::Label) {
        return None;
    }
    if has_attr(&e.attributes, &AttributeName::For) || e.has_children {
        return None;
    }
    Some(
        diag(
            Rule::LabelHasAssociatedControl,
            Severity::Warning,
            e,
            e.line,
            e.column,
            String::from_str("<label> element has no associated form control."),
            Some(
                String::from_str(
                    "Add a `for` attribute linking to a form control's `id`, or nest a form control inside the label.",
                ),
            ),
        ),
    )
}

// ---------------------------------------------------------------------------
// control-has-associated-label
// ---------------------------------------------------------------------------

/// Whether the tag is an interactive control that needs a text label.
pub open spec fn is_labelled_control(t: Tag) -> bool {
    match t {
        Tag::Button | Tag::Input | Tag::Select | Tag::Textarea | Tag::Meter | Tag::Output
            | Tag::Progress => true,
        _ => false,
    }
}

/// `control-has-associated-label` fires on a control without a label and
/// without children.
pub open spec fn control_label_spec(e: HtmlElement) -> Option<DiagView> {
    let labelled = has_aria_label_spec(e.attributes@) || has_attr_spec(
        e.attributes@,
        AttributeName::Title,
    );
    if is_labelled_control(e.tag) && !labelled && !e.has_children {
        Some(
            DiagView {
                rule: Rule::ControlHasAssociatedLabel,
                message: "<"@ + e.tag.name_spec()
                    + "> element has no associated label. Interactive controls must have a text label."@,
                severity: Severity::Warning,
                file: e.file@,
                line: e.line as int,
                column: e.column as int,
                element: e.tag,
                help: Some(
                    "Add an `aria-label`, `aria-labelledby`, or `title` attribute, or use a <label>."@,
                ),
            },
        )
    } else {
        None
    }
}

fn check_control_label(e: &HtmlElement) -> (r: Option<LintDiagnostic>)
    ensures
        opt_diag_view(r) == control_label_spec(*e),
{
    if !matches!(
        e.tag,
        Tag::Button | Tag::Input | Tag::Select | Tag::Textarea | Tag::Meter | Tag::Output
            | Tag::Progress
    ) {
        return None;
    }
    if has_aria_label(&e.attributes) || has_attr(&e.attributes, &AttributeName::Title)
        || e.has_children {
        return None;
    }
    let m = wrap_tag(
        "<",
        &e.tag,
        "> element has no associated label. Interactive controls must have a text label.",
    );
    Some(
        diag(
            Rule::ControlHasAssociatedLabel,
            Severity::Warning,
            e,
            e.line,
            e.column,
            m,
            Some(
                String::from_str(
                    "Add an `aria-label`, `aria-labelledby`, or `title` attribute, or use a <label>.",
                ),
            ),
        ),
    )
}

// ---------------------------------------------------------------------------
// click-events-have-key-events
// ---------------------------------------------------------------------------

/// Whether a keyboard handler is present.
pub open spec fn has_key_handler_spec(attrs: Seq<HtmlAttribute>) -> bool {
    has_attr_spec(attrs, AttributeName::OnKeyDown) || has_attr_spec(
        attrs,
        AttributeName::OnKeyUp,
    ) || has_attr_spec(attrs, AttributeName::OnKeyPress)
}

/// `click-events-have-key-events` fires on a non-interactive element with
/// a click handler but no keyboard handler.
pub open spec fn click_key_events_spec(e: HtmlElement) -> Option<DiagView> {
    if !e.tag.is_interactive_spec() && has_attr_spec(e.attributes@, AttributeName::OnClick)
        && !has_key_handler_spec(e.attributes@) {
        Some(
            DiagView {
                rule: Rule::ClickEventsHaveKeyEvents,
                message: "<"@ + e.tag.name_spec()
                    + "> with click handler must also have a keyboard event handler (onkeydown, onkeyup, or onkeypress) for accessibility."@,
                severity: Severity::Warning,
                file: e.file@,
                line: e.line as int,
                column: e.column as int,
                element: e.tag,
                help: Some(
                    "Add an `onkeydown` or `onkeyup` handler, or use an interactive element like <button> instead."@,
                ),
            },
        )
    } else {
        None
    }
}

fn check_click_key_events(e: &HtmlElement) -> (r: Option<LintDiagnostic>)
    ensures
        opt_diag_view(r) == click_key_events_spec(*e),
{
    if e.tag.is_interactive() {
        return None;
    }
    if !has_attr(&e.attributes, &AttributeName::OnClick) {
        return None;
    }
    if has_attr(&e.attributes, &AttributeName::OnKeyDown) || has_attr(
        &e.attributes,
        &AttributeName::OnKeyUp,
    ) || has_attr(&e.attributes, &AttributeName::OnKeyPress) {
        return None;
    }
    let m = wrap_tag(
        "<",
        &e.tag,
        "> with click handler must also have a keyboard event handler (onkeydown, onkeyup, or onkeypress) for accessibility.",
    );
    Some(
        diag(
            Rule::ClickEventsHaveKeyEvents,
            Severity::Warning,
            e,
            e.line,
            e.column,
            m,
            Some(
                String::from_str(
                    "Add an `onkeydown` or `onkeyup` handler, or use an interactive element like <button> instead.",
                ),
            ),
        ),
    )
}

// ---------------------------------------------------------------------------
// media-has-caption
// ---------------------------------------------------------------------------

/// `media-has-caption` fires on `<video>`/`<audio>` without descriptive
/// text, unless muted or hidden from assistive technology.
pub open spec fn media_caption_spec(e: HtmlElement) -> Option<DiagView> {
    let muted = has_attr_spec(e.attributes@, AttributeName::Muted) || has_attr_spec(
        e.attributes@,
        AttributeName::Aria(Aria::Hidden),
    );
    if ((e.tag matches Tag::Video) || (e.tag matches Tag::Audio)) && !has_aria_label_spec(
        e.attributes@,
    ) && !muted {
        Some(
            DiagView {
                rule: Rule::MediaHasCaption,
                message: "<"@ + e.tag.name_spec()
                    + "> elements must have captions for accessibility."@,
                severity: Severity::Warning,
                file: e.file@,
                line: e.line as int,
                column: e.column as int,
                element: e.tag,
                help: Some(
                    "Add a <track kind=\"captions\"> child element, or use `aria-label` / `aria-labelledby` for descriptive text."@,
                ),
            },
        )
    } else {
        None
    }
}

fn check_media_caption(e: &HtmlElement) -> (r: Option<LintDiagnostic>)
    ensures
        opt_diag_view(r) == media_caption_spec(*e),
{
    if !matches!(e.tag, Tag::Video | Tag::Audio) {
        return None;
    }
    if has_aria_label(&e.attributes) || has_attr(&e.attributes, &AttributeName::Muted) || has_attr(
        &e.attributes,
        &AttributeName::Aria(Aria::Hidden),
    ) {
        return None;
    }
    let m = wrap_tag("<", &e.tag, "> elements must have captions for accessibility.");
    Some(
        diag(
            Rule::MediaHasCaption,
            Severity::Warning,
            e,
            e.line,
            e.column,
            m,
            Some(
                String::from_str(
                    "Add a <track kind=\"captions\"> child element, or use `aria-label` / `aria-labelledby` for descriptive text.",
                ),
            ),
        ),
    )
}

// ---------------------------------------------------------------------------
// iframe-has-title
// ---------------------------------------------------------------------------

/// `iframe-has-title` fires on an `<iframe>` without a title, an
/// accessible name, or `aria-hidden="true"`.
pub open spec fn iframe_title_spec(e: HtmlElement) -> Option<DiagView> {
    let excused = has_attr_spec(e.attributes@, AttributeName::Title) || has_aria_label_spec(
        e.attributes@,
    ) || has_attr_valued_spec(e.attributes@, AttributeName::Aria(Aria::Hidden), "true"@);
    if (e.tag matches Tag::Iframe) && !excused {
        Some(
            DiagView {
                rule: Rule::IframeHasTitle,
                message: "<iframe> element is missing a `title` attribute."@,
                severity: Severity::Warning,
                file: e.file@,
                line: e.line as int,
                column: e.column as int,
                element: e.tag,
                help: Some("Add a `title` attribute that describes the iframe content."@),
            },
        )
    } else {
        None
    }
}

fn check_iframe_title(e: &HtmlElement) -> (r: Option<LintDiagnostic>)
    ensures
        opt_diag_view(r) == iframe_title_spec(*e),
{
    if !matches!(e.tag, Tag::Iframe) {
        return None;
    }
    if has_attr(&e.attributes, &AttributeName::Title) || has_aria_label(&e.attributes)
        || has_attr_valued(&e.attributes, &AttributeName::Aria(Aria::Hidden), "true") {
        return None;
    }
    Some(
        diag(
            Rule::IframeHasTitle,
            Severity::Warning,
            e,
            e.line,
            e.column,
            String::from_str("<iframe> element is missing a `title` attribute."),
            Some(String::from_str("Add a `title` attribute that describes the iframe content.")),
        ),
    )
}

// ---------------------------------------------------------------------------
// mouse-events-have-key-events
// ---------------------------------------------------------------------------

/// `mouse-events-have-key-events` fires when `onmouseover` lacks
/// `onfocus`, or (absent that) when `onmouseout` lacks `onblur`.
pub open spec fn mouse_key_events_spec(e: HtmlElement) -> Option<DiagView> {
    let attrs = e.attributes@;
    if has_attr_spec(attrs, AttributeName::OnMouseOver) && !has_attr_spec(
        attrs,
        AttributeName::OnFocus,
    ) {
        Some(
            DiagView {
                rule: Rule::MouseEventsHaveKeyEvents,
                message: "<"@ + e.tag.name_spec()
                    + "> has a mouseover event handler but no onfocus handler. This can cause accessibility issues for keyboard users."@,
                severity: Severity::Warning,
                file: e.file@,
                line: e.line as int,
                column: e.column as int,
                element: e.tag,
                help: Some(
                    "Add an `onfocus` handler that mirrors the behavior of the `onmouseover` handler."@,
                ),
            },
        )
    } else if has_attr_spec(attrs, AttributeName::OnMouseOut) && !has_attr_spec(
        attrs,
        AttributeName::OnBlur,
    ) {
        Some(
            DiagView {
                rule: Rule::MouseEventsHaveKeyEvents,
                message: "<"@ + e.tag.name_spec()
                    + "> has a mouseout event handler but no onblur handler. This can cause accessibility issues for keyboard users."@,
                severity: Severity::Warning,
                file: e.file@,
                line: e.line as int,
                column: e.column as int,
                element: e.tag,
                help: Some(
                    "Add an `onblur` handler that mirrors the behavior of the `onmouseout` handler."@,
                ),
            },
        )
    } else {
        None
    }
}

fn check_mouse_key_events(e: &HtmlElement) -> (r: Option<LintDiagnostic>)
    ensures
        opt_diag_view(r) == mouse_key_events_spec(*e),
{
    if has_attr(&e.attributes, &AttributeName::OnMouseOver) && !has_attr(
        &e.attributes,
        &AttributeName::OnFocus,
    ) {
        let m = wrap_tag(
            "<",
            &e.tag,
            "> has a mouseover event handler but no onfocus handler. This can cause accessibility issues for keyboard users.",
        );
        return Some(
            diag(
                Rule::MouseEventsHaveKeyEvents,
                Severity::Warning,
                e,
                e.line,
                e.column,
                m,
                Some(
                    String::from_str(
                        "Add an `onfocus` handler that mirrors the behavior of the `onmouseover` handler.",
                    ),
                ),
            ),
        );
    }
    if has_attr(&e.attributes, &AttributeName::OnMouseOut) && !has_attr(
        &e.attributes,
        &AttributeName::OnBlur,
    ) {
        let m = wrap_tag(
            "<",
            &e.tag,
            "> has a mouseout event handler but no onblur handler. This can cause accessibility issues for keyboard users.",
        );
        return Some(
            diag(
                Rule::MouseEventsHaveKeyEvents,
                Severity::Warning,
                e,
                e.line,
                e.column,
                m,
                Some(
                    String::from_str(
                        "Add an `onblur` handler that mirrors the behavior of the `onmouseout` handler.",
                    ),
                ),
            ),
        );
    }
    None
}

// ---------------------------------------------------------------------------
// aria-activedescendant-has-tabindex
// ---------------------------------------------------------------------------

/// `aria-activedescendant-has-tabindex` fires on a non-interactive element
/// with `aria-activedescendant` but no `tabindex`.
pub open spec fn activedescendant_spec(e: HtmlElement) -> Option<DiagView> {
    if !e.tag.is_interactive_spec() && has_attr_spec(
        e.attributes@,
        AttributeName::Aria(Aria::ActiveDescendant),
    ) && !has_attr_spec(e.attributes@, AttributeName::TabIndex) {
        Some(
            DiagView {
                rule: Rule::AriaActivedescendantHasTabindex,
                message: "<"@ + e.tag.name_spec()
                    + "> with `aria-activedescendant` must also have a `tabindex` attribute to be focusable."@,
                severity: Severity::Warning,
                file: e.file@,
                line: e.line as int,
                column: e.column as int,
                element: e.tag,
                help: Some("Add `tabindex=\"0\"` to make the element focusable."@),
            },
        )
    } else {
        None
    }
}

fn check_activedescendant(e: &HtmlElement) -> (r: Option<LintDiagnostic>)
    ensures
        opt_diag_view(r) == activedescendant_spec(*e),
{
    if e.tag.is_interactive() {
        return None;
    }
    if !has_attr(&e.attributes, &AttributeName::Aria(Aria::ActiveDescendant)) {
        return None;
    }
    if has_attr(&e.attributes, &AttributeName::TabIndex) {
        return None;
    }
    let m = wrap_tag(
        "<",
        &e.tag,
        "> with `aria-activedescendant` must also have a `tabindex` attribute to be focusable.",
    );
    Some(
        diag(
            Rule::AriaActivedescendantHasTabindex,
            Severity::Warning,
            e,
            e.line,
            e.column,
            m,
            Some(String::from_str("Add `tabindex=\"0\"` to make the element focusable.")),
        ),
    )
}

// ---------------------------------------------------------------------------
// no-aria-hidden-on-focusable
// ---------------------------------------------------------------------------

/// `no-aria-hidden-on-focusable` fires on a focusable element carrying
/// `aria-hidden="true"`.
pub open spec fn aria_hidden_focusable_spec(e: HtmlElement) -> Option<DiagView> {
    if e.focusable_spec() && has_attr_valued_spec(
        e.attributes@,
        AttributeName::Aria(Aria::Hidden),
        "true"@,
    ) {
        Some(
            DiagView {
                rule: Rule::NoAriaHiddenOnFocusable,
                message: "<"@ + e.tag.name_spec()
                    + "> element is focusable but has `aria-hidden=\"true\"`, which hides it from assistive technologies."@,
                severity: Severity::Error,
                file: e.file@,
                line: e.line as int,
                column: e.column as int,
                element: e.tag,
                help: Some(
                    "Remove `aria-hidden=\"true\"` from focusable elements, or make the element non-focusable."@,
                ),
            },
        )
    } else {
        None
    }
}

fn check_aria_hidden_focusable(e: &HtmlElement) -> (r: Option<LintDiagnostic>)
    ensures
        opt_diag_view(r) == aria_hidden_focusable_spec(*e),
{
    if !e.is_focusable() {
        return None;
    }
    if !has_attr_valued(&e.attributes, &AttributeName::Aria(Aria::Hidden), "true") {
        return None;
    }
    let m = wrap_tag(
        "<",
        &e.tag,
        "> element is focusable but has `aria-hidden=\"true\"`, which hides it from assistive technologies.",
    );
    Some(
        diag(
            Rule::NoAriaHiddenOnFocusable,
            Severity::Error,
            e,
            e.line,
            e.column,
            m,
            Some(
                String::from_str(
                    "Remove `aria-hidden=\"true\"` from focusable elements, or make the element non-focusable.",
                ),
            ),
        ),
    )
}

// ---------------------------------------------------------------------------
// no-static-element-interactions
// ---------------------------------------------------------------------------

/// `no-static-element-interactions` fires on a static element (no implicit
/// role, not interactive, no explicit `role`) with event handlers.
pub open spec fn static_interactions_spec(e: HtmlElement) -> Option<DiagView> {
    if !e.tag.is_interactive_spec() && (e.tag.implicit_role_spec() is None) && !has_attr_spec(
        e.attributes@,
        AttributeName::Role,
    ) && e.event_handler_spec() {
        Some(
            DiagView {
                rule: Rule::NoStaticElementInteractions,
                message: "<"@ + e.tag.name_spec()
                    + "> with event handler(s) must have a `role` attribute."@,
                severity: Severity::Warning,
                file: e.file@,
                line: e.line as int,
                column: e.column as int,
                element: e.tag,
                help: Some(
                    "Add a `role` attribute that describes the element's purpose, or use a semantic element like <button> or <a>."@,
                ),
            },
        )
    } else {
        None
    }
}

fn check_static_interactions(e: &HtmlElement) -> (r: Option<LintDiagnostic>)
    ensures
        opt_diag_view(r) == static_interactions_spec(*e),
{
    if e.tag.is_interactive() || e.tag.implicit_role().is_some() {
        return None;
    }
    if has_attr(&e.attributes, &AttributeName::Role) {
        return None;
    }
    if !e.has_event_handler() {
        return None;
    }
    let m = wrap_tag("<", &e.tag, "> with event handler(s) must have a `role` attribute.");
    Some(
        diag(
            Rule::NoStaticElementInteractions,
            Severity::Warning,
            e,
            e.line,
            e.column,
            m,
            Some(
                String::from_str(
                    "Add a `role` attribute that describes the element's purpose, or use a semantic element like <button> or <a>.",
                ),
            ),
        ),
    )
}

// ---------------------------------------------------------------------------
// anchor-is-valid
// ---------------------------------------------------------------------------

pub open spec fn anchor_invalid_hit(a: HtmlAttribute) -> bool {
    (a.name matches AttributeName::Href) && match static_of(a) {
        Some(v) => v == "#"@ || v == ""@ || v == "javascript:void(0)"@,
        None => false,
    }
}

pub open spec fn anchor_invalid_loc(attrs: Seq<HtmlAttribute>, i: int) -> Option<int>
    decreases attrs.len() - i,
{
    if i < 0 || i >= attrs.len() {
        None
    } else if anchor_invalid_hit(attrs[i]) {
        Some(i)
    } else {
        anchor_invalid_loc(attrs, i + 1)
    }
}

/// `anchor-is-valid` fires on the first `href` of an `<a>` whose static
/// value is `#`, empty, or `javascript:void(0)`.
pub open spec fn anchor_is_valid_spec(e: HtmlElement) -> Option<DiagView> {
    if (e.tag matches Tag::A) {
        match anchor_invalid_loc(e.attributes@, 0) {
            Some(k) => match static_of(e.attributes@[k]) {
                Some(v) => Some(
                    DiagView {
                        rule: Rule::AnchorIsValid,
                        message: "<a> element has an invalid `href` value \""@ + v
                            + "\". Use a real URL or use a <button> for actions."@,
                        severity: Severity::Warning,
                        file: e.file@,
                        line: e.attributes@[k].line as int,
                        column: e.attributes@[k].column as int,
                        element: e.tag,
                        help: Some(
                            "Use a meaningful `href`, or use a <button> element instead."@,
                        ),
                    },
                ),
                None => None,
            },
            None => None,
        }
    } else {
        None
    }
}

#[verifier::loop_isolation(false)]
fn check_anchor_is_valid(e: &HtmlElement) -> (r: Option<LintDiagnostic>)
    ensures
        opt_diag_view(r) == anchor_is_valid_spec(*e),
{
    if !matches!(e.tag, Tag::A) {
        return None;
    }
    let attrs = &e.attributes;
    let mut i: usize = 0;
    while i < attrs.len()
        invariant
            0 <= i <= attrs@.len(),
            anchor_invalid_loc(attrs@, 0) == anchor_invalid_loc(attrs@, i as int),
        decreases attrs@.len() - i,
    {
        let a = &attrs[i];
        if matches!(a.name, AttributeName::Href) {
            if let Some(AttrValue::Static(s)) = &a.value {
                if str_eq(s.as_str(), "#") || str_eq(s.as_str(), "") || str_eq(
                    s.as_str(),
                    "javascript:void(0)",
                ) {
                    assert(anchor_invalid_hit(attrs@[i as int]));
                    let m = cat3(
                        "<a> element has an invalid `href` value \"",
                        s.as_str(),
                        "\". Use a real URL or use a <button> for actions.",
                    );
                    return Some(
                        diag(
                            Rule::AnchorIsValid,
                            Severity::Warning,
                            e,
                            a.line,
                            a.column,
                            m,
                            Some(
                                String::from_str(
                                    "Use a meaningful `href`, or use a <button> element instead.",
                                ),
                            ),
                        ),
                    );
                }
            }
        }
        assert(!anchor_invalid_hit(attrs@[i as int]));
        i += 1;
    }
    None
}

// ---------------------------------------------------------------------------
// anchor-ambiguous-text
// ---------------------------------------------------------------------------

/// Whether a label, lowercased and trimmed, is one of the ambiguous link
/// texts.
pub open spec fn is_ambiguous_text(v: Seq<char>) -> bool {
    let t = crate::text::trim_spec(crate::text::lower_of(v));
    t == "click here"@ || t == "here"@ || t == "link"@ || t == "a link"@ || t == "learn more"@
}

pub open spec fn ambiguous_hit(a: HtmlAttribute) -> bool {
    ((a.name matches AttributeName::Aria(Aria::Label)) || (a.name matches AttributeName::Title))
        && match static_of(a) {
        Some(v) => is_ambiguous_text(v),
        None => false,
    }
}

pub open spec fn ambiguous_loc(attrs: Seq<HtmlAttribute>, i: int) -> Option<int>
    decreases attrs.len() - i,
{
    if i < 0 || i >= attrs.len() {
        None
    } else if ambiguous_hit(attrs[i]) {
        Some(i)
    } else {
        ambiguous_loc(attrs, i + 1)
    }
}

/// `anchor-ambiguous-text` fires on the first `aria-label` or `title` of
/// an `<a>` whose static value is generic link text.
pub open spec fn anchor_ambiguous_spec(e: HtmlElement) -> Option<DiagView> {
    if (e.tag matches Tag::A) {
        match ambiguous_loc(e.attributes@, 0) {
            Some(k) => match static_of(e.attributes@[k]) {
                Some(v) => Some(
                    DiagView {
                        rule: Rule::AnchorAmbiguousText,
                        message: "<a> element has ambiguous link text \""@ + v
                            + "\". Link text should be descriptive of the link's purpose."@,
                        severity: Severity::Warning,
                        file: e.file@,
                        line: e.attributes@[k].line as int,
                        column: e.attributes@[k].column as int,
                        element: e.tag,
                        help: Some(
                            "Use text that describes the purpose of the link, such as where the link goes or what it does."@,
                        ),
                    },
                ),
                None => None,
            },
            None => None,
        }
    } else {
        None
    }
}

#[verifier::loop_isolation(false)]
fn check_anchor_ambiguous(e: &HtmlElement) -> (r: Option<LintDiagnostic>)
    ensures
        opt_diag_view(r) == anchor_ambiguous_spec(*e),
{
    if !matches!(e.tag, Tag::A) {
        return None;
    }
    let attrs = &e.attributes;
    let mut i: usize = 0;
    while i < attrs.len()
        invariant
            0 <= i <= attrs@.len(),
            ambiguous_loc(attrs@, 0) == ambiguous_loc(attrs@, i as int),
        decreases attrs@.len() - i,
    {
        let a = &attrs[i];
        if matches!(a.name, AttributeName::Aria(Aria::Label) | AttributeName::Title) {
            if let Some(AttrValue::Static(s)) = &a.value {
                let low = crate::text::lowercase(s.as_str());
                let t = crate::text::trim_str(low.as_str());
                if str_eq(t, "click here") || str_eq(t, "here") || str_eq(t, "link") || str_eq(
                    t,
                    "a link",
                ) || str_eq(t, "learn more") {
                    assert(ambiguous_hit(attrs@[i as int]));
                    let m = cat3(
                        "<a> element has ambiguous link text \"",
                        s.as_str(),
                        "\". Link text should be descriptive of the link's purpose.",
                    );
                    return Some(
                        diag(
                            Rule::AnchorAmbiguousText,
                            Severity::Warning,
                            e,
                            a.line,
                            a.column,
                            m,
                            Some(
                                String::from_str(
                                    "Use text that describes the purpose of the link, such as where the link goes or what it does.",
                                ),
                            ),
                        ),
                    );
                }
            }
        }
        assert(!ambiguous_hit(attrs@[i as int]));
        i += 1;
    }
    None
}

// ---------------------------------------------------------------------------
// aria-props
// ---------------------------------------------------------------------------

pub open spec fn aria_props_hit(a: HtmlAttribute) -> bool {
    a.name matches AttributeName::Unknown(u) && crate::text::has_prefix(u@, "aria-"@)
}

pub open spec fn aria_props_loc(attrs: Seq<HtmlAttribute>, i: int) -> Option<int>
    decreases attrs.len() - i,
{
    if i < 0 || i >= attrs.len() {
        None
    } else if aria_props_hit(attrs[i]) {
        Some(i)
    } else {
        aria_props_loc(attrs, i + 1)
    }
}

/// `aria-props` fires on the first unrecognized attribute that spells an
/// `aria-` prefixed name.
pub open spec fn aria_props_spec(e: HtmlElement) -> Option<DiagView> {
    match aria_props_loc(e.attributes@, 0) {
        Some(k) => Some(
            DiagView {
                rule: Rule::AriaProps,
                message: "Invalid ARIA attribute `"@ + e.attributes@[k].name.display_spec()
                    + "` on <"@ + e.tag.name_spec() + ">."@,
                severity: Severity::Error,
                file: e.file@,
                line: e.attributes@[k].line as int,
                column: e.attributes@[k].column as int,
                element: e.tag,
                help: Some(
                    "Did you mean one of: aria-label, aria-labelledby, aria-hidden, aria-describedby? See https://www.w3.org/TR/wai-aria-1.2/#state_prop_def for all valid attributes."@,
                ),
            },
        ),
        None => None,
    }
}

#[verifier::loop_isolation(false)]
fn check_aria_props(e: &HtmlElement) -> (r: Option<LintDiagnostic>)
    ensures
        opt_diag_view(r) == aria_props_spec(*e),
{
    let attrs = &e.attributes;
    let mut i: usize = 0;
    while i < attrs.len()
        invariant
            0 <= i <= attrs@.len(),
            aria_props_loc(attrs@, 0) == aria_props_loc(attrs@, i as int),
        decreases attrs@.len() - i,
    {
        let a = &attrs[i];
        if let AttributeName::Unknown(u) = &a.name {
            if crate::text::starts_with_str(u.as_str(), "aria-") {
                assert(aria_props_hit(attrs@[i as int]));
                let m = cat5(
                    "Invalid ARIA attribute `",
                    u.as_str(),
                    "` on <",
                    e.tag.name(),
                    ">.",
                );
                return Some(
                    diag(
                        Rule::AriaProps,
                        Severity::Error,
                        e,
                        a.line,
                        a.column,
                        m,
                        Some(
                            String::from_str(
                                "Did you mean one of: aria-label, aria-labelledby, aria-hidden, aria-describedby? See https://www.w3.org/TR/wai-aria-1.2/#state_prop_def for all valid attributes.",
                            ),
                        ),
                    ),
                );
            }
        }
        assert(!aria_props_hit(attrs@[i as int]));
        i += 1;
    }
    None
}

// ---------------------------------------------------------------------------
// aria-proptypes
// ---------------------------------------------------------------------------

pub open spec fn proptypes_hit(a: HtmlAttribute) -> bool {
    a.name matches AttributeName::Aria(ar) && match static_of(a) {
        Some(v) => !ar.value_ok(v),
        None => false,
    }
}

pub open spec fn proptypes_loc(attrs: Seq<HtmlAttribute>, i: int) -> Option<int>
    decreases attrs.len() - i,
{
    if i < 0 || i >= attrs.len() {
        None
    } else if proptypes_hit(attrs[i]) {
        Some(i)
    } else {
        proptypes_loc(attrs, i + 1)
    }
}

/// The `aria-proptypes` message for a property and its offending value.
pub open spec fn proptypes_msg(v: Seq<char>, ar: Aria, t: Tag) -> Seq<char> {
    "Invalid value \""@ + v + "\" for `"@ + ar.name_spec() + "` on <"@ + t.name_spec()
        + ">. Expected "@ + ar.desc_spec() + "."@
}

/// `aria-proptypes` fires on the first recognized `aria-*` attribute whose
/// static value is not legal for the property.
pub open spec fn aria_proptypes_spec(e: HtmlElement) -> Option<DiagView> {
    match proptypes_loc(e.attributes@, 0) {
        Some(k) => match e.attributes@[k].name {
            AttributeName::Aria(ar) => match static_of(e.attributes@[k]) {
                Some(v) => Some(
                    DiagView {
                        rule: Rule::AriaProptypes,
                        message: proptypes_msg(v, ar, e.tag),
                        severity: Severity::Error,
                        file: e.file@,
                        line: e.attributes@[k].line as int,
                        column: e.attributes@[k].column as int,
                        element: e.tag,
                        help: None,
                    },
                ),
                None => None,
            },
            _ => None,
        },
        None => None,
    }
}

#[verifier::loop_isolation(false)]
fn check_aria_proptypes(e: &HtmlElement) -> (r: Option<LintDiagnostic>)
    ensures
        opt_diag_view(r) == aria_proptypes_spec(*e),
{
    let attrs = &e.attributes;
    let mut i: usize = 0;
    while i < attrs.len()
        invariant
            0 <= i <= attrs@.len(),
            proptypes_loc(attrs@, 0) == proptypes_loc(attrs@, i as int),
        decreases attrs@.len() - i,
    {
        let a = &attrs[i];
        if let AttributeName::Aria(ar) = &a.name {
            if let Some(AttrValue::Static(s)) = &a.value {
                let vt = ar.value_type();
                if !vt.is_valid(s.as_str()) {
                    assert(proptypes_hit(attrs@[i as int]));
                    let desc = vt.expected_description();
                    let mut m = String::from_str("Invalid value \"");
                    m.append(s.as_str());
                    m.append("\" for `");
                    m.append(ar.name());
                    m.append("` on <");
                    m.append(e.tag.name());
                    m.append(">. Expected ");
                    m.append(desc.as_str());
                    m.append(".");
                    assert(m@ == proptypes_msg(s@, *ar, e.tag));
                    return Some(
                        diag(Rule::AriaProptypes, Severity::Error, e, a.line, a.column, m, None),
                    );
                }
            }
        }
        assert(!proptypes_hit(attrs@[i as int]));
        i += 1;
    }
    None
}

// ---------------------------------------------------------------------------
// aria-unsupported-elements
// ---------------------------------------------------------------------------

pub open spec fn unsupported_hit(a: HtmlAttribute) -> bool {
    (a.name matches AttributeName::Aria(_)) || (a.name matches AttributeName::Role)
}

pub open spec fn unsupported_loc(attrs: Seq<HtmlAttribute>, i: int) -> Option<int>
    decreases attrs.len() - i,
{
    if i < 0 || i >= attrs.len() {
        None
    } else if unsupported_hit(attrs[i]) {
        Some(i)
    } else {
        unsupported_loc(attrs, i + 1)
    }
}

/// `aria-unsupported-elements` fires on the first ARIA or `role` attribute
/// of an element that does not support ARIA.
pub open spec fn aria_unsupported_spec(e: HtmlElement) -> Option<DiagView> {
    if !e.tag.supports_aria_spec() {
        match unsupported_loc(e.attributes@, 0) {
            Some(k) => Some(
                DiagView {
                    rule: Rule::AriaUnsupportedElements,
                    message: "ARIA attribute `"@ + e.attributes@[k].name.display_spec()
                        + "` is not supported on <"@ + e.tag.name_spec() + ">."@,
                    severity: Severity::Error,
                    file: e.file@,
                    line: e.attributes@[k].line as int,
                    column: e.attributes@[k].column as int,
                    element: e.tag,
                    help: Some(
                        "The <"@ + e.tag.name_spec()
                            + "> element does not support ARIA roles or properties."@,
                    ),
                },
            ),
            None => None,
        }
    } else {
        None
    }
}

#[verifier::loop_isolation(false)]
fn check_aria_unsupported(e: &HtmlElement) -> (r: Option<LintDiagnostic>)
    ensures
        opt_diag_view(r) == aria_unsupported_spec(*e),
{
    if e.tag.supports_aria() {
        return None;
    }
    let attrs = &e.attributes;
    let mut i: usize = 0;
    while i < attrs.len()
        invariant
            0 <= i <= attrs@.len(),
            unsupported_loc(attrs@, 0) == unsupported_loc(attrs@, i as int),
        decreases attrs@.len() - i,
    {
        let a = &attrs[i];
        if matches!(a.name, AttributeName::Aria(_) | AttributeName::Role) {
            let nm = a.name.name();
            let m = cat5("ARIA attribute `", nm.as_str(), "` is not supported on <", e.tag.name(), ">.");
            let h = wrap_tag("The <", &e.tag, "> element does not support ARIA roles or properties.");
            return Some(
                diag(Rule::AriaUnsupportedElements, Severity::Error, e, a.line, a.column, m, Some(h)),
            );
        }
        assert(!unsupported_hit(attrs@[i as int]));
        i += 1;
    }
    None
}

// ---------------------------------------------------------------------------
// lang
// ---------------------------------------------------------------------------

/// All characters are ASCII letters.
pub open spec fn alpha_seq(s: Seq<char>) -> bool {
    forall|j: int| 0 <= j < s.len() ==> crate::text::is_alpha_char(#[trigger] s[j])
}

/// All characters are ASCII letters or digits.
pub open spec fn alnum_seq(s: Seq<char>) -> bool {
    forall|j: int| 0 <= j < s.len() ==> crate::text::is_alnum_char(#[trigger] s[j])
}

/// A valid BCP 47 language tag, simplified: a primary subtag of two or
/// three letters, then subtags of one to eight letters or digits.
pub open spec fn lang_ok(v: Seq<char>) -> bool {
    let t = crate::text::trim_spec(v);
    let parts = crate::text::dash_parts(t);
    t.len() > 0 && 2 <= parts[0].len() <= 3 && alpha_seq(parts[0]) && (forall|i: int|
        1 <= i < parts.len() ==> 1 <= (#[trigger] parts[i]).len() <= 8 && alnum_seq(parts[i]))
}

/// Whether `value` is a valid (simplified) BCP 47 language tag.
#[verifier::loop_isolation(false)]
pub fn is_valid_lang(value: &str) -> (r: bool)
    ensures
        r == lang_ok(value@),
{
    let t = crate::text::trim_str(value);
    if t.unicode_len() == 0 {
        return false;
    }
    let parts = crate::text::split_dash(t);
    let ghost pview = crate::text::dash_parts(t@);
    let primary = parts[0];
    assert(primary@ == pview[0]) by {
        assert(parts.deep_view()[0] == parts@[0]@);
    }
    let plen = primary.unicode_len();
    if plen < 2 || plen > 3 {
        return false;
    }
    let mut j: usize = 0;
    while j < plen
        invariant
            plen == primary@.len(),
            0 <= j <= plen,
            forall|m: int| 0 <= m < j ==> crate::text::is_alpha_char(#[trigger] primary@[m]),
        decreases plen - j,
    {
        if !crate::text::alpha_char(primary.get_char(j)) {
            assert(!alpha_seq(pview[0]));
            return false;
        }
        j += 1;
    }
    assert(alpha_seq(pview[0]));
    let mut i: usize = 1;
    while i < parts.len()
        invariant
            1 <= i <= parts@.len(),
            forall|m: int| 1 <= m < i ==> 1 <= (#[trigger] pview[m]).len() <= 8 && alnum_seq(
                pview[m],
            ),
        decreases parts@.len() - i,
    {
        let part = parts[i];
        assert(part@ == pview[i as int]) by {
            assert(parts.deep_view()[i as int] == parts@[i as int]@);
        }
        let len = part.unicode_len();
        if len == 0 || len > 8 {
            return false;
        }
        let mut k: usize = 0;
        while k < len
            invariant
                len == part@.len(),
                0 <= k <= len,
                forall|m: int| 0 <= m < k ==> crate::text::is_alnum_char(#[trigger] part@[m]),
            decreases len - k,
        {
            if !crate::text::alnum_char(part.get_char(k)) {
                assert(!alnum_seq(pview[i as int]));
                return false;
            }
            k += 1;
        }
        assert(alnum_seq(pview[i as int]));
        i += 1;
    }
    true
}

pub open spec fn lang_hit(a: HtmlAttribute) -> bool {
    (a.name matches AttributeName::Lang) && match static_of(a) {
        Some(v) => !lang_ok(v),
        None => false,
    }
}

pub open spec fn lang_loc(attrs: Seq<HtmlAttribute>, i: int) -> Option<int>
    decreases attrs.len() - i,
{
    if i < 0 || i >= attrs.len() {
        None
    } else if lang_hit(attrs[i]) {
        Some(i)
    } else {
        lang_loc(attrs, i + 1)
    }
}

/// `lang` fires on the first `lang` attribute whose static value is not a
/// valid language tag.
pub open spec fn lang_spec(e: HtmlElement) -> Option<DiagView> {
    match lang_loc(e.attributes@, 0) {
        Some(k) => match static_of(e.attributes@[k]) {
            Some(v) => Some(
                DiagView {
                    rule: Rule::Lang,
                    message: "The `lang` attribute value \""@ + v
                        + "\" is not a valid BCP 47 language tag."@,
                    severity: Severity::Error,
                    file: e.file@,
                    line: e.attributes@[k].line as int,
                    column: e.attributes@[k].column as int,
                    element: e.tag,
                    help: Some(
                        "Use a valid BCP 47 language tag, e.g., \"en\", \"en-US\", \"fr\", \"de\", \"zh-Hans\"."@,
                    ),
                },
            ),
            None => None,
        },
        None => None,
    }
}

#[verifier::loop_isolation(false)]
fn check_lang(e: &HtmlElement) -> (r: Option<LintDiagnostic>)
    ensures
        opt_diag_view(r) == lang_spec(*e),
{
    let attrs = &e.attributes;
    let mut i: usize = 0;
    while i < attrs.len()
        invariant
            0 <= i <= attrs@.len(),
            lang_loc(attrs@, 0) == lang_loc(attrs@, i as int),
        decreases attrs@.len() - i,
    {
        let a = &attrs[i];
        if matches!(a.name, AttributeName::Lang) {
            if let Some(AttrValue::Static(s)) = &a.value {
                if !is_valid_lang(s.as_str()) {
                    assert(lang_hit(attrs@[i as int]));
                    let m = cat3(
                        "The `lang` attribute value \"",
                        s.as_str(),
                        "\" is not a valid BCP 47 language tag.",
                    );
                    return Some(
                        diag(
                            Rule::Lang,
                            Severity::Error,
                            e,
                            a.line,
                            a.column,
                            m,
                            Some(
                                String::from_str(
                                    "Use a valid BCP 47 language tag, e.g., \"en\", \"en-US\", \"fr\", \"de\", \"zh-Hans\".",
                                ),
                            ),
                        ),
                    );
                }
            }
        }
        assert(!lang_hit(attrs@[i as int]));
        i += 1;
    }
    None
}

// ---------------------------------------------------------------------------
// img-redundant-alt
// ---------------------------------------------------------------------------

/// The words that are redundant in alternative text.
pub open spec fn img_words() -> Seq<Seq<char>> {
    seq!["image"@, "picture"@, "photo"@, "icon"@, "graphic"@]
}

/// The first redundant word contained in the lowercased text.
pub open spec fn first_img_word(lo: Seq<char>, i: int) -> Option<int>
    decreases img_words().len() - i,
{
    if i < 0 || i >= img_words().len() {
        None
    } else if crate::text::contains_seq(lo, img_words()[i]) {
        Some(i)
    } else {
        first_img_word(lo, i + 1)
    }
}

pub open spec fn redundant_alt_hit(a: HtmlAttribute) -> bool {
    (a.name matches AttributeName::Alt) && match static_of(a) {
        Some(v) => first_img_word(crate::text::lower_of(v), 0) is Some,
        None => false,
    }
}

pub open spec fn redundant_alt_loc(attrs: Seq<HtmlAttribute>, i: int) -> Option<int>
    decreases attrs.len() - i,
{
    if i < 0 || i >= attrs.len() {
        None
    } else if redundant_alt_hit(attrs[i]) {
        Some(i)
    } else {
        redundant_alt_loc(attrs, i + 1)
    }
}

/// The `img-redundant-alt` message, naming the redundant word found.
pub open spec fn redundant_alt_msg(w: Seq<char>) -> Seq<char> {
    "<img> alt text contains the redundant word \""@ + w
        + "\". Screen readers already announce images as images."@
}

/// `img-redundant-alt` fires on the first `alt` of an `<img>` whose
/// lowercased static value contains a redundant word; the message names
/// the first such word.
pub open spec fn img_redundant_alt_spec(e: HtmlElement) -> Option<DiagView> {
    if (e.tag matches Tag::Img) {
        match redundant_alt_loc(e.attributes@, 0) {
            Some(k) => match static_of(e.attributes@[k]) {
                Some(v) => match first_img_word(crate::text::lower_of(v), 0) {
                    Some(w) => Some(
                        DiagView {
                            rule: Rule::ImgRedundantAlt,
                            message: redundant_alt_msg(img_words()[w]),
                            severity: Severity::Warning,
                            file: e.file@,
                            line: e.attributes@[k].line as int,
                            column: e.attributes@[k].column as int,
                            element: e.tag,
                            help: Some(
                                "Describe what the image shows instead of stating it's an image."@,
                            ),
                        },
                    ),
                    None => None,
                },
                None => None,
            },
            None => None,
        }
    } else {
        None
    }
}

/// Finds the first redundant word contained in `lo`.
#[verifier::loop_isolation(false)]
fn first_img_word_exec(lo: &str) -> (r: Option<usize>)
    ensures
        r matches Some(k) ==> first_img_word(lo@, 0) == Some(k as int) && 0 <= k
            < img_words().len(),
        r is None ==> first_img_word(lo@, 0) is None,
{
    let words: &'static [&'static str] = &["image", "picture", "photo", "icon", "graphic"];
    proof {
        assert(crate::dom::list_views(words@) =~= img_words());
    }
    let mut i: usize = 0;
    while i < words.len()
        invariant
            0 <= i <= img_words().len(),
            first_img_word(lo@, 0) == first_img_word(lo@, i as int),
        decreases img_words().len() - i,
    {
        if crate::text::contains_str(lo, *vstd::slice::slice_index_get(words, i)) {
            assert(crate::text::contains_seq(lo@, img_words()[i as int]));
            return Some(i);
        }
        assert(!crate::text::contains_seq(lo@, img_words()[i as int]));
        i += 1;
    }
    None
}

#[verifier::loop_isolation(false)]
fn check_img_redundant_alt(e: &HtmlElement) -> (r: Option<LintDiagnostic>)
    ensures
        opt_diag_view(r) == img_redundant_alt_spec(*e),
{
    if !matches!(e.tag, Tag::Img) {
        return None;
    }
    let words: &'static [&'static str] = &["image", "picture", "photo", "icon", "graphic"];
    proof {
        assert(crate::dom::list_views(words@) =~= img_words());
    }
    let attrs = &e.attributes;
    let mut i: usize = 0;
    while i < attrs.len()
        invariant
            0 <= i <= attrs@.len(),
            redundant_alt_loc(attrs@, 0) == redundant_alt_loc(attrs@, i as int),
        decreases attrs@.len() - i,
    {
        let a = &attrs[i];
        if matches!(a.name, AttributeName::Alt) {
            if let Some(AttrValue::Static(s)) = &a.value {
                let low = crate::text::lowercase(s.as_str());
                if let Some(k) = first_img_word_exec(low.as_str()) {
                    let w: &str = *vstd::slice::slice_index_get(words, k);
                    assert(w@ == img_words()[k as int]);
                    assert(redundant_alt_hit(attrs@[i as int]));
                    let m = cat3(
                        "<img> alt text contains the redundant word \"",
                        w,
                        "\". Screen readers already announce images as images.",
                    );
                    return Some(
                        diag(
                            Rule::ImgRedundantAlt,
                            Severity::Warning,
                            e,
                            a.line,
                            a.column,
                            m,
                            Some(
                                String::from_str(
                                    "Describe what the image shows instead of stating it's an image.",
                                ),
                            ),
                        ),
                    );
                }
                assert(first_img_word(crate::text::lower_of(s@), 0) is None);
            }
        }
        assert(!redundant_alt_hit(attrs@[i as int]));
        i += 1;
    }
    None
}

// ---------------------------------------------------------------------------
// no-noninteractive-tabindex and tabindex-no-positive
// ---------------------------------------------------------------------------

pub open spec fn tabindex_nonneg_hit(a: HtmlAttribute) -> bool {
    (a.name matches AttributeName::TabIndex) && match static_of(a) {
        Some(v) => crate::text::is_i32_string(v) && crate::text::int_value(v) >= 0,
        None => false,
    }
}

pub open spec fn tabindex_nonneg_loc(attrs: Seq<HtmlAttribute>, i: int) -> Option<int>
    decreases attrs.len() - i,
{
    if i < 0 || i >= attrs.len() {
        None
    } else if tabindex_nonneg_hit(attrs[i]) {
        Some(i)
    } else {
        tabindex_nonneg_loc(attrs, i + 1)
    }
}

/// `no-noninteractive-tabindex` fires on the first non-negative static
/// `tabindex` of an element whose effective role is not interactive.
pub open spec fn noninteractive_tabindex_spec(e: HtmlElement) -> Option<DiagView> {
    let role_interactive = match e.role_spec() {
        Some(ro) => ro.is_interactive_spec(),
        None => false,
    };
    if role_interactive {
        None
    } else {
        match tabindex_nonneg_loc(e.attributes@, 0) {
            Some(k) => match static_of(e.attributes@[k]) {
                Some(v) => Some(
                    DiagView {
                        rule: Rule::NoNoninteractiveTabindex,
                        message: "Non-interactive element <"@ + e.tag.name_spec()
                            + "> should not have `tabindex=\""@ + v
                            + "\"`. Non-interactive elements should not be focusable."@,
                        severity: Severity::Warning,
                        file: e.file@,
                        line: e.attributes@[k].line as int,
                        column: e.attributes@[k].column as int,
                        element: e.tag,
                        help: Some(
                            "Remove the `tabindex` attribute, or add an interactive role."@,
                        ),
                    },
                ),
                None => None,
            },
            None => None,
        }
    }
}

#[verifier::loop_isolation(false)]
fn check_noninteractive_tabindex(e: &HtmlElement) -> (r: Option<LintDiagnostic>)
    ensures
        opt_diag_view(r) == noninteractive_tabindex_spec(*e),
{
    if let Some(ro) = e.role() {
        if ro.is_interactive() {
            return None;
        }
    }
    let attrs = &e.attributes;
    let mut i: usize = 0;
    while i < attrs.len()
        invariant
            0 <= i <= attrs@.len(),
            tabindex_nonneg_loc(attrs@, 0) == tabindex_nonneg_loc(attrs@, i as int),
        decreases attrs@.len() - i,
    {
        let a = &attrs[i];
        if matches!(a.name, AttributeName::TabIndex) {
            if let Some(AttrValue::Static(s)) = &a.value {
                if let Some(ix) = crate::text::parse_i32_str(s.as_str()) {
                    if ix >= 0 {
                        assert(tabindex_nonneg_hit(attrs@[i as int]));
                        let m = cat5(
                            "Non-interactive element <",
                            e.tag.name(),
                            "> should not have `tabindex=\"",
                            s.as_str(),
                            "\"`. Non-interactive elements should not be focusable.",
                        );
                        return Some(
                            diag(
                                Rule::NoNoninteractiveTabindex,
                                Severity::Warning,
                                e,
                                a.line,
                                a.column,
                                m,
                                Some(
                                    String::from_str(
                                        "Remove the `tabindex` attribute, or add an interactive role.",
                                    ),
                                ),
                            ),
                        );
                    }
                }
            }
        }
        assert(!tabindex_nonneg_hit(attrs@[i as int]));
        i += 1;
    }
    None
}

pub open spec fn tabindex_positive_hit(a: HtmlAttribute) -> bool {
    (a.name matches AttributeName::TabIndex) && match static_of(a) {
        Some(v) => crate::text::is_i32_string(v) && crate::text::int_value(v) > 0,
        None => false,
    }
}

pub open spec fn tabindex_positive_loc(attrs: Seq<HtmlAttribute>, i: int) -> Option<int>
    decreases attrs.len() - i,
{
    if i < 0 || i >= attrs.len() {
        None
    } else if tabindex_positive_hit(attrs[i]) {
        Some(i)
    } else {
        tabindex_positive_loc(attrs, i + 1)
    }
}

/// `tabindex-no-positive` fires on the first static `tabindex` greater
/// than zero.
pub open spec fn tabindex_positive_spec(e: HtmlElement) -> Option<DiagView> {
    match tabindex_positive_loc(e.attributes@, 0) {
        Some(k) => match static_of(e.attributes@[k]) {
            Some(v) => Some(
                DiagView {
                    rule: Rule::TabindexNoPositive,
                    message: "Avoid using positive `tabindex` value ("@ + v + ") on <"@
                        + e.tag.name_spec() + ">. This creates an unexpected tab order."@,
                    severity: Severity::Warning,
                    file: e.file@,
                    line: e.attributes@[k].line as int,
                    column: e.attributes@[k].column as int,
                    element: e.tag,
                    help: Some(
                        "Use `tabindex=\"0\"` for focusable elements or `tabindex=\"-1\"` for programmatically focusable elements."@,
                    ),
                },
            ),
            None => None,
        },
        None => None,
    }
}

#[verifier::loop_isolation(false)]
fn check_tabindex_positive(e: &HtmlElement) -> (r: Option<LintDiagnostic>)
    ensures
        opt_diag_view(r) == tabindex_positive_spec(*e),
{
    let attrs = &e.attributes;
    let mut i: usize = 0;
    while i < attrs.len()
        invariant
            0 <= i <= attrs@.len(),
            tabindex_positive_loc(attrs@, 0) == tabindex_positive_loc(attrs@, i as int),
        decreases attrs@.len() - i,
    {
        let a = &attrs[i];
        if matches!(a.name, AttributeName::TabIndex) {
            if let Some(AttrValue::Static(s)) = &a.value {
                if let Some(ix) = crate::text::parse_i32_str(s.as_str()) {
                    if ix > 0 {
                        assert(tabindex_positive_hit(attrs@[i as int]));
                        let m = cat5(
                            "Avoid using positive `tabindex` value (",
                            s.as_str(),
                            ") on <",
                            e.tag.name(),
                            ">. This creates an unexpected tab order.",
                        );
                        return Some(
                            diag(
                                Rule::TabindexNoPositive,
                                Severity::Warning,
                                e,
                                a.line,
                                a.column,
                                m,
                                Some(
                                    String::from_str(
                                        "Use `tabindex=\"0\"` for focusable elements or `tabindex=\"-1\"` for programmatically focusable elements.",
                                    ),
                                ),
                            ),
                        );
                    }
                }
            }
        }
        assert(!tabindex_positive_hit(attrs@[i as int]));
        i += 1;
    }
    None
}

// ---------------------------------------------------------------------------
// autocomplete-valid
// ---------------------------------------------------------------------------

/// The autofill field names the HTML specification allows.
pub open spec fn ac_fields() -> Seq<Seq<char>> {
    seq![
        "on"@,
        "off"@,
        "name"@,
        "honorific-prefix"@,
        "given-name"@,
        "additional-name"@,
        "family-name"@,
        "honorific-suffix"@,
        "nickname"@,
        "email"@,
        "username"@,
        "new-password"@,
        "current-password"@,
        "one-time-code"@,
        "organization-title"@,
        "organization"@,
        "street-address"@,
        "address-line1"@,
        "address-line2"@,
        "address-line3"@,
        "address-level4"@,
        "address-level3"@,
        "address-level2"@,
        "address-level1"@,
        "country"@,
        "country-name"@,
        "postal-code"@,
        "cc-name"@,
        "cc-given-name"@,
        "cc-additional-name"@,
        "cc-family-name"@,
        "cc-number"@,
        "cc-exp"@,
        "cc-exp-month"@,
        "cc-exp-year"@,
        "cc-csc"@,
        "cc-type"@,
        "transaction-currency"@,
        "transaction-amount"@,
        "language"@,
        "bday"@,
        "bday-day"@,
        "bday-month"@,
        "bday-year"@,
        "sex"@,
        "tel"@,
        "tel-country-code"@,
        "tel-national"@,
        "tel-area-code"@,
        "tel-local"@,
        "tel-extension"@,
        "impp"@,
        "url"@,
        "photo"@,
        "webauthn"@,
    ]
}

/// A valid `autocomplete` value: an optional `section-*` token, an
/// optional `shipping` or `billing` token, then exactly one known field
/// name, all separated by whitespace.
pub open spec fn autocomplete_ok(v: Seq<char>) -> bool {
    let toks = crate::text::ws_tokens(v);
    if toks.len() == 0 {
        false
    } else {
        let i1: int = if crate::text::has_prefix(toks[0], "section-"@) {
            1
        } else {
            0
        };
        let i2: int = if i1 < toks.len() && (toks[i1] == "shipping"@ || toks[i1] == "billing"@) {
            i1 + 1
        } else {
            i1
        };
        i2 + 1 == toks.len() && crate::dom::in_str_list(ac_fields(), toks[i2])
    }
}

/// Whether `value` is a valid `autocomplete` attribute value per the HTML
/// specification.
#[verifier::loop_isolation(false)]
pub fn is_valid_autocomplete(value: &str) -> (r: bool)
    ensures
        r == autocomplete_ok(value@),
{
    let ghost tv = crate::text::ws_tokens(value@);
    let toks = crate::text::split_ws(value);
    assert(toks@.len() == tv.len());
    if toks.len() == 0 {
        return false;
    }
    assert(toks@[0]@ == tv[0]) by {
        assert(toks.deep_view()[0] == toks@[0]@);
    }
    let mut idx: usize = 0;
    if crate::text::starts_with_str(toks[0], "section-") {
        idx = 1;
    }
    let ghost i1: int = idx as int;
    if idx < toks.len() {
        assert(toks@[i1]@ == tv[i1]) by {
            assert(toks.deep_view()[i1] == toks@[i1]@);
        }
        let t = toks[idx];
        if str_eq(t, "shipping") || str_eq(t, "billing") {
            idx += 1;
        }
    }
    let ghost i2: int = idx as int;
    if idx >= toks.len() {
        return false;
    }
    if idx + 1 != toks.len() {
        return false;
    }
    assert(toks@[i2]@ == tv[i2]) by {
        assert(toks.deep_view()[i2] == toks@[i2]@);
    }
    let field = toks[idx];
    let fields: &'static [&'static str] = &[
        "on",
        "off",
        "name",
        "honorific-prefix",
        "given-name",
        "additional-name",
        "family-name",
        "honorific-suffix",
        "nickname",
        "email",
        "username",
        "new-password",
        "current-password",
        "one-time-code",
        "organization-title",
        "organization",
        "street-address",
        "address-line1",
        "address-line2",
        "address-line3",
        "address-level4",
        "address-level3",
        "address-level2",
        "address-level1",
        "country",
        "country-name",
        "postal-code",
        "cc-name",
        "cc-given-name",
        "cc-additional-name",
        "cc-family-name",
        "cc-number",
        "cc-exp",
        "cc-exp-month",
        "cc-exp-year",
        "cc-csc",
        "cc-type",
        "transaction-currency",
        "transaction-amount",
        "language",
        "bday",
        "bday-day",
        "bday-month",
        "bday-year",
        "sex",
        "tel",
        "tel-country-code",
        "tel-national",
        "tel-area-code",
        "tel-local",
        "tel-extension",
        "impp",
        "url",
        "photo",
        "webauthn",
    ];
    proof {
        assert(crate::dom::list_views(fields@) =~= ac_fields());
    }
    let mut k: usize = 0;
    while k < fields.len()
        invariant
            0 <= k <= fields@.len(),
            forall|j: int| 0 <= j < k ==> #[trigger] crate::dom::list_views(fields@)[j] != field@,
        decreases fields@.len() - k,
    {
        if str_eq(*vstd::slice::slice_index_get(fields, k), field) {
            assert(crate::dom::list_views(fields@)[k as int] == field@);
            return true;
        }
        k += 1;
    }
    assert(!crate::dom::in_str_list(ac_fields(), field@));
    false
}

pub open spec fn autocomplete_hit(a: HtmlAttribute) -> bool {
    (a.name matches AttributeName::Autocomplete) && match static_of(a) {
        Some(v) => !autocomplete_ok(v),
        None => false,
    }
}

pub open spec fn autocomplete_loc(attrs: Seq<HtmlAttribute>, i: int) -> Option<int>
    decreases attrs.len() - i,
{
    if i < 0 || i >= attrs.len() {
        None
    } else if autocomplete_hit(attrs[i]) {
        Some(i)
    } else {
        autocomplete_loc(attrs, i + 1)
    }
}

/// `autocomplete-valid` fires on the first invalid static `autocomplete`
/// value of a form element.
pub open spec fn autocomplete_valid_spec(e: HtmlElement) -> Option<DiagView> {
    let applicable = match e.tag {
        Tag::Input | Tag::Select | Tag::Textarea => true,
        _ => false,
    };
    if applicable {
        match autocomplete_loc(e.attributes@, 0) {
            Some(k) => match static_of(e.attributes@[k]) {
                Some(v) => Some(
                    DiagView {
                        rule: Rule::AutocompleteValid,
                        message: "Invalid `autocomplete` value \""@ + v + "\" on <"@
                            + e.tag.name_spec() + ">."@,
                        severity: Severity::Error,
                        file: e.file@,
                        line: e.attributes@[k].line as int,
                        column: e.attributes@[k].column as int,
                        element: e.tag,
                        help: Some(
                            "Use a valid autocomplete value such as \"name\", \"email\", \"username\", \"current-password\", \"street-address\", \"off\", etc."@,
                        ),
                    },
                ),
                None => None,
            },
            None => None,
        }
    } else {
        None
    }
}

#[verifier::loop_isolation(false)]
fn check_autocomplete_valid(e: &HtmlElement) -> (r: Option<LintDiagnostic>)
    ensures
        opt_diag_view(r) == autocomplete_valid_spec(*e),
{
    if !matches!(e.tag, Tag::Input | Tag::Select | Tag::Textarea) {
        return None;
    }
    let attrs = &e.attributes;
    let mut i: usize = 0;
    while i < attrs.len()
        invariant
            0 <= i <= attrs@.len(),
            autocomplete_loc(attrs@, 0) == autocomplete_loc(attrs@, i as int),
        decreases attrs@.len() - i,
    {
        let a = &attrs[i];
        if matches!(a.name, AttributeName::Autocomplete) {
            if let Some(AttrValue::Static(s)) = &a.value {
                if !is_valid_autocomplete(s.as_str()) {
                    assert(autocomplete_hit(attrs@[i as int]));
                    let m = cat5(
                        "Invalid `autocomplete` value \"",
                        s.as_str(),
                        "\" on <",
                        e.tag.name(),
                        ">.",
                    );
                    return Some(
                        diag(
                            Rule::AutocompleteValid,
                            Severity::Error,
                            e,
                            a.line,
                            a.column,
                            m,
                            Some(
                                String::from_str(
                                    "Use a valid autocomplete value such as \"name\", \"email\", \"username\", \"current-password\", \"street-address\", \"off\", etc.",
                                ),
                            ),
                        ),
                    );
                }
            }
        }
        assert(!autocomplete_hit(attrs@[i as int]));
        i += 1;
    }
    None
}

// ---------------------------------------------------------------------------
// aria-role
// ---------------------------------------------------------------------------

/// No role of the table carries this name.
pub open spec fn role_token_unknown(t: Seq<char>) -> bool {
    forall|ro: Role| (#[trigger] ro.name_spec()) != t
}

/// Some abstract role carries this name.
pub open spec fn role_token_abstract(t: Seq<char>) -> bool {
    exists|ro: Role| (#[trigger] ro.name_spec()) == t && ro.is_abstract_spec()
}

/// A token fails the role-validity check when it names no role at all or
/// names an abstract role.
pub open spec fn role_token_bad(t: Seq<char>) -> bool {
    role_token_unknown(t) || role_token_abstract(t)
}

/// The first bad token of a fallback role list.
pub open spec fn first_bad_token(toks: Seq<Seq<char>>, i: int) -> Option<int>
    decreases toks.len() - i,
{
    if i < 0 || i >= toks.len() {
        None
    } else if role_token_bad(toks[i]) {
        Some(i)
    } else {
        first_bad_token(toks, i + 1)
    }
}

pub open spec fn aria_role_hit(a: HtmlAttribute) -> bool {
    (a.name matches AttributeName::Role) && match static_of(a) {
        Some(v) => first_bad_token(crate::text::ws_tokens(v), 0) is Some,
        None => false,
    }
}

pub open spec fn aria_role_loc(attrs: Seq<HtmlAttribute>, i: int) -> Option<int>
    decreases attrs.len() - i,
{
    if i < 0 || i >= attrs.len() {
        None
    } else if aria_role_hit(attrs[i]) {
        Some(i)
    } else {
        aria_role_loc(attrs, i + 1)
    }
}

/// The diagnostic for a bad role token: one message for an abstract role,
/// another for an unrecognized one.
pub open spec fn aria_role_diag(e: HtmlElement, k: int, t: Seq<char>) -> DiagView {
    if role_token_abstract(t) {
        DiagView {
            rule: Rule::AriaRole,
            message: "Abstract ARIA role \""@ + t + "\" must not be used on <"@
                + e.tag.name_spec() + ">. Abstract roles are for ontology purposes only."@,
            severity: Severity::Error,
            file: e.file@,
            line: e.attributes@[k].line as int,
            column: e.attributes@[k].column as int,
            element: e.tag,
            help: Some(
                "Use a non-abstract role instead. See https://www.w3.org/TR/wai-aria-1.2/#abstract_roles"@,
            ),
        }
    } else {
        DiagView {
            rule: Rule::AriaRole,
            message: "Invalid ARIA role \""@ + t + "\" on <"@ + e.tag.name_spec() + ">."@,
            severity: Severity::Error,
            file: e.file@,
            line: e.attributes@[k].line as int,
            column: e.attributes@[k].column as int,
            element: e.tag,
            help: Some(
                "See https://www.w3.org/TR/wai-aria-1.2/#role_definitions for valid roles."@,
            ),
        }
    }
}

/// `aria-role` fires on the first bad token (unknown or abstract role) of
/// the first static `role` value holding one.
pub open spec fn aria_role_spec(e: HtmlElement) -> Option<DiagView> {
    match aria_role_loc(e.attributes@, 0) {
        Some(k) => match static_of(e.attributes@[k]) {
            Some(v) => {
                let toks = crate::text::ws_tokens(v);
                match first_bad_token(toks, 0) {
                    Some(b) => Some(aria_role_diag(e, k, toks[b])),
                    None => None,
                }
            },
            None => None,
        },
        None => None,
    }
}

#[verifier::loop_isolation(false)]
fn check_aria_role(e: &HtmlElement) -> (r: Option<LintDiagnostic>)
    ensures
        opt_diag_view(r) == aria_role_spec(*e),
{
    let attrs = &e.attributes;
    let mut i: usize = 0;
    while i < attrs.len()
        invariant
            0 <= i <= attrs@.len(),
            aria_role_loc(attrs@, 0) == aria_role_loc(attrs@, i as int),
        decreases attrs@.len() - i,
    {
        let a = &attrs[i];
        if matches!(a.name, AttributeName::Role) {
            if let Some(AttrValue::Static(s)) = &a.value {
                let ghost tv = crate::text::ws_tokens(s@);
                let toks = crate::text::split_ws(s.as_str());
                let mut j: usize = 0;
                while j < toks.len()
                    invariant
                        0 <= j <= toks@.len(),
                        toks.deep_view() == tv,
                        toks@.len() == tv.len(),
                        first_bad_token(tv, 0) == first_bad_token(tv, j as int),
                    decreases toks@.len() - j,
                {
                    let t = toks[j];
                    assert(t@ == tv[j as int]) by {
                        assert(toks.deep_view()[j as int] == toks@[j as int]@);
                    }
                    match Role::from_str(t) {
                        Some(ro) => {
                            if ro.is_abstract() {
                                assert(role_token_abstract(t@));
                                assert(first_bad_token(tv, 0) == Some(j as int));
                                assert(aria_role_hit(attrs@[i as int]));
                                let m = cat5(
                                    "Abstract ARIA role \"",
                                    t,
                                    "\" must not be used on <",
                                    e.tag.name(),
                                    ">. Abstract roles are for ontology purposes only.",
                                );
                                return Some(
                                    diag(
                                        Rule::AriaRole,
                                        Severity::Error,
                                        e,
                                        a.line,
                                        a.column,
                                        m,
                                        Some(
                                            String::from_str(
                                                "Use a non-abstract role instead. See https://www.w3.org/TR/wai-aria-1.2/#abstract_roles",
                                            ),
                                        ),
                                    ),
                                );
                            } else {
                                assert forall|ro2: Role| (#[trigger] ro2.name_spec()) == t@
                                    implies ro2 == ro by {
                                    crate::dom::lemma_role_name_injective(ro2, ro);
                                }
                                assert(!role_token_bad(t@));
                            }
                        },
                        None => {
                            assert(role_token_unknown(t@));
                            assert(first_bad_token(tv, 0) == Some(j as int));
                            assert(aria_role_hit(attrs@[i as int]));
                            assert(!role_token_abstract(t@));
                            let m = cat5(
                                "Invalid ARIA role \"",
                                t,
                                "\" on <",
                                e.tag.name(),
                                ">.",
                            );
                            return Some(
                                diag(
                                    Rule::AriaRole,
                                    Severity::Error,
                                    e,
                                    a.line,
                                    a.column,
                                    m,
                                    Some(
                                        String::from_str(
                                            "See https://www.w3.org/TR/wai-aria-1.2/#role_definitions for valid roles.",
                                        ),
                                    ),
                                ),
                            );
                        },
                    }
                    j += 1;
                }
                assert(first_bad_token(tv, 0) is None);
            }
        }
        assert(!aria_role_hit(attrs@[i as int]));
        i += 1;
    }
    None
}

// ---------------------------------------------------------------------------
// interactive-supports-focus
// ---------------------------------------------------------------------------

/// Whether an attribute assigns an interactive role statically.
pub open spec fn attr_interactive_role(a: HtmlAttribute) -> bool {
    (a.name matches AttributeName::Role) && match static_of(a) {
        Some(v) => match crate::dom::role_named(v) {
            Some(ro) => ro.is_interactive_spec(),
            None => false,
        },
        None => false,
    }
}

pub open spec fn has_interactive_role_spec(attrs: Seq<HtmlAttribute>) -> bool {
    exists|i: int| 0 <= i < attrs.len() && attr_interactive_role(#[trigger] attrs[i])
}

/// `interactive-supports-focus` fires on a non-interactive element that
/// carries an interactive role and an event handler but is not focusable.
pub open spec fn interactive_focus_spec(e: HtmlElement) -> Option<DiagView> {
    if !e.tag.is_interactive_spec() && has_interactive_role_spec(e.attributes@)
        && e.event_handler_spec() && !e.focusable_spec() {
        Some(
            DiagView {
                rule: Rule::InteractiveSupportsFocus,
                message: "<"@ + e.tag.name_spec()
                    + "> with an interactive role must be focusable. Add a `tabindex` attribute."@,
                severity: Severity::Warning,
                file: e.file@,
                line: e.line as int,
                column: e.column as int,
                element: e.tag,
                help: Some(
                    "Add `tabindex=\"0\"` to make the element focusable, or use a natively interactive element like <button>."@,
                ),
            },
        )
    } else {
        None
    }
}

#[verifier::loop_isolation(false)]
fn check_interactive_focus(e: &HtmlElement) -> (r: Option<LintDiagnostic>)
    ensures
        opt_diag_view(r) == interactive_focus_spec(*e),
{
    if e.tag.is_interactive() {
        return None;
    }
    let attrs = &e.attributes;
    let mut found = false;
    let mut i: usize = 0;
    while i < attrs.len()
        invariant
            0 <= i <= attrs@.len(),
            !found ==> forall|j: int| 0 <= j < i ==> !attr_interactive_role(#[trigger] attrs@[j]),
            found ==> has_interactive_role_spec(attrs@),
        decreases attrs@.len() - i,
    {
        let a = &attrs[i];
        if matches!(a.name, AttributeName::Role) {
            if let Some(AttrValue::Static(s)) = &a.value {
                if let Some(ro) = Role::from_str(s.as_str()) {
                    if ro.is_interactive() {
                        assert(attr_interactive_role(attrs@[i as int]));
                        found = true;
                    }
                }
            }
        }
        assert(found || !attr_interactive_role(attrs@[i as int]));
        i += 1;
    }
    if !found {
        return None;
    }
    if !e.has_event_handler() {
        return None;
    }
    if e.is_focusable() {
        return None;
    }
    let m = wrap_tag(
        "<",
        &e.tag,
        "> with an interactive role must be focusable. Add a `tabindex` attribute.",
    );
    Some(
        diag(
            Rule::InteractiveSupportsFocus,
            Severity::Warning,
            e,
            e.line,
            e.column,
            m,
            Some(
                String::from_str(
                    "Add `tabindex=\"0\"` to make the element focusable, or use a natively interactive element like <button>.",
                ),
            ),
        ),
    )
}

// ---------------------------------------------------------------------------
// no-interactive-element-to-noninteractive-role
// ---------------------------------------------------------------------------

pub open spec fn noninteractive_role_hit(a: HtmlAttribute) -> bool {
    (a.name matches AttributeName::Role) && match static_of(a) {
        Some(v) => match crate::dom::role_named(v) {
            Some(ro) => !ro.is_interactive_spec(),
            None => false,
        },
        None => false,
    }
}

pub open spec fn noninteractive_role_loc(attrs: Seq<HtmlAttribute>, i: int) -> Option<int>
    decreases attrs.len() - i,
{
    if i < 0 || i >= attrs.len() {
        None
    } else if noninteractive_role_hit(attrs[i]) {
        Some(i)
    } else {
        noninteractive_role_loc(attrs, i + 1)
    }
}

/// `no-interactive-element-to-noninteractive-role` fires on the first
/// non-interactive role assigned to an interactive element.
pub open spec fn interactive_to_noninteractive_spec(e: HtmlElement) -> Option<DiagView> {
    if e.tag.is_interactive_spec() {
        match noninteractive_role_loc(e.attributes@, 0) {
            Some(k) => match static_of(e.attributes@[k]) {
                Some(v) => Some(
                    DiagView {
                        rule: Rule::NoInteractiveElementToNoninteractiveRole,
                        message: "Interactive element <"@ + e.tag.name_spec()
                            + "> should not be assigned the non-interactive role \""@ + v
                            + "\"."@,
                        severity: Severity::Warning,
                        file: e.file@,
                        line: e.attributes@[k].line as int,
                        column: e.attributes@[k].column as int,
                        element: e.tag,
                        help: Some(
                            "Remove the `role` attribute or use an appropriate interactive role."@,
                        ),
                    },
                ),
                None => None,
            },
            None => None,
        }
    } else {
        None
    }
}

#[verifier::loop_isolation(false)]
fn check_interactive_to_noninteractive(e: &HtmlElement) -> (r: Option<LintDiagnostic>)
    ensures
        opt_diag_view(r) == interactive_to_noninteractive_spec(*e),
{
    if !e.tag.is_interactive() {
        return None;
    }
    let attrs = &e.attributes;
    let mut i: usize = 0;
    while i < attrs.len()
        invariant
            0 <= i <= attrs@.len(),
            noninteractive_role_loc(attrs@, 0) == noninteractive_role_loc(attrs@, i as int),
        decreases attrs@.len() - i,
    {
        let a = &attrs[i];
        if matches!(a.name, AttributeName::Role) {
            if let Some(AttrValue::Static(s)) = &a.value {
                if let Some(ro) = Role::from_str(s.as_str()) {
                    if !ro.is_interactive() {
                        assert(noninteractive_role_hit(attrs@[i as int]));
                        let m = cat5(
                            "Interactive element <",
                            e.tag.name(),
                            "> should not be assigned the non-interactive role \"",
                            s.as_str(),
                            "\".",
                        );
                        return Some(
                            diag(
                                Rule::NoInteractiveElementToNoninteractiveRole,
                                Severity::Warning,
                                e,
                                a.line,
                                a.column,
                                m,
                                Some(
                                    String::from_str(
                                        "Remove the `role` attribute or use an appropriate interactive role.",
                                    ),
                                ),
                            ),
                        );
                    }
                }
            }
        }
        assert(!noninteractive_role_hit(attrs@[i as int]));
        i += 1;
    }
    None
}

// ---------------------------------------------------------------------------
// no-noninteractive-element-to-interactive-role
// ---------------------------------------------------------------------------

pub open spec fn interactive_role_hit(a: HtmlAttribute) -> bool {
    (a.name matches AttributeName::Role) && match static_of(a) {
        Some(v) => match crate::dom::role_named(v) {
            Some(ro) => ro.is_interactive_spec(),
            None => false,
        },
        None => false,
    }
}

pub open spec fn interactive_role_loc(attrs: Seq<HtmlAttribute>, i: int) -> Option<int>
    decreases attrs.len() - i,
{
    if i < 0 || i >= attrs.len() {
        None
    } else if interactive_role_hit(attrs[i]) {
        Some(i)
    } else {
        interactive_role_loc(attrs, i + 1)
    }
}

/// `no-noninteractive-element-to-interactive-role` fires on the first
/// interactive role assigned to a non-interactive element.
pub open spec fn noninteractive_to_interactive_spec(e: HtmlElement) -> Option<DiagView> {
    if !e.tag.is_interactive_spec() {
        match interactive_role_loc(e.attributes@, 0) {
            Some(k) => match static_of(e.attributes@[k]) {
                Some(v) => Some(
                    DiagView {
                        rule: Rule::NoNoninteractiveElementToInteractiveRole,
                        message: "Non-interactive element <"@ + e.tag.name_spec()
                            + "> should not be assigned the interactive role \""@ + v + "\"."@,
                        severity: Severity::Warning,
                        file: e.file@,
                        line: e.attributes@[k].line as int,
                        column: e.attributes@[k].column as int,
                        element: e.tag,
                        help: Some(
                            "Use the appropriate interactive element instead, e.g., <button>, <a>, <input>."@,
                        ),
                    },
                ),
                None => None,
            },
            None => None,
        }
    } else {
        None
    }
}

#[verifier::loop_isolation(false)]
fn check_noninteractive_to_interactive(e: &HtmlElement) -> (r: Option<LintDiagnostic>)
    ensures
        opt_diag_view(r) == noninteractive_to_interactive_spec(*e),
{
    if e.tag.is_interactive() {
        return None;
    }
    let attrs = &e.attributes;
    let mut i: usize = 0;
    while i < attrs.len()
        invariant
            0 <= i <= attrs@.len(),
            interactive_role_loc(attrs@, 0) == interactive_role_loc(attrs@, i as int),
        decreases attrs@.len() - i,
    {
        let a = &attrs[i];
        if matches!(a.name, AttributeName::Role) {
            if let Some(AttrValue::Static(s)) = &a.value {
                if let Some(ro) = Role::from_str(s.as_str()) {
                    if ro.is_interactive() {
                        assert(interactive_role_hit(attrs@[i as int]));
                        let m = cat5(
                            "Non-interactive element <",
                            e.tag.name(),
                            "> should not be assigned the interactive role \"",
                            s.as_str(),
                            "\".",
                        );
                        return Some(
                            diag(
                                Rule::NoNoninteractiveElementToInteractiveRole,
                                Severity::Warning,
                                e,
                                a.line,
                                a.column,
                                m,
                                Some(
                                    String::from_str(
                                        "Use the appropriate interactive element instead, e.g., <button>, <a>, <input>.",
                                    ),
                                ),
                            ),
                        );
                    }
                }
            }
        }
        assert(!interactive_role_hit(attrs@[i as int]));
        i += 1;
    }
    None
}

// ---------------------------------------------------------------------------
// no-noninteractive-element-interactions
// ---------------------------------------------------------------------------

/// The role an attribute assigns statically, abstract roles included.
pub open spec fn attr_parsed_role(a: HtmlAttribute) -> Option<Role> {
    if (a.name matches AttributeName::Role) {
        match static_of(a) {
            Some(v) => crate::dom::role_named(v),
            None => None,
        }
    } else {
        None
    }
}

/// The first statically parsed explicit role among the attributes.
pub open spec fn parsed_role_from(attrs: Seq<HtmlAttribute>, i: int) -> Option<Role>
    decreases attrs.len() - i,
{
    if i < 0 || i >= attrs.len() {
        None
    } else if attr_parsed_role(attrs[i]) is Some {
        attr_parsed_role(attrs[i])
    } else {
        parsed_role_from(attrs, i + 1)
    }
}

/// The first explicit role of the element, abstract roles included.
#[verifier::loop_isolation(false)]
fn explicit_parsed_role(attrs: &Vec<HtmlAttribute>) -> (r: Option<Role>)
    ensures
        r == parsed_role_from(attrs@, 0),
{
    let mut i: usize = 0;
    while i < attrs.len()
        invariant
            0 <= i <= attrs@.len(),
            parsed_role_from(attrs@, 0) == parsed_role_from(attrs@, i as int),
        decreases attrs@.len() - i,
    {
        let a = &attrs[i];
        if matches!(a.name, AttributeName::Role) {
            if let Some(AttrValue::Static(s)) = &a.value {
                if let Some(ro) = Role::from_str(s.as_str()) {
                    assert(attr_parsed_role(attrs@[i as int]) == Some(ro));
                    return Some(ro);
                }
            }
        }
        assert(attr_parsed_role(attrs@[i as int]) is None);
        i += 1;
    }
    None
}

/// Whether a keyboard or click handler is present.
pub open spec fn has_click_key_handler_spec(attrs: Seq<HtmlAttribute>) -> bool {
    has_attr_spec(attrs, AttributeName::OnClick) || has_key_handler_spec(attrs)
}

/// `no-noninteractive-element-interactions` fires on an element with a
/// non-interactive implicit role and a click or keyboard handler, unless
/// an explicit interactive role overrides it.
pub open spec fn noninteractive_interactions_spec(e: HtmlElement) -> Option<DiagView> {
    let explicit_interactive = match parsed_role_from(e.attributes@, 0) {
        Some(ro) => ro.is_interactive_spec(),
        None => false,
    };
    if !e.tag.is_interactive_spec() && !explicit_interactive && (e.tag.implicit_role_spec()
        is Some) && has_click_key_handler_spec(e.attributes@) {
        Some(
            DiagView {
                rule: Rule::NoNoninteractiveElementInteractions,
                message: "Non-interactive element <"@ + e.tag.name_spec()
                    + "> should not have event handlers."@,
                severity: Severity::Warning,
                file: e.file@,
                line: e.line as int,
                column: e.column as int,
                element: e.tag,
                help: Some(
                    "Use an interactive element like <button> or <a>, or add an appropriate `role` attribute."@,
                ),
            },
        )
    } else {
        None
    }
}

fn check_noninteractive_interactions(e: &HtmlElement) -> (r: Option<LintDiagnostic>)
    ensures
        opt_diag_view(r) == noninteractive_interactions_spec(*e),
{
    if e.tag.is_interactive() {
        return None;
    }
    if let Some(ro) = explicit_parsed_role(&e.attributes) {
        if ro.is_interactive() {
            return None;
        }
    }
    if e.tag.implicit_role().is_none() {
        return None;
    }
    if !(has_attr(&e.attributes, &AttributeName::OnClick) || has_attr(
        &e.attributes,
        &AttributeName::OnKeyDown,
    ) || has_attr(&e.attributes, &AttributeName::OnKeyUp) || has_attr(
        &e.attributes,
        &AttributeName::OnKeyPress,
    )) {
        return None;
    }
    let m = wrap_tag(
        "Non-interactive element <",
        &e.tag,
        "> should not have event handlers.",
    );
    Some(
        diag(
            Rule::NoNoninteractiveElementInteractions,
            Severity::Warning,
            e,
            e.line,
            e.column,
            m,
            Some(
                String::from_str(
                    "Use an interactive element like <button> or <a>, or add an appropriate `role` attribute.",
                ),
            ),
        ),
    )
}

// ---------------------------------------------------------------------------
// no-redundant-roles
// ---------------------------------------------------------------------------

/// Whether `a` spells out the element's implicit role.
pub open spec fn redundant_hit(a: HtmlAttribute, ir: Role) -> bool {
    (a.name matches AttributeName::Role) && static_of(a) == Some(ir.name_spec())
}

pub open spec fn redundant_loc(attrs: Seq<HtmlAttribute>, ir: Role, i: int) -> Option<int>
    decreases attrs.len() - i,
{
    if i < 0 || i >= attrs.len() {
        None
    } else if redundant_hit(attrs[i], ir) {
        Some(i)
    } else {
        redundant_loc(attrs, ir, i + 1)
    }
}

/// `no-redundant-roles` fires on the first explicit `role` that repeats
/// the element's implicit role.
pub open spec fn no_redundant_roles_spec(e: HtmlElement) -> Option<DiagView> {
    match e.tag.implicit_role_spec() {
        Some(ir) => match redundant_loc(e.attributes@, ir, 0) {
            Some(k) => match static_of(e.attributes@[k]) {
                Some(v) => Some(
                    DiagView {
                        rule: Rule::NoRedundantRoles,
                        message: "Redundant role \""@ + v + "\" on <"@ + e.tag.name_spec()
                            + ">. This is the element's implicit role."@,
                        severity: Severity::Warning,
                        file: e.file@,
                        line: e.attributes@[k].line as int,
                        column: e.attributes@[k].column as int,
                        element: e.tag,
                        help: Some("Remove the `role` attribute."@),
                    },
                ),
                None => None,
            },
            None => None,
        },
        None => None,
    }
}

#[verifier::loop_isolation(false)]
fn check_no_redundant_roles(e: &HtmlElement) -> (r: Option<LintDiagnostic>)
    ensures
        opt_diag_view(r) == no_redundant_roles_spec(*e),
{
    let ir = match e.tag.implicit_role() {
        Some(ir) => ir,
        None => {
            return None;
        },
    };
    let attrs = &e.attributes;
    let mut i: usize = 0;
    while i < attrs.len()
        invariant
            0 <= i <= attrs@.len(),
            Some(ir) == e.tag.implicit_role_spec(),
            redundant_loc(attrs@, ir, 0) == redundant_loc(attrs@, ir, i as int),
        decreases attrs@.len() - i,
    {
        let a = &attrs[i];
        if matches!(a.name, AttributeName::Role) {
            if let Some(AttrValue::Static(s)) = &a.value {
                if str_eq(s.as_str(), ir.name()) {
                    assert(redundant_hit(attrs@[i as int], ir));
                    let m = cat5(
                        "Redundant role \"",
                        s.as_str(),
                        "\" on <",
                        e.tag.name(),
                        ">. This is the element's implicit role.",
                    );
                    return Some(
                        diag(
                            Rule::NoRedundantRoles,
                            Severity::Warning,
                            e,
                            a.line,
                            a.column,
                            m,
                            Some(String::from_str("Remove the `role` attribute.")),
                        ),
                    );
                }
            }
        }
        assert(!redundant_hit(attrs@[i as int], ir));
        i += 1;
    }
    None
}

// ---------------------------------------------------------------------------
// prefer-tag-over-role
// ---------------------------------------------------------------------------

pub open spec fn preferred_hit(a: HtmlAttribute) -> bool {
    (a.name matches AttributeName::Role) && match static_of(a) {
        Some(v) => match crate::dom::role_named(v) {
            Some(ro) => ro.preferred_tag_spec() is Some,
            None => false,
        },
        None => false,
    }
}

pub open spec fn preferred_loc(attrs: Seq<HtmlAttribute>, i: int) -> Option<int>
    decreases attrs.len() - i,
{
    if i < 0 || i >= attrs.len() {
        None
    } else if preferred_hit(attrs[i]) {
        Some(i)
    } else {
        preferred_loc(attrs, i + 1)
    }
}

/// `prefer-tag-over-role` fires on the first explicit role that has a
/// semantic HTML equivalent, unless the element already is that
/// equivalent.
pub open spec fn prefer_tag_spec(e: HtmlElement) -> Option<DiagView> {
    match preferred_loc(e.attributes@, 0) {
        Some(k) => match static_of(e.attributes@[k]) {
            Some(v) => match crate::dom::role_named(v) {
                Some(ro) => if e.tag.implicit_role_spec() == Some(ro) {
                    None
                } else {
                    match ro.preferred_tag_spec() {
                        Some(p) => Some(
                            DiagView {
                                rule: Rule::PreferTagOverRole,
                                message: "Prefer using the "@ + p + " element instead of `role=\""@
                                    + v + "\"`."@,
                                severity: Severity::Info,
                                file: e.file@,
                                line: e.attributes@[k].line as int,
                                column: e.attributes@[k].column as int,
                                element: e.tag,
                                help: Some(
                                    "Use "@ + p
                                        + " which has built-in semantics and keyboard behavior instead of relying on ARIA."@,
                                ),
                            },
                        ),
                        None => None,
                    }
                },
                None => None,
            },
            None => None,
        },
        None => None,
    }
}

#[verifier::loop_isolation(false)]
fn check_prefer_tag(e: &HtmlElement) -> (r: Option<LintDiagnostic>)
    ensures
        opt_diag_view(r) == prefer_tag_spec(*e),
{
    let attrs = &e.attributes;
    let mut i: usize = 0;
    while i < attrs.len()
        invariant
            0 <= i <= attrs@.len(),
            preferred_loc(attrs@, 0) == preferred_loc(attrs@, i as int),
        decreases attrs@.len() - i,
    {
        let a = &attrs[i];
        if matches!(a.name, AttributeName::Role) {
            if let Some(AttrValue::Static(s)) = &a.value {
                if let Some(ro) = Role::from_str(s.as_str()) {
                    if let Some(p) = ro.preferred_tag() {
                        assert(preferred_hit(attrs@[i as int]));
                        let same = match e.tag.implicit_role() {
                            Some(ir) => ir == ro,
                            None => false,
                        };
                        if same {
                            return None;
                        }
                        let m = cat5(
                            "Prefer using the ",
                            p,
                            " element instead of `role=\"",
                            s.as_str(),
                            "\"`.",
                        );
                        let h = cat3(
                            "Use ",
                            p,
                            " which has built-in semantics and keyboard behavior instead of relying on ARIA.",
                        );
                        return Some(
                            diag(
                                Rule::PreferTagOverRole,
                                Severity::Info,
                                e,
                                a.line,
                                a.column,
                                m,
                                Some(h),
                            ),
                        );
                    }
                }
            }
        }
        assert(!preferred_hit(attrs@[i as int]));
        i += 1;
    }
    None
}

// ---------------------------------------------------------------------------
// role-has-required-aria-props
// ---------------------------------------------------------------------------

pub open spec fn role_attr_loc(attrs: Seq<HtmlAttribute>, i: int) -> Option<int>
    decreases attrs.len() - i,
{
    if i < 0 || i >= attrs.len() {
        None
    } else if (attrs[i].name matches AttributeName::Role) {
        Some(i)
    } else {
        role_attr_loc(attrs, i + 1)
    }
}

/// The required properties of `req` that no attribute carries.
pub open spec fn missing_props(attrs: Seq<HtmlAttribute>, req: Seq<Aria>) -> Seq<Aria>
    decreases req.len(),
{
    if req.len() == 0 {
        Seq::empty()
    } else {
        missing_props(attrs, req.drop_last()) + (if has_attr_spec(
            attrs,
            AttributeName::Aria(req.last()),
        ) {
            Seq::empty()
        } else {
            seq![req.last()]
        })
    }
}

/// The missing property names, backquoted and joined with commas.
pub open spec fn joined_props(ms: Seq<Aria>) -> Seq<char>
    decreases ms.len(),
{
    if ms.len() == 0 {
        Seq::empty()
    } else if ms.len() == 1 {
        "`"@ + ms[0].name_spec() + "`"@
    } else {
        joined_props(ms.drop_last()) + ", "@ + "`"@ + ms.last().name_spec() + "`"@
    }
}

/// `role-has-required-aria-props` fires when the first `role` attribute
/// names a role some of whose required properties are absent; headings
/// written as `<h1>`-`<h6>` carry their level implicitly and are excused.
pub open spec fn required_props_spec(e: HtmlElement) -> Option<DiagView> {
    match role_attr_loc(e.attributes@, 0) {
        Some(k) => match static_of(e.attributes@[k]) {
            Some(v) => match crate::dom::role_named(v) {
                Some(role) => {
                    let req = role.required_props_spec();
                    let missing = missing_props(e.attributes@, req);
                    if req.len() == 0 {
                        None
                    } else if (role matches Role::Heading) && e.tag.is_heading_spec() {
                        None
                    } else if missing.len() > 0 {
                        Some(
                            DiagView {
                                rule: Rule::RoleHasRequiredAriaProps,
                                message: "<"@ + e.tag.name_spec() + "> with role=\""@ + v
                                    + "\" is missing required ARIA properties: "@ + joined_props(
                                    missing,
                                ) + "."@,
                                severity: Severity::Error,
                                file: e.file@,
                                line: e.attributes@[k].line as int,
                                column: e.attributes@[k].column as int,
                                element: e.tag,
                                help: Some(
                                    "Add the required ARIA properties for the \""@ + v
                                        + "\" role."@,
                                ),
                            },
                        )
                    } else {
                        None
                    }
                },
                None => None,
            },
            None => None,
        },
        None => None,
    }
}

#[verifier::loop_isolation(false)]
fn check_required_props(e: &HtmlElement) -> (r: Option<LintDiagnostic>)
    ensures
        opt_diag_view(r) == required_props_spec(*e),
{
    let attrs = &e.attributes;
    let mut i: usize = 0;
    while i < attrs.len()
        invariant
            0 <= i <= attrs@.len(),
            role_attr_loc(attrs@, 0) == role_attr_loc(attrs@, i as int),
        decreases attrs@.len() - i,
    {
        let a = &attrs[i];
        if matches!(a.name, AttributeName::Role) {
            assert(role_attr_loc(attrs@, 0) == Some(i as int));
            if let Some(AttrValue::Static(s)) = &a.value {
                if let Some(role) = Role::from_str(s.as_str()) {
                    let req = role.required_aria_props();
                    if req.len() == 0 {
                        return None;
                    }
                    if matches!(role, Role::Heading) && e.tag.is_heading() {
                        return None;
                    }
                    let mut missing: Vec<Aria> = Vec::new();
                    let mut m: usize = 0;
                    assert(missing@ =~= missing_props(attrs@, req@.take(0)));
                    while m < req.len()
                        invariant
                            0 <= m <= req@.len(),
                            req@ == role.required_props_spec(),
                            missing@ == missing_props(attrs@, req@.take(m as int)),
                        decreases req@.len() - m,
                    {
                        let p = *vstd::slice::slice_index_get(req, m);
                        let ghost pre = missing@;
                        if !has_attr(attrs, &AttributeName::Aria(p)) {
                            missing.push(p);
                        }
                        proof {
                            assert(req@.take(m + 1).drop_last() =~= req@.take(m as int));
                            assert(req@.take(m + 1).last() == req@[m as int]);
                            if has_attr_spec(attrs@, AttributeName::Aria(req@[m as int])) {
                                assert(missing@ =~= missing_props(attrs@, req@.take(m + 1)));
                            } else {
                                assert(missing@ =~= missing_props(attrs@, req@.take(m + 1)));
                            }
                        }
                        m += 1;
                    }
                    assert(req@.take(req@.len() as int) =~= req@);
                    if missing.len() == 0 {
                        return None;
                    }
                    let mut list = String::new();
                    let mut x: usize = 0;
                    while x < missing.len()
                        invariant
                            0 <= x <= missing@.len(),
                            missing@.len() > 0,
                            list@ == joined_props(missing@.take(x as int)),
                        decreases missing@.len() - x,
                    {
                        if x > 0 {
                            list.append(", ");
                        }
                        list.append("`");
                        list.append(missing[x].name());
                        list.append("`");
                        proof {
                            assert(missing@.take(x + 1).drop_last() =~= missing@.take(x as int));
                            assert(missing@.take(x + 1).last() == missing@[x as int]);
                            assert(list@ =~= joined_props(missing@.take(x + 1)));
                        }
                        x += 1;
                    }
                    assert(missing@.take(missing@.len() as int) =~= missing@);
                    let mut msg = String::from_str("<");
                    msg.append(e.tag.name());
                    msg.append("> with role=\"");
                    msg.append(s.as_str());
                    msg.append("\" is missing required ARIA properties: ");
                    msg.append(list.as_str());
                    msg.append(".");
                    let h = cat3(
                        "Add the required ARIA properties for the \"",
                        s.as_str(),
                        "\" role.",
                    );
                    return Some(
                        diag(
                            Rule::RoleHasRequiredAriaProps,
                            Severity::Error,
                            e,
                            a.line,
                            a.column,
                            msg,
                            Some(h),
                        ),
                    );
                }
            }
            return None;
        }
        assert(!(attrs@[i as int].name matches AttributeName::Role));
        i += 1;
    }
    None
}

// ---------------------------------------------------------------------------
// role-supports-aria-props
// ---------------------------------------------------------------------------

/// Whether `a` is an ARIA property the role does not support.
pub open spec fn unsupported_prop_hit(a: HtmlAttribute, role: Role) -> bool {
    a.name matches AttributeName::Aria(ar) && !ar.supported_spec(role)
}

pub open spec fn unsupported_prop_loc(attrs: Seq<HtmlAttribute>, role: Role, i: int) -> Option<
    int,
>
    decreases attrs.len() - i,
{
    if i < 0 || i >= attrs.len() {
        None
    } else if unsupported_prop_hit(attrs[i], role) {
        Some(i)
    } else {
        unsupported_prop_loc(attrs, role, i + 1)
    }
}

/// `role-supports-aria-props` fires on the first ARIA property the
/// element's effective role does not support.
pub open spec fn role_supports_props_spec(e: HtmlElement) -> Option<DiagView> {
    match e.role_spec() {
        Some(role) => match unsupported_prop_loc(e.attributes@, role, 0) {
            Some(k) => match e.attributes@[k].name {
                AttributeName::Aria(ar) => Some(
                    DiagView {
                        rule: Rule::RoleSupportsAriaProps,
                        message: "The `"@ + ar.name_spec()
                            + "` property is not supported by the \""@ + role.name_spec()
                            + "\" role on <"@ + e.tag.name_spec() + ">."@,
                        severity: Severity::Warning,
                        file: e.file@,
                        line: e.attributes@[k].line as int,
                        column: e.attributes@[k].column as int,
                        element: e.tag,
                        help: Some(
                            "Remove the `"@ + ar.name_spec()
                                + "` property, or change the role to one that supports it."@,
                        ),
                    },
                ),
                _ => None,
            },
            None => None,
        },
        None => None,
    }
}

#[verifier::loop_isolation(false)]
fn check_role_supports_props(e: &HtmlElement) -> (r: Option<LintDiagnostic>)
    ensures
        opt_diag_view(r) == role_supports_props_spec(*e),
{
    let role = match e.role() {
        Some(role) => role,
        None => {
            return None;
        },
    };
    let attrs = &e.attributes;
    let mut i: usize = 0;
    while i < attrs.len()
        invariant
            0 <= i <= attrs@.len(),
            Some(role) == e.role_spec(),
            unsupported_prop_loc(attrs@, role, 0) == unsupported_prop_loc(attrs@, role, i as int),
        decreases attrs@.len() - i,
    {
        let a = &attrs[i];
        if let AttributeName::Aria(ar) = &a.name {
            if !ar.is_supported_by_role(&role) {
                assert(unsupported_prop_hit(attrs@[i as int], role));
                let m = cat7(
                    "The `",
                    ar.name(),
                    "` property is not supported by the \"",
                    role.name(),
                    "\" role on <",
                    e.tag.name(),
                    ">.",
                );
                let h = cat3(
                    "Remove the `",
                    ar.name(),
                    "` property, or change the role to one that supports it.",
                );
                return Some(
                    diag(
                        Rule::RoleSupportsAriaProps,
                        Severity::Warning,
                        e,
                        a.line,
                        a.column,
                        m,
                        Some(h),
                    ),
                );
            }
        }
        assert(!unsupported_prop_hit(attrs@[i as int], role));
        i += 1;
    }
    None
}

// ---------------------------------------------------------------------------
// Laws of the rules
// ---------------------------------------------------------------------------

/// Abstract roles always fail the role-validity check; concrete roles
/// never do: the name of an abstract role is a bad token, the name of a
/// concrete role is not.
pub proof fn lemma_abstract_roles_fail_validity(ro: Role)
    ensures
        ro.is_abstract_spec() ==> role_token_bad(ro.name_spec()),
        !ro.is_abstract_spec() ==> !role_token_bad(ro.name_spec()),
{
    if ro.is_abstract_spec() {
        assert(role_token_abstract(ro.name_spec()));
    } else {
        assert(!role_token_unknown(ro.name_spec()));
        assert forall|ro2: Role| (#[trigger] ro2.name_spec()) == ro.name_spec() implies ro2
            == ro by {
            crate::dom::lemma_role_name_injective(ro2, ro);
        }
        assert(!role_token_abstract(ro.name_spec()));
    }
}

/// An element with `aria-hidden="true"` that is focusable yields exactly
/// one diagnostic from the `no-aria-hidden-on-focusable` rule, and it is
/// an error; the same attribute on a non-focusable element yields none.
pub proof fn lemma_aria_hidden_on_focusable(e: HtmlElement)
    ensures
        e.focusable_spec() && has_attr_valued_spec(
            e.attributes@,
            AttributeName::Aria(Aria::Hidden),
            "true"@,
        ) ==> (aria_hidden_focusable_spec(e) matches Some(d) && d.severity == Severity::Error
            && d.rule == Rule::NoAriaHiddenOnFocusable),
        !e.focusable_spec() ==> aria_hidden_focusable_spec(e) is None,
{
}

/// A `role="checkbox"` element without `aria-checked` gets a
/// required-properties diagnostic; adding `aria-checked` removes it.
pub proof fn lemma_checkbox_requires_checked(e: HtmlElement, k: int)
    requires
        role_attr_loc(e.attributes@, 0) == Some(k),
        0 <= k < e.attributes@.len(),
        static_of(e.attributes@[k]) == Some("checkbox"@),
    ensures
        !has_attr_spec(e.attributes@, AttributeName::Aria(Aria::Checked)) ==> (required_props_spec(
            e,
        ) matches Some(d) && d.rule == Rule::RoleHasRequiredAriaProps),
        has_attr_spec(e.attributes@, AttributeName::Aria(Aria::Checked)) ==> required_props_spec(e)
            is None,
{
    crate::dom::lemma_role_named_is("checkbox"@, Role::Checkbox);
    let req = Role::Checkbox.required_props_spec();
    assert(req =~= seq![Aria::Checked]);
    assert(req.drop_last() =~= Seq::<Aria>::empty());
    assert(req.last() == Aria::Checked);
    assert(missing_props(e.attributes@, Seq::<Aria>::empty()) =~= Seq::<Aria>::empty());
    assert(missing_props(e.attributes@, req.drop_last()) =~= Seq::<Aria>::empty());
    if has_attr_spec(e.attributes@, AttributeName::Aria(Aria::Checked)) {
        assert(missing_props(e.attributes@, req) =~= Seq::<Aria>::empty());
    } else {
        assert(missing_props(e.attributes@, req) =~= seq![Aria::Checked]);
    }
}

// ---------------------------------------------------------------------------
// The registry's view of the checks
// ---------------------------------------------------------------------------

/// What each rule yields on an element.
pub open spec fn check_spec(rule: Rule, e: HtmlElement) -> Option<DiagView> {
    match rule {
        Rule::AltText => alt_text_spec(e),
        Rule::AnchorAmbiguousText => anchor_ambiguous_spec(e),
        Rule::AriaRole => aria_role_spec(e),
        Rule::AutocompleteValid => autocomplete_valid_spec(e),
        Rule::InteractiveSupportsFocus => interactive_focus_spec(e),
        Rule::NoInteractiveElementToNoninteractiveRole => interactive_to_noninteractive_spec(e),
        Rule::NoNoninteractiveElementInteractions => noninteractive_interactions_spec(e),
        Rule::NoNoninteractiveElementToInteractiveRole => noninteractive_to_interactive_spec(e),
        Rule::NoRedundantRoles => no_redundant_roles_spec(e),
        Rule::PreferTagOverRole => prefer_tag_spec(e),
        Rule::RoleHasRequiredAriaProps => required_props_spec(e),
        Rule::RoleSupportsAriaProps => role_supports_props_spec(e),
        Rule::AnchorIsValid => anchor_is_valid_spec(e),
        Rule::AriaProps => aria_props_spec(e),
        Rule::AriaProptypes => aria_proptypes_spec(e),
        Rule::AriaUnsupportedElements => aria_unsupported_spec(e),
        Rule::ImgRedundantAlt => img_redundant_alt_spec(e),
        Rule::Lang => lang_spec(e),
        Rule::NoNoninteractiveTabindex => noninteractive_tabindex_spec(e),
        Rule::TabindexNoPositive => tabindex_positive_spec(e),
        Rule::AnchorHasContent => anchor_has_content_spec(e),
        Rule::AriaActivedescendantHasTabindex => activedescendant_spec(e),
        Rule::ClickEventsHaveKeyEvents => click_key_events_spec(e),
        Rule::ControlHasAssociatedLabel => control_label_spec(e),
        Rule::IframeHasTitle => iframe_title_spec(e),
        Rule::LabelHasAssociatedControl => label_control_spec(e),
        Rule::MediaHasCaption => media_caption_spec(e),
        Rule::MouseEventsHaveKeyEvents => mouse_key_events_spec(e),
        Rule::NoAccessKey => no_access_key_spec(e),
        Rule::NoAriaHiddenOnFocusable => aria_hidden_focusable_spec(e),
        Rule::NoStaticElementInteractions => static_interactions_spec(e),
        Rule::NoAutofocus => no_autofocus_spec(e),
        Rule::NoDistractingElements => no_distracting_spec(e),
        Rule::Scope => scope_spec(e),
        Rule::HtmlHasLang => html_has_lang_spec(e),
        Rule::HeadingHasContent => heading_has_content_spec(e),
    }
}

impl Rule {
    /// Evaluates this rule on one element: `Some` exactly when the rule's
    /// condition holds, with the diagnostic `check_spec` describes.
    pub fn check(&self, element: &HtmlElement) -> (r: Option<LintDiagnostic>)
        ensures
            opt_diag_view(r) == check_spec(*self, *element),
    {
        match self {
            Rule::AltText => check_alt_text(element),
            Rule::AnchorAmbiguousText => check_anchor_ambiguous(element),
            Rule::AriaRole => check_aria_role(element),
            Rule::AutocompleteValid => check_autocomplete_valid(element),
            Rule::InteractiveSupportsFocus => check_interactive_focus(element),
            Rule::NoInteractiveElementToNoninteractiveRole => check_interactive_to_noninteractive(element),
            Rule::NoNoninteractiveElementInteractions => check_noninteractive_interactions(element),
            Rule::NoNoninteractiveElementToInteractiveRole => check_noninteractive_to_interactive(element),
            Rule::NoRedundantRoles => check_no_redundant_roles(element),
            Rule::PreferTagOverRole => check_prefer_tag(element),
            Rule::RoleHasRequiredAriaProps => check_required_props(element),
            Rule::RoleSupportsAriaProps => check_role_supports_props(element),
            Rule::AnchorIsValid => check_anchor_is_valid(element),
            Rule::AriaProps => check_aria_props(element),
            Rule::AriaProptypes => check_aria_proptypes(element),
            Rule::AriaUnsupportedElements => check_aria_unsupported(element),
            Rule::ImgRedundantAlt => check_img_redundant_alt(element),
            Rule::Lang => check_lang(element),
            Rule::NoNoninteractiveTabindex => check_noninteractive_tabindex(element),
            Rule::TabindexNoPositive => check_tabindex_positive(element),
            Rule::AnchorHasContent => check_anchor_has_content(element),
            Rule::AriaActivedescendantHasTabindex => check_activedescendant(element),
            Rule::ClickEventsHaveKeyEvents => check_click_key_events(element),
            Rule::ControlHasAssociatedLabel => check_control_label(element),
            Rule::IframeHasTitle => check_iframe_title(element),
            Rule::LabelHasAssociatedControl => check_label_control(element),
            Rule::MediaHasCaption => check_media_caption(element),
            Rule::MouseEventsHaveKeyEvents => check_mouse_key_events(element),
            Rule::NoAccessKey => check_no_access_key(element),
            Rule::NoAriaHiddenOnFocusable => check_aria_hidden_focusable(element),
            Rule::NoStaticElementInteractions => check_static_interactions(element),
            Rule::NoAutofocus => check_no_autofocus(element),
            Rule::NoDistractingElements => check_no_distracting(element),
            Rule::Scope => check_scope(element),
            Rule::HtmlHasLang => check_html_has_lang(element),
            Rule::HeadingHasContent => check_heading_has_content(element),
        }
    }
}

} // verus!
