//! The lint rule registry: severities, rule identifiers and metadata, the
//! diagnostic record, and the runner that evaluates every rule against
//! every element in order.

use crate::dom::Tag;
use crate::element::HtmlElement;
use crate::text::str_eq;
use vstd::prelude::*;

verus! {

/// Severity level for a lint diagnostic.
#[derive(Clone, Copy, Debug, PartialEq, Eq, Structural)]
pub enum Severity {
    /// A violation that must be fixed (e.g. missing `alt` on `<img>`).
    Error,
    /// A likely problem that should be reviewed.
    Warning,
    /// A suggestion for improved accessibility.
    Info,
}

/// Accessibility lint rule identifiers. Each variant is a single check;
/// rules are written in kebab-case (e.g. `alt-text`) for CLI flags and
/// reports.
#[derive(Clone, Copy, Debug, PartialEq, Eq, Structural)]
pub enum Rule {
    AltText,
    AnchorAmbiguousText,
    AnchorHasContent,
    AnchorIsValid,
    AriaActivedescendantHasTabindex,
    AriaProps,
    AriaProptypes,
    AriaRole,
    AriaUnsupportedElements,
    AutocompleteValid,
    ClickEventsHaveKeyEvents,
    ControlHasAssociatedLabel,
    HeadingHasContent,
    HtmlHasLang,
    IframeHasTitle,
    ImgRedundantAlt,
    InteractiveSupportsFocus,
    LabelHasAssociatedControl,
    Lang,
    MediaHasCaption,
    MouseEventsHaveKeyEvents,
    NoAccessKey,
    NoAriaHiddenOnFocusable,
    NoAutofocus,
    NoDistractingElements,
    NoInteractiveElementToNoninteractiveRole,
    NoNoninteractiveElementInteractions,
    NoNoninteractiveElementToInteractiveRole,
    NoNoninteractiveTabindex,
    NoRedundantRoles,
    NoStaticElementInteractions,
    PreferTagOverRole,
    RoleHasRequiredAriaProps,
    RoleSupportsAriaProps,
    Scope,
    TabindexNoPositive,
}

impl Rule {
    /// The kebab-case identifier of this rule.
    pub open spec fn id_spec(self) -> Seq<char> {
        match self {
            Rule::AltText => "alt-text"@,
            Rule::AnchorAmbiguousText => "anchor-ambiguous-text"@,
            Rule::AnchorHasContent => "anchor-has-content"@,
            Rule::AnchorIsValid => "anchor-is-valid"@,
            Rule::AriaActivedescendantHasTabindex => "aria-activedescendant-has-tabindex"@,
            Rule::AriaProps => "aria-props"@,
            Rule::AriaProptypes => "aria-proptypes"@,
            Rule::AriaRole => "aria-role"@,
            Rule::AriaUnsupportedElements => "aria-unsupported-elements"@,
            Rule::AutocompleteValid => "autocomplete-valid"@,
            Rule::ClickEventsHaveKeyEvents => "click-events-have-key-events"@,
            Rule::ControlHasAssociatedLabel => "control-has-associated-label"@,
            Rule::HeadingHasContent => "heading-has-content"@,
            Rule::HtmlHasLang => "html-has-lang"@,
            Rule::IframeHasTitle => "iframe-has-title"@,
            Rule::ImgRedundantAlt => "img-redundant-alt"@,
            Rule::InteractiveSupportsFocus => "interactive-supports-focus"@,
            Rule::LabelHasAssociatedControl => "label-has-associated-control"@,
            Rule::Lang => "lang"@,
            Rule::MediaHasCaption => "media-has-caption"@,
            Rule::MouseEventsHaveKeyEvents => "mouse-events-have-key-events"@,
            Rule::NoAccessKey => "no-access-key"@,
            Rule::NoAriaHiddenOnFocusable => "no-aria-hidden-on-focusable"@,
            Rule::NoAutofocus => "no-autofocus"@,
            Rule::NoDistractingElements => "no-distracting-elements"@,
            Rule::NoInteractiveElementToNoninteractiveRole => "no-interactive-element-to-noninteractive-role"@,
            Rule::NoNoninteractiveElementInteractions => "no-noninteractive-element-interactions"@,
            Rule::NoNoninteractiveElementToInteractiveRole => "no-noninteractive-element-to-interactive-role"@,
            Rule::NoNoninteractiveTabindex => "no-noninteractive-tabindex"@,
            Rule::NoRedundantRoles => "no-redundant-roles"@,
            Rule::NoStaticElementInteractions => "no-static-element-interactions"@,
            Rule::PreferTagOverRole => "prefer-tag-over-role"@,
            Rule::RoleHasRequiredAriaProps => "role-has-required-aria-props"@,
            Rule::RoleSupportsAriaProps => "role-supports-aria-props"@,
            Rule::Scope => "scope"@,
            Rule::TabindexNoPositive => "tabindex-no-positive"@,
        }
    }

    /// The kebab-case identifier of this rule.
    pub fn to_string(&self) -> (r: String)
        ensures
            r@ == self.id_spec(),
    {
        match self {
            Rule::AltText => String::from_str("alt-text"),
            Rule::AnchorAmbiguousText => String::from_str("anchor-ambiguous-text"),
            Rule::AnchorHasContent => String::from_str("anchor-has-content"),
            Rule::AnchorIsValid => String::from_str("anchor-is-valid"),
            Rule::AriaActivedescendantHasTabindex => String::from_str("aria-activedescendant-has-tabindex"),
            Rule::AriaProps => String::from_str("aria-props"),
            Rule::AriaProptypes => String::from_str("aria-proptypes"),
            Rule::AriaRole => String::from_str("aria-role"),
            Rule::AriaUnsupportedElements => String::from_str("aria-unsupported-elements"),
            Rule::AutocompleteValid => String::from_str("autocomplete-valid"),
            Rule::ClickEventsHaveKeyEvents => String::from_str("click-events-have-key-events"),
            Rule::ControlHasAssociatedLabel => String::from_str("control-has-associated-label"),
            Rule::HeadingHasContent => String::from_str("heading-has-content"),
            Rule::HtmlHasLang => String::from_str("html-has-lang"),
            Rule::IframeHasTitle => String::from_str("iframe-has-title"),
            Rule::ImgRedundantAlt => String::from_str("img-redundant-alt"),
            Rule::InteractiveSupportsFocus => String::from_str("interactive-supports-focus"),
            Rule::LabelHasAssociatedControl => String::from_str("label-has-associated-control"),
            Rule::Lang => String::from_str("lang"),
            Rule::MediaHasCaption => String::from_str("media-has-caption"),
            Rule::MouseEventsHaveKeyEvents => String::from_str("mouse-events-have-key-events"),
            Rule::NoAccessKey => String::from_str("no-access-key"),
            Rule::NoAriaHiddenOnFocusable => String::from_str("no-aria-hidden-on-focusable"),
            Rule::NoAutofocus => String::from_str("no-autofocus"),
            Rule::NoDistractingElements => String::from_str("no-distracting-elements"),
            Rule::NoInteractiveElementToNoninteractiveRole => String::from_str("no-interactive-element-to-noninteractive-role"),
            Rule::NoNoninteractiveElementInteractions => String::from_str("no-noninteractive-element-interactions"),
            Rule::NoNoninteractiveElementToInteractiveRole => String::from_str("no-noninteractive-element-to-interactive-role"),
            Rule::NoNoninteractiveTabindex => String::from_str("no-noninteractive-tabindex"),
            Rule::NoRedundantRoles => String::from_str("no-redundant-roles"),
            Rule::NoStaticElementInteractions => String::from_str("no-static-element-interactions"),
            Rule::PreferTagOverRole => String::from_str("prefer-tag-over-role"),
            Rule::RoleHasRequiredAriaProps => String::from_str("role-has-required-aria-props"),
            Rule::RoleSupportsAriaProps => String::from_str("role-supports-aria-props"),
            Rule::Scope => String::from_str("scope"),
            Rule::TabindexNoPositive => String::from_str("tabindex-no-positive"),
        }
    }

    /// Looks a rule identifier up: `Some` exactly for the identifiers of
    /// the table, `None` for every other string.
    pub fn from_str(s: &str) -> (r: Option<Rule>)
        ensures
            match r {
                Some(x) => x.id_spec() == s@,
                None => forall|x: Rule| x.id_spec() != s@,
            },
    {
        if str_eq(s, "alt-text") {
            return Some(Rule::AltText);
        }
        if str_eq(s, "anchor-ambiguous-text") {
            return Some(Rule::AnchorAmbiguousText);
        }
        if str_eq(s, "anchor-has-content") {
            return Some(Rule::AnchorHasContent);
        }
        if str_eq(s, "anchor-is-valid") {
            return Some(Rule::AnchorIsValid);
        }
        if str_eq(s, "aria-activedescendant-has-tabindex") {
            return Some(Rule::AriaActivedescendantHasTabindex);
        }
        if str_eq(s, "aria-props") {
            return Some(Rule::AriaProps);
        }
        if str_eq(s, "aria-proptypes") {
            return Some(Rule::AriaProptypes);
        }
        if str_eq(s, "aria-role") {
            return Some(Rule::AriaRole);
        }
        if str_eq(s, "aria-unsupported-elements") {
            return Some(Rule::AriaUnsupportedElements);
        }
        if str_eq(s, "autocomplete-valid") {
            return Some(Rule::AutocompleteValid);
        }
        if str_eq(s, "click-events-have-key-events") {
            return Some(Rule::ClickEventsHaveKeyEvents);
        }
        if str_eq(s, "control-has-associated-label") {
            return Some(Rule::ControlHasAssociatedLabel);
        }
        if str_eq(s, "heading-has-content") {
            return Some(Rule::HeadingHasContent);
        }
        if str_eq(s, "html-has-lang") {
            return Some(Rule::HtmlHasLang);
        }
        if str_eq(s, "iframe-has-title") {
            return Some(Rule::IframeHasTitle);
        }
        if str_eq(s, "img-redundant-alt") {
            return Some(Rule::ImgRedundantAlt);
        }
        if str_eq(s, "interactive-supports-focus") {
            return Some(Rule::InteractiveSupportsFocus);
        }
        if str_eq(s, "label-has-associated-control") {
            return Some(Rule::LabelHasAssociatedControl);
        }
        if str_eq(s, "lang") {
            return Some(Rule::Lang);
        }
        if str_eq(s, "media-has-caption") {
            return Some(Rule::MediaHasCaption);
        }
        if str_eq(s, "mouse-events-have-key-events") {
            return Some(Rule::MouseEventsHaveKeyEvents);
        }
        if str_eq(s, "no-access-key") {
            return Some(Rule::NoAccessKey);
        }
        if str_eq(s, "no-aria-hidden-on-focusable") {
            return Some(Rule::NoAriaHiddenOnFocusable);
        }
        if str_eq(s, "no-autofocus") {
            return Some(Rule::NoAutofocus);
        }
        if str_eq(s, "no-distracting-elements") {
            return Some(Rule::NoDistractingElements);
        }
        if str_eq(s, "no-interactive-element-to-noninteractive-role") {
            return Some(Rule::NoInteractiveElementToNoninteractiveRole);
        }
        if str_eq(s, "no-noninteractive-element-interactions") {
            return Some(Rule::NoNoninteractiveElementInteractions);
        }
        if str_eq(s, "no-noninteractive-element-to-interactive-role") {
            return Some(Rule::NoNoninteractiveElementToInteractiveRole);
        }
        if str_eq(s, "no-noninteractive-tabindex") {
            return Some(Rule::NoNoninteractiveTabindex);
        }
        if str_eq(s, "no-redundant-roles") {
            return Some(Rule::NoRedundantRoles);
        }
        if str_eq(s, "no-static-element-interactions") {
            return Some(Rule::NoStaticElementInteractions);
        }
        if str_eq(s, "prefer-tag-over-role") {
            return Some(Rule::PreferTagOverRole);
        }
        if str_eq(s, "role-has-required-aria-props") {
            return Some(Rule::RoleHasRequiredAriaProps);
        }
        if str_eq(s, "role-supports-aria-props") {
            return Some(Rule::RoleSupportsAriaProps);
        }
        if str_eq(s, "scope") {
            return Some(Rule::Scope);
        }
        if str_eq(s, "tabindex-no-positive") {
            return Some(Rule::TabindexNoPositive);
        }
        assert forall|x: Rule| x.id_spec() != s@ by {
        }
        None
    }

    /// The severity every diagnostic of this rule carries.
    pub open spec fn severity_spec(self) -> Severity {
        match self {
            Rule::AltText => Severity::Error,
            Rule::AnchorAmbiguousText => Severity::Warning,
            Rule::AnchorHasContent => Severity::Warning,
            Rule::AnchorIsValid => Severity::Warning,
            Rule::AriaActivedescendantHasTabindex => Severity::Warning,
            Rule::AriaProps => Severity::Error,
            Rule::AriaProptypes => Severity::Error,
            Rule::AriaRole => Severity::Error,
            Rule::AriaUnsupportedElements => Severity::Error,
            Rule::AutocompleteValid => Severity::Error,
            Rule::ClickEventsHaveKeyEvents => Severity::Warning,
            Rule::ControlHasAssociatedLabel => Severity::Warning,
            Rule::HeadingHasContent => Severity::Warning,
            Rule::HtmlHasLang => Severity::Warning,
            Rule::IframeHasTitle => Severity::Warning,
            Rule::ImgRedundantAlt => Severity::Warning,
            Rule::InteractiveSupportsFocus => Severity::Warning,
            Rule::LabelHasAssociatedControl => Severity::Warning,
            Rule::Lang => Severity::Error,
            Rule::MediaHasCaption => Severity::Warning,
            Rule::MouseEventsHaveKeyEvents => Severity::Warning,
            Rule::NoAccessKey => Severity::Warning,
            Rule::NoAriaHiddenOnFocusable => Severity::Error,
            Rule::NoAutofocus => Severity::Warning,
            Rule::NoDistractingElements => Severity::Error,
            Rule::NoInteractiveElementToNoninteractiveRole => Severity::Warning,
            Rule::NoNoninteractiveElementInteractions => Severity::Warning,
            Rule::NoNoninteractiveElementToInteractiveRole => Severity::Warning,
            Rule::NoNoninteractiveTabindex => Severity::Warning,
            Rule::NoRedundantRoles => Severity::Warning,
            Rule::NoStaticElementInteractions => Severity::Warning,
            Rule::PreferTagOverRole => Severity::Info,
            Rule::RoleHasRequiredAriaProps => Severity::Error,
            Rule::RoleSupportsAriaProps => Severity::Warning,
            Rule::Scope => Severity::Warning,
            Rule::TabindexNoPositive => Severity::Warning,
        }
    }

    /// What this rule checks.
    pub fn description(&self) -> &'static str {
        match self {
            Rule::AltText => "Enforce all elements that require alternative text have meaningful information to relay back to end user.",
            Rule::AnchorAmbiguousText => "Enforce <a> text to not exactly match \"click here\", \"here\", \"link\", or \"a link\".",
            Rule::AnchorHasContent => "Enforce all anchors to contain accessible content.",
            Rule::AnchorIsValid => "Enforce all anchors are valid, navigable elements.",
            Rule::AriaActivedescendantHasTabindex => "Enforce elements with aria-activedescendant are tabbable.",
            Rule::AriaProps => "Enforce all aria-* props are valid.",
            Rule::AriaProptypes => "Enforce ARIA state and property values are valid.",
            Rule::AriaRole => "Enforce that elements with ARIA roles must use a valid, non-abstract ARIA role.",
            Rule::AriaUnsupportedElements => "Enforce that elements that do not support ARIA roles, states, and properties do not have those attributes.",
            Rule::AutocompleteValid => " \tEnforce that autocomplete attributes are used correctly.",
            Rule::ClickEventsHaveKeyEvents => "Enforce a clickable non-interactive element has at least one keyboard event listener.",
            Rule::ControlHasAssociatedLabel => "Enforce that a control (an interactive element) has a text label.",
            Rule::HeadingHasContent => "Enforce heading (h1, h2, etc) elements contain accessible content.",
            Rule::HtmlHasLang => "Enforce <html> element has lang prop.",
            Rule::IframeHasTitle => "Enforce iframe elements have a title attribute.",
            Rule::ImgRedundantAlt => "Enforce <img> alt prop does not contain the word \"image\", \"picture\", or \"photo\".",
            Rule::InteractiveSupportsFocus => "Enforce that elements with interactive handlers like onClick must be focusable.",
            Rule::LabelHasAssociatedControl => "Enforce that a label tag has a text label and an associated control.",
            Rule::Lang => "Enforce lang attribute has a valid value.",
            Rule::MediaHasCaption => "Enforces that <audio> and <video> elements must have a <track> for captions.",
            Rule::MouseEventsHaveKeyEvents => "Enforce that onMouseOver/onMouseOut are accompanied by onFocus/onBlur for keyboard-only users.",
            Rule::NoAccessKey => "Enforce that the accessKey prop is not used on any element to avoid complications with keyboard commands used by a screen reader.",
            Rule::NoAriaHiddenOnFocusable => "Disallow aria-hidden=\"true\" from being set on focusable elements.",
            Rule::NoAutofocus => "Enforce autoFocus prop is not used.",
            Rule::NoDistractingElements => "Enforce distracting elements are not used.",
            Rule::NoInteractiveElementToNoninteractiveRole => "Interactive elements should not be assigned non-interactive roles.",
            Rule::NoNoninteractiveElementInteractions => "Non-interactive elements should not be assigned mouse or keyboard event listeners.",
            Rule::NoNoninteractiveElementToInteractiveRole => "Non-interactive elements should not be assigned interactive roles.",
            Rule::NoNoninteractiveTabindex => "Enforce tabIndex should only be declared on interactive elements.",
            Rule::NoRedundantRoles => "Enforce explicit role property is not the same as implicit/default role property on element.",
            Rule::NoStaticElementInteractions => "Enforce that non-interactive, visible elements (such as <div>) that have click handlers use the role attribute.",
            Rule::PreferTagOverRole => "Enforces using semantic DOM elements over the ARIA role property.",
            Rule::RoleHasRequiredAriaProps => "Enforce that elements with ARIA roles must have all required attributes for that role.",
            Rule::RoleSupportsAriaProps => "Enforce that elements with explicit or implicit roles defined contain only aria-* properties supported by that role.",
            Rule::Scope => "Enforce scope prop is only used on <th> elements.",
            Rule::TabindexNoPositive => "Enforce tabIndex value is not greater than zero.",
        }
    }

    /// The WCAG guidelines behind this rule.
    pub fn guidelines(&self) -> &'static [&'static str] {
        match self {
            Rule::AltText => &["https://www.w3.org/WAI/WCAG21/Understanding/non-text-content.html"],
            Rule::AnchorAmbiguousText => &[],
            Rule::AnchorHasContent => &["https://www.w3.org/WAI/WCAG21/Understanding/link-purpose-in-context", "https://www.w3.org/WAI/WCAG21/Understanding/name-role-value"],
            Rule::AnchorIsValid => &["https://www.w3.org/WAI/WCAG21/Understanding/keyboard"],
            Rule::AriaActivedescendantHasTabindex => &[""],
            Rule::AriaProps => &["https://www.w3.org/WAI/WCAG21/Understanding/name-role-value"],
            Rule::AriaProptypes => &["https://www.w3.org/WAI/WCAG21/Understanding/name-role-value"],
            Rule::AriaRole => &["https://www.w3.org/WAI/WCAG21/Understanding/name-role-value"],
            Rule::AriaUnsupportedElements => &["https://www.w3.org/WAI/WCAG21/Understanding/name-role-value"],
            Rule::AutocompleteValid => &["https://www.w3.org/WAI/WCAG21/Understanding/identify-input-purpose"],
            Rule::ClickEventsHaveKeyEvents => &["https://www.w3.org/WAI/WCAG21/Understanding/keyboard"],
            Rule::ControlHasAssociatedLabel => &["https://www.w3.org/WAI/WCAG21/Understanding/info-and-relationships", "https://www.w3.org/WAI/WCAG21/Understanding/labels-or-instructions", "https://www.w3.org/WAI/WCAG21/Understanding/name-role-value"],
            Rule::HeadingHasContent => &["https://www.w3.org/TR/UNDERSTANDING-WCAG20/navigation-mechanisms-descriptive.html"],
            Rule::HtmlHasLang => &["https://www.w3.org/WAI/WCAG21/Understanding/language-of-page"],
            Rule::IframeHasTitle => &["https://www.w3.org/WAI/WCAG21/Understanding/bypass-blocks", "https://www.w3.org/WAI/WCAG21/Understanding/name-role-value"],
            Rule::ImgRedundantAlt => &[],
            Rule::InteractiveSupportsFocus => &["https://www.w3.org/WAI/WCAG21/Understanding/keyboard"],
            Rule::LabelHasAssociatedControl => &["https://www.w3.org/WAI/WCAG21/Understanding/info-and-relationships", "https://www.w3.org/WAI/WCAG21/Understanding/labels-or-instructions", "https://www.w3.org/WAI/WCAG21/Understanding/name-role-value"],
            Rule::Lang => &["https://www.w3.org/WAI/WCAG21/Understanding/language-of-page"],
            Rule::MediaHasCaption => &["https://www.w3.org/WAI/WCAG21/Understanding/captions-prerecorded.html", "https://www.w3.org/WAI/WCAG21/Understanding/audio-description-or-media-alternative-prerecorded.html"],
            Rule::MouseEventsHaveKeyEvents => &["https://www.w3.org/WAI/WCAG21/Understanding/keyboard"],
            Rule::NoAccessKey => &[],
            Rule::NoAriaHiddenOnFocusable => &[],
            Rule::NoAutofocus => &[],
            Rule::NoDistractingElements => &["https://www.w3.org/WAI/WCAG21/Understanding/pause-stop-hide"],
            Rule::NoInteractiveElementToNoninteractiveRole => &["https://www.w3.org/WAI/WCAG21/Understanding/name-role-value"],
            Rule::NoNoninteractiveElementInteractions => &["https://www.w3.org/WAI/WCAG21/Understanding/name-role-value"],
            Rule::NoNoninteractiveElementToInteractiveRole => &["https://www.w3.org/WAI/WCAG21/Understanding/name-role-value"],
            Rule::NoNoninteractiveTabindex => &["https://www.w3.org/WAI/WCAG21/Understanding/keyboard"],
            Rule::NoRedundantRoles => &[],
            Rule::NoStaticElementInteractions => &["https://www.w3.org/WAI/WCAG21/Understanding/name-role-value"],
            Rule::PreferTagOverRole => &["https://www.w3.org/TR/wai-aria-1.0/roles"],
            Rule::RoleHasRequiredAriaProps => &["https://www.w3.org/WAI/WCAG21/Understanding/name-role-value"],
            Rule::RoleSupportsAriaProps => &["https://www.w3.org/WAI/WCAG21/Understanding/name-role-value"],
            Rule::Scope => &["https://www.w3.org/WAI/WCAG21/Understanding/info-and-relationships", "https://www.w3.org/WAI/WCAG21/Understanding/parsing"],
            Rule::TabindexNoPositive => &["https://www.w3.org/WAI/WCAG21/Understanding/focus-order"],
        }
    }

    /// Further reading on this rule.
    pub fn resources(&self) -> &'static [&'static str] {
        match self {
            Rule::AltText => &["https://dequeuniversity.com/rules/axe/3.2/object-alt", "https://dequeuniversity.com/rules/axe/3.2/image-alt", "https://dequeuniversity.com/rules/axe/3.2/input-image-alt", "https://dequeuniversity.com/rules/axe/3.2/area-alt"],
            Rule::AnchorAmbiguousText => &["https://webaim.org/techniques/hypertext/", "https://dequeuniversity.com/checklists/web/links"],
            Rule::AnchorHasContent => &["https://dequeuniversity.com/rules/axe/3.2/link-name"],
            Rule::AnchorIsValid => &["https://webaim.org/techniques/hypertext/", "https://marcysutton.com/links-vs-buttons-in-modern-web-applications/", "https://www.w3.org/TR/using-aria/#NOTES"],
            Rule::AriaActivedescendantHasTabindex => &["https://developer.mozilla.org/en-US/docs/Web/Accessibility/ARIA/ARIA_Techniques/Using_the_aria-activedescendant_attribute"],
            Rule::AriaProps => &[],
            Rule::AriaProptypes => &["https://www.w3.org/TR/wai-aria/#states_and_properties", "https://github.com/GoogleChrome/accessibility-developer-tools/wiki/Audit-Rules#ax_aria_04"],
            Rule::AriaRole => &["https://github.com/GoogleChrome/accessibility-developer-tools/wiki/Audit-Rules#ax_aria_01", "https://www.w3.org/TR/dpub-aria-1.0/", "https://developer.mozilla.org/en-US/docs/Web/Accessibility/ARIA/ARIA_Techniques"],
            Rule::AriaUnsupportedElements => &["https://github.com/GoogleChrome/accessibility-developer-tools/wiki/Audit-Rules#ax_aria_12", "https://www.w3.org/TR/dpub-aria-1.0/"],
            Rule::AutocompleteValid => &["https://dequeuniversity.com/rules/axe/3.2/autocomplete-valid", "https://www.w3.org/TR/html52/sec-forms.html#autofilling-form-controls-the-autocomplete-attribute"],
            Rule::ClickEventsHaveKeyEvents => &[],
            Rule::ControlHasAssociatedLabel => &[],
            Rule::HeadingHasContent => &["https://dequeuniversity.com/rules/axe/3.2/empty-heading"],
            Rule::HtmlHasLang => &["https://dequeuniversity.com/rules/axe/3.2/html-has-lang", "https://dequeuniversity.com/rules/axe/3.2/html-lang-valid"],
            Rule::IframeHasTitle => &["https://dequeuniversity.com/rules/axe/3.2/frame-title"],
            Rule::ImgRedundantAlt => &["https://webaim.org/techniques/alttext/"],
            Rule::InteractiveSupportsFocus => &["https://github.com/GoogleChrome/accessibility-developer-tools/wiki/Audit-Rules#ax_focus_02", "https://developer.mozilla.org/en-US/docs/Web/Accessibility/ARIA/ARIA_Techniques/Using_the_button_role#Keyboard_and_focus", "https://www.w3.org/TR/wai-aria-practices-1.1/#kbd_generalnav", "https://www.w3.org/TR/wai-aria-practices-1.1/#aria_ex"],
            Rule::LabelHasAssociatedControl => &[],
            Rule::Lang => &["https://dequeuniversity.com/rules/axe/3.2/valid-lang", "https://www.w3.org/International/articles/language-tags/", "https://www.iana.org/assignments/language-subtag-registry/language-subtag-registry"],
            Rule::MediaHasCaption => &["https://dequeuniversity.com/rules/axe/2.1/audio-caption", "https://dequeuniversity.com/rules/axe/2.1/video-caption"],
            Rule::MouseEventsHaveKeyEvents => &[],
            Rule::NoAccessKey => &["https://webaim.org/techniques/keyboard/accesskey#spec"],
            Rule::NoAriaHiddenOnFocusable => &["https://dequeuniversity.com/rules/axe/html/4.4/aria-hidden-focus", "https://www.w3.org/WAI/standards-guidelines/act/rules/6cfa84/proposed/", "https://developer.mozilla.org/en-US/docs/Web/Accessibility/ARIA/Attributes/aria-hidden"],
            Rule::NoAutofocus => &["https://html.spec.whatwg.org/multipage/interaction.html#attr-fe-autofocus", "https://www.brucelawson.co.uk/2009/the-accessibility-of-html-5-autofocus/"],
            Rule::NoDistractingElements => &["https://dequeuniversity.com/rules/axe/3.2/marquee", "https://dequeuniversity.com/rules/axe/3.2/blink"],
            Rule::NoInteractiveElementToNoninteractiveRole => &["https://www.w3.org/TR/wai-aria/#states_and_properties", "https://github.com/GoogleChrome/accessibility-developer-tools/wiki/Audit-Rules#ax_aria_04", "https://www.w3.org/TR/wai-aria-1.1/#usage_intro", "https://www.w3.org/TR/wai-aria-practices-1.1/#aria_ex", "https://www.w3.org/TR/wai-aria-practices-1.1/#kbd_generalnav", "https://developer.mozilla.org/en-US/docs/Web/Accessibility/ARIA/ARIA_Techniques/Using_the_button_role#Keyboard_and_focus"],
            Rule::NoNoninteractiveElementInteractions => &["https://www.w3.org/TR/wai-aria-1.1/#usage_intro", "https://www.w3.org/TR/wai-aria-practices-1.1/#aria_ex", "https://www.w3.org/TR/wai-aria-practices-1.1/#kbd_generalnav", "https://developer.mozilla.org/en-US/docs/Web/Accessibility/ARIA/ARIA_Techniques/Using_the_button_role#Keyboard_and_focus"],
            Rule::NoNoninteractiveElementToInteractiveRole => &["https://www.w3.org/TR/wai-aria-1.1/#usage_intro", "https://www.w3.org/TR/wai-aria-practices-1.1/#aria_ex", "https://www.w3.org/TR/wai-aria-practices-1.1/#kbd_generalnav", "https://developer.mozilla.org/en-US/docs/Web/Accessibility/ARIA/ARIA_Techniques/Using_the_button_role#Keyboard_and_focus"],
            Rule::NoNoninteractiveTabindex => &["https://www.w3.org/TR/wai-aria-practices-1.1/#kbd_generalnav"],
            Rule::NoRedundantRoles => &["https://www.w3.org/TR/using-aria/#aria-does-nothing", "https://developer.mozilla.org/en-US/docs/Web/HTML/Element/img#identifying_svg_as_an_image"],
            Rule::NoStaticElementInteractions => &["https://www.w3.org/TR/wai-aria-1.1/#usage_intro", "https://www.w3.org/TR/wai-aria-practices-1.1/#aria_ex", "https://www.w3.org/TR/wai-aria-practices-1.1/#kbd_generalnav", "https://developer.mozilla.org/en-US/docs/Web/Accessibility/ARIA/ARIA_Techniques/Using_the_button_role#Keyboard_and_focus"],
            Rule::PreferTagOverRole => &["https://developer.mozilla.org/en-US/docs/Web/Accessibility/ARIA/Roles"],
            Rule::RoleHasRequiredAriaProps => &["https://www.w3.org/TR/wai-aria/#roles", "https://github.com/GoogleChrome/accessibility-developer-tools/wiki/Audit-Rules#ax_aria_03"],
            Rule::RoleSupportsAriaProps => &["https://www.w3.org/TR/wai-aria/#states_and_properties", "https://github.com/GoogleChrome/accessibility-developer-tools/wiki/Audit-Rules#ax_aria_10"],
            Rule::Scope => &["https://dequeuniversity.com/rules/axe/3.5/scope-attr-valid"],
            Rule::TabindexNoPositive => &["https://github.com/GoogleChrome/accessibility-developer-tools/wiki/Audit-Rules#ax_focus_03"],
        }
    }
}

/// The rules in registry order: the order they are evaluated in, and the
/// final tie-break of the diagnostic order.
pub open spec fn rule_order() -> Seq<Rule> {
    seq![
        Rule::AltText,
        Rule::AnchorAmbiguousText,
        Rule::AnchorHasContent,
        Rule::AnchorIsValid,
        Rule::AriaActivedescendantHasTabindex,
        Rule::AriaProps,
        Rule::AriaProptypes,
        Rule::AriaRole,
        Rule::AriaUnsupportedElements,
        Rule::AutocompleteValid,
        Rule::ClickEventsHaveKeyEvents,
        Rule::ControlHasAssociatedLabel,
        Rule::HeadingHasContent,
        Rule::HtmlHasLang,
        Rule::IframeHasTitle,
        Rule::ImgRedundantAlt,
        Rule::InteractiveSupportsFocus,
        Rule::LabelHasAssociatedControl,
        Rule::Lang,
        Rule::MediaHasCaption,
        Rule::MouseEventsHaveKeyEvents,
        Rule::NoAccessKey,
        Rule::NoAriaHiddenOnFocusable,
        Rule::NoAutofocus,
        Rule::NoDistractingElements,
        Rule::NoInteractiveElementToNoninteractiveRole,
        Rule::NoNoninteractiveElementInteractions,
        Rule::NoNoninteractiveElementToInteractiveRole,
        Rule::NoNoninteractiveTabindex,
        Rule::NoRedundantRoles,
        Rule::NoStaticElementInteractions,
        Rule::PreferTagOverRole,
        Rule::RoleHasRequiredAriaProps,
        Rule::RoleSupportsAriaProps,
        Rule::Scope,
        Rule::TabindexNoPositive,
    ]
}

/// The rule registry, in evaluation order.
pub fn all_rules() -> (r: Vec<Rule>)
    ensures
        r@ == rule_order(),
{
    let r: Vec<Rule> = vec![
        Rule::AltText,
        Rule::AnchorAmbiguousText,
        Rule::AnchorHasContent,
        Rule::AnchorIsValid,
        Rule::AriaActivedescendantHasTabindex,
        Rule::AriaProps,
        Rule::AriaProptypes,
        Rule::AriaRole,
        Rule::AriaUnsupportedElements,
        Rule::AutocompleteValid,
        Rule::ClickEventsHaveKeyEvents,
        Rule::ControlHasAssociatedLabel,
        Rule::HeadingHasContent,
        Rule::HtmlHasLang,
        Rule::IframeHasTitle,
        Rule::ImgRedundantAlt,
        Rule::InteractiveSupportsFocus,
        Rule::LabelHasAssociatedControl,
        Rule::Lang,
        Rule::MediaHasCaption,
        Rule::MouseEventsHaveKeyEvents,
        Rule::NoAccessKey,
        Rule::NoAriaHiddenOnFocusable,
        Rule::NoAutofocus,
        Rule::NoDistractingElements,
        Rule::NoInteractiveElementToNoninteractiveRole,
        Rule::NoNoninteractiveElementInteractions,
        Rule::NoNoninteractiveElementToInteractiveRole,
        Rule::NoNoninteractiveTabindex,
        Rule::NoRedundantRoles,
        Rule::NoStaticElementInteractions,
        Rule::PreferTagOverRole,
        Rule::RoleHasRequiredAriaProps,
        Rule::RoleSupportsAriaProps,
        Rule::Scope,
        Rule::TabindexNoPositive,
    ];
    proof {
        assert(r@ =~= rule_order());
    }
    r
}

/// A lint diagnostic produced by a lint rule.
#[derive(Clone, Debug, PartialEq, Eq)]
pub struct LintDiagnostic {
    /// The rule that produced this diagnostic.
    pub rule: Rule,
    /// Human-readable message.
    pub message: String,
    /// Severity level.
    pub severity: Severity,
    /// The source unit where the issue was found.
    pub file: String,
    /// Line number (1-based).
    pub line: usize,
    /// Column number (0-based).
    pub column: usize,
    /// The element the issue was found on.
    pub element: Tag,
    /// Optional help text for fixing the issue.
    pub help: Option<String>,
}

/// The mathematical content of a diagnostic.
pub ghost struct DiagView {
    pub rule: Rule,
    pub message: Seq<char>,
    pub severity: Severity,
    pub file: Seq<char>,
    pub line: int,
    pub column: int,
    pub element: Tag,
    pub help: Option<Seq<char>>,
}

/// The view of an optional help text.
pub open spec fn opt_str_view(h: Option<String>) -> Option<Seq<char>> {
    match h {
        Some(s) => Some(s@),
        None => None,
    }
}

impl View for LintDiagnostic {
    type V = DiagView;

    open spec fn view(&self) -> DiagView {
        DiagView {
            rule: self.rule,
            message: self.message@,
            severity: self.severity,
            file: self.file@,
            line: self.line as int,
            column: self.column as int,
            element: self.element,
            help: opt_str_view(self.help),
        }
    }
}

/// The view of an optional diagnostic.
pub open spec fn opt_diag_view(r: Option<LintDiagnostic>) -> Option<DiagView> {
    match r {
        Some(d) => Some(d@),
        None => None,
    }
}

/// The views of a diagnostic list.
pub open spec fn diag_views(s: Seq<LintDiagnostic>) -> Seq<DiagView> {
    s.map_values(|d: LintDiagnostic| d@)
}

/// Builds a diagnostic for rule `rule` on element `e` at the given
/// position.
pub fn diag(
    rule: Rule,
    severity: Severity,
    e: &HtmlElement,
    line: usize,
    column: usize,
    message: String,
    help: Option<String>,
) -> (r: LintDiagnostic)
    ensures
        r@ == (DiagView {
            rule,
            message: message@,
            severity,
            file: e.file@,
            line: line as int,
            column: column as int,
            element: e.tag,
            help: opt_str_view(help),
        }),
{
    LintDiagnostic { rule, message, severity, file: e.file.clone(), line, column, element: e.tag, help }
}

/// The diagnostics the registry yields for one element, from rule `i` on.
pub open spec fn diags_from(e: HtmlElement, i: int) -> Seq<DiagView>
    decreases rule_order().len() - i,
{
    if i < 0 || i >= rule_order().len() {
        Seq::empty()
    } else {
        match crate::rules::check_spec(rule_order()[i], e) {
            Some(d) => seq![d] + diags_from(e, i + 1),
            None => diags_from(e, i + 1),
        }
    }
}

/// The diagnostics the registry yields for one element.
pub open spec fn element_diags(e: HtmlElement) -> Seq<DiagView> {
    diags_from(e, 0)
}

/// The diagnostics of a whole unit: each element's diagnostics in element
/// order, rule order within an element.
pub open spec fn unit_diags_from(elems: Seq<HtmlElement>, i: int) -> Seq<DiagView>
    decreases elems.len() - i,
{
    if i < 0 || i >= elems.len() {
        Seq::empty()
    } else {
        element_diags(elems[i]) + unit_diags_from(elems, i + 1)
    }
}

/// The diagnostics the rule registry yields for a sequence of elements.
pub open spec fn unit_diags(elems: Seq<HtmlElement>) -> Seq<DiagView> {
    unit_diags_from(elems, 0)
}

/// Run all lint rules on a collection of parsed HTML elements. Diagnostics
/// come out in discovery order: element order, registry order within an
/// element.
#[verifier::loop_isolation(false)]
pub fn run_all_lints(elements: &Vec<HtmlElement>) -> (r: Vec<LintDiagnostic>)
    ensures
        diag_views(r@) == unit_diags(elements@),
{
    let rules = all_rules();
    let mut out: Vec<LintDiagnostic> = Vec::new();
    assert(diag_views(out@) =~= Seq::<DiagView>::empty());
    let mut i: usize = 0;
    while i < elements.len()
        invariant
            0 <= i <= elements@.len(),
            rules@ == rule_order(),
            unit_diags(elements@) == diag_views(out@) + unit_diags_from(elements@, i as int),
        decreases elements@.len() - i,
    {
        let e = &elements[i];
        let mut j: usize = 0;
        while j < rules.len()
            invariant
                0 <= j <= rules@.len(),
                0 <= i < elements@.len(),
                rules@ == rule_order(),
                e == &elements@[i as int],
                unit_diags(elements@) == diag_views(out@) + diags_from(elements@[i as int], j as int)
                    + unit_diags_from(elements@, i + 1),
            decreases rules@.len() - j,
        {
            let rule = rules[j];
            let ghost pre = diag_views(out@);
            if let Some(d) = rule.check(e) {
                out.push(d);
                proof {
                    assert(diag_views(out@) =~= pre.push(d@));
                    assert(pre.push(d@) + diags_from(elements@[i as int], j + 1) =~= pre + (seq![d@]
                        + diags_from(elements@[i as int], j + 1)));
                }
            }
            j += 1;
        }
        i += 1;
    }
    assert(diag_views(out@) =~= diag_views(out@) + unit_diags_from(elements@, i as int));
    out
}

} // verus!

