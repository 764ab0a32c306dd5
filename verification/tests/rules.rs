//! Tests of the individual lint rules, one element at a time.

use rsx_a11y::dom::{AttributeName, Tag};
use rsx_a11y::element::{AttrValue, HtmlAttribute, HtmlElement};
use rsx_a11y::lints::{run_all_lints, LintDiagnostic, Rule, Severity};

fn tag(n: &str) -> Tag {
    Tag::from_str(n).unwrap()
}

fn attr(line: usize, name: &str, value: Option<&str>) -> HtmlAttribute {
    let v = match value {
        Some(s) => AttrValue::Static(String::from(s)),
        None => AttrValue::Dynamic,
    };
    HtmlAttribute { name: AttributeName::from_str(name).unwrap(), value: Some(v), line, column: 16 }
}

fn elem(file: &str, line: usize, t: &str, attrs: Vec<HtmlAttribute>, has_children: bool) -> HtmlElement {
    HtmlElement {
        tag: tag(t),
        attributes: attrs,
        is_self_closing: !has_children,
        has_children,
        line,
        column: 12,
        file: String::from(file),
    }
}

fn lint_one(e: HtmlElement) -> Vec<LintDiagnostic> {
    run_all_lints(&vec![e])
}

fn has_lint(diags: &[LintDiagnostic], id: Rule) -> bool {
    diags.iter().any(|d| d.rule == id)
}


#[test]
fn test_invalid_aria_attribute() {
    let diags = lint_one(elem("test.rs", 1, "div", vec![attr(1, "aria-foo", Some("bar"))], false));
    assert!(has_lint(&diags, Rule::AriaProps));
}

#[test]
fn test_valid_aria_attribute() {
    let diags = lint_one(elem("test.rs", 1, "div", vec![attr(1, "aria-label", Some("hello"))], false));
    assert!(!has_lint(&diags, Rule::AriaProps));
}

#[test]
fn test_invalid_aria_value() {
    let diags = lint_one(elem("test.rs", 1, "div", vec![attr(1, "aria-hidden", Some("yes"))], false));
    assert!(has_lint(&diags, Rule::AriaProptypes));
}

#[test]
fn test_valid_aria_value() {
    let diags = lint_one(elem("test.rs", 1, "div", vec![attr(1, "aria-hidden", Some("true"))], false));
    assert!(!has_lint(&diags, Rule::AriaProptypes));
}

#[test]
fn test_invalid_role() {
    let diags = lint_one(elem("test.rs", 1, "div", vec![attr(1, "role", Some("banana"))], false));
    assert!(has_lint(&diags, Rule::AriaRole));
}

#[test]
fn test_valid_role() {
    let diags = lint_one(elem("test.rs", 1, "div", vec![attr(1, "role", Some("navigation"))], false));
    assert!(!has_lint(&diags, Rule::AriaRole));
}

#[test]
fn test_abstract_role() {
    let diags = lint_one(elem("test.rs", 1, "div", vec![attr(1, "role", Some("widget"))], false));
    assert!(has_lint(&diags, Rule::AriaRole));
}

#[test]
fn test_redundant_role() {
    let diags = lint_one(elem("test.rs", 1, "button", vec![attr(1, "role", Some("button"))], true));
    assert!(has_lint(&diags, Rule::NoRedundantRoles));
}

#[test]
fn test_missing_alt_text() {
    let diags = lint_one(elem("test.rs", 1, "img", vec![attr(1, "src", Some("test.png"))], false));
    assert!(has_lint(&diags, Rule::AltText));
}

#[test]
fn test_img_with_alt() {
    let diags = lint_one(elem("test.rs", 1, "img", vec![attr(1, "src", Some("test.png")), attr(1, "alt", Some("A test image description"))], false));
    assert!(!has_lint(&diags, Rule::AltText));
}

#[test]
fn test_img_presentation_role() {
    let diags = lint_one(elem("test.rs", 1, "img", vec![attr(1, "src", Some("test.png")), attr(1, "role", Some("presentation"))], false));
    assert!(!has_lint(&diags, Rule::AltText));
}

#[test]
fn test_no_access_key() {
    let diags = lint_one(elem("test.rs", 1, "button", vec![attr(1, "accesskey", Some("s"))], true));
    assert!(has_lint(&diags, Rule::NoAccessKey));
}

#[test]
fn test_no_autofocus() {
    let diags = lint_one(elem("test.rs", 1, "input", vec![attr(1, "autofocus", None)], false));
    assert!(has_lint(&diags, Rule::NoAutofocus));
}

#[test]
fn test_no_distracting_elements() {
    let diags = lint_one(elem("test.rs", 1, "marquee", vec![], true));
    assert!(has_lint(&diags, Rule::NoDistractingElements));
}

#[test]
fn test_anchor_invalid_href() {
    let diags = lint_one(elem("test.rs", 1, "a", vec![attr(1, "href", Some("#"))], true));
    assert!(has_lint(&diags, Rule::AnchorIsValid));
}

#[test]
fn test_anchor_valid_href() {
    let diags = lint_one(elem("test.rs", 1, "a", vec![attr(1, "href", Some("/about"))], true));
    assert!(!has_lint(&diags, Rule::AnchorIsValid));
}

#[test]
fn test_no_redundant_alt() {
    let diags = lint_one(elem("test.rs", 1, "img", vec![attr(1, "src", Some("test.png")), attr(1, "alt", Some("image of a cat"))], false));
    assert!(has_lint(&diags, Rule::ImgRedundantAlt));
}

#[test]
fn test_positive_tabindex() {
    let diags = lint_one(elem("test.rs", 1, "div", vec![attr(1, "tabindex", Some("5"))], false));
    assert!(has_lint(&diags, Rule::TabindexNoPositive));
}

#[test]
fn test_click_without_keyboard() {
    let diags = lint_one(elem("test.rs", 1, "div", vec![attr(1, "onclick", None)], false));
    assert!(has_lint(&diags, Rule::ClickEventsHaveKeyEvents));
}

#[test]
fn test_click_without_keyboard_with_role_button() {
    let diags = lint_one(elem("test.rs", 1, "div", vec![attr(1, "role", Some("button")), attr(1, "onclick", None)], false));
    assert!(has_lint(&diags, Rule::ClickEventsHaveKeyEvents));
}

#[test]
fn test_click_on_button_ok() {
    let diags = lint_one(elem("test.rs", 1, "button", vec![attr(1, "onclick", None)], true));
    assert!(!has_lint(&diags, Rule::ClickEventsHaveKeyEvents));
}

#[test]
fn test_leptos_view_macro() {
    let diags = lint_one(elem("test.rs", 1, "img", vec![attr(1, "src", Some("test.png"))], false));
    assert!(has_lint(&diags, Rule::AltText));
}

#[test]
fn test_iframe_missing_title() {
    let diags = lint_one(elem("test.rs", 1, "iframe", vec![attr(1, "src", Some("https://example.com"))], false));
    assert!(has_lint(&diags, Rule::IframeHasTitle));
}

#[test]
fn test_aria_on_unsupported_element() {
    let diags = lint_one(elem("test.rs", 1, "meta", vec![attr(1, "aria-label", Some("test"))], false));
    assert!(has_lint(&diags, Rule::AriaUnsupportedElements));
}

#[test]
fn test_anchor_ambiguous_text_click_here() {
    let diags = lint_one(elem("test.rs", 1, "a", vec![attr(1, "href", Some("/x")), attr(1, "aria-label", Some("click here"))], true));
    assert!(has_lint(&diags, Rule::AnchorAmbiguousText));
}

#[test]
fn test_anchor_ambiguous_text_ok() {
    let diags = lint_one(elem("test.rs", 1, "a", vec![attr(1, "href", Some("/about")), attr(1, "aria-label", Some("Read about our company"))], true));
    assert!(!has_lint(&diags, Rule::AnchorAmbiguousText));
}

#[test]
fn test_anchor_has_content_empty() {
    let diags = lint_one(elem("test.rs", 1, "a", vec![attr(1, "href", Some("/about"))], false));
    assert!(has_lint(&diags, Rule::AnchorHasContent));
}

#[test]
fn test_anchor_has_content_with_children() {
    let diags = lint_one(elem("test.rs", 1, "a", vec![attr(1, "href", Some("/about"))], true));
    assert!(!has_lint(&diags, Rule::AnchorHasContent));
}

#[test]
fn test_anchor_has_content_with_aria_label() {
    let diags = lint_one(elem("test.rs", 1, "a", vec![attr(1, "href", Some("/about")), attr(1, "aria-label", Some("About us"))], false));
    assert!(!has_lint(&diags, Rule::AnchorHasContent));
}

#[test]
fn test_activedescendant_without_tabindex() {
    let diags = lint_one(elem("test.rs", 1, "div", vec![attr(1, "aria-activedescendant", Some("item1"))], false));
    assert!(has_lint(&diags, Rule::AriaActivedescendantHasTabindex));
}

#[test]
fn test_activedescendant_with_tabindex() {
    let diags = lint_one(elem("test.rs", 1, "div", vec![attr(1, "aria-activedescendant", Some("item1")), attr(1, "tabindex", Some("0"))], false));
    assert!(!has_lint(&diags, Rule::AriaActivedescendantHasTabindex));
}

#[test]
fn test_activedescendant_on_interactive_ok() {
    let diags = lint_one(elem("test.rs", 1, "input", vec![attr(1, "aria-activedescendant", Some("item1"))], false));
    assert!(!has_lint(&diags, Rule::AriaActivedescendantHasTabindex));
}

#[test]
fn test_autocomplete_valid() {
    let diags = lint_one(elem("test.rs", 1, "input", vec![attr(1, "autocomplete", Some("email"))], false));
    assert!(!has_lint(&diags, Rule::AutocompleteValid));
}

#[test]
fn test_autocomplete_invalid() {
    let diags = lint_one(elem("test.rs", 1, "input", vec![attr(1, "autocomplete", Some("banana"))], false));
    assert!(has_lint(&diags, Rule::AutocompleteValid));
}

#[test]
fn test_control_without_label() {
    let diags = lint_one(elem("test.rs", 1, "input", vec![], false));
    assert!(has_lint(&diags, Rule::ControlHasAssociatedLabel));
}

#[test]
fn test_control_with_aria_label() {
    let diags = lint_one(elem("test.rs", 1, "input", vec![attr(1, "aria-label", Some("Search"))], false));
    assert!(!has_lint(&diags, Rule::ControlHasAssociatedLabel));
}

#[test]
fn test_button_with_children_ok() {
    let diags = lint_one(elem("test.rs", 1, "button", vec![], true));
    assert!(!has_lint(&diags, Rule::ControlHasAssociatedLabel));
}

#[test]
fn test_heading_empty() {
    let diags = lint_one(elem("test.rs", 1, "h2", vec![], false));
    assert!(has_lint(&diags, Rule::HeadingHasContent));
}

#[test]
fn test_heading_with_content() {
    let diags = lint_one(elem("test.rs", 1, "h2", vec![], true));
    assert!(!has_lint(&diags, Rule::HeadingHasContent));
}

#[test]
fn test_heading_with_aria_label() {
    let diags = lint_one(elem("test.rs", 1, "h2", vec![attr(1, "aria-label", Some("Title"))], false));
    assert!(!has_lint(&diags, Rule::HeadingHasContent));
}

#[test]
fn test_html_missing_lang() {
    let diags = lint_one(elem("test.rs", 1, "html", vec![], false));
    assert!(has_lint(&diags, Rule::HtmlHasLang));
}

#[test]
fn test_html_with_lang() {
    let diags = lint_one(elem("test.rs", 1, "html", vec![attr(1, "lang", Some("en"))], false));
    assert!(!has_lint(&diags, Rule::HtmlHasLang));
}

#[test]
fn test_interactive_role_without_tabindex() {
    let diags = lint_one(elem("test.rs", 1, "div", vec![attr(1, "role", Some("button")), attr(1, "onclick", None)], false));
    assert!(has_lint(&diags, Rule::InteractiveSupportsFocus));
}

#[test]
fn test_interactive_role_with_tabindex() {
    let diags = lint_one(elem("test.rs", 1, "div", vec![attr(1, "role", Some("button")), attr(1, "onclick", None), attr(1, "tabindex", Some("0"))], false));
    assert!(!has_lint(&diags, Rule::InteractiveSupportsFocus));
}

#[test]
fn test_label_without_for_or_children() {
    let diags = lint_one(elem("test.rs", 1, "label", vec![], false));
    assert!(has_lint(&diags, Rule::LabelHasAssociatedControl));
}

#[test]
fn test_label_with_for() {
    let diags = lint_one(elem("test.rs", 1, "label", vec![attr(1, "for", Some("email"))], true));
    assert!(!has_lint(&diags, Rule::LabelHasAssociatedControl));
}

#[test]
fn test_lang_invalid_value() {
    let diags = lint_one(elem("test.rs", 1, "html", vec![attr(1, "lang", Some("123"))], false));
    assert!(has_lint(&diags, Rule::Lang));
}

#[test]
fn test_lang_valid_value() {
    let diags = lint_one(elem("test.rs", 1, "html", vec![attr(1, "lang", Some("en-US"))], false));
    assert!(!has_lint(&diags, Rule::Lang));
}

#[test]
fn test_video_without_caption() {
    let diags = lint_one(elem("test.rs", 1, "video", vec![attr(1, "src", Some("v.mp4"))], false));
    assert!(has_lint(&diags, Rule::MediaHasCaption));
}

#[test]
fn test_audio_without_caption() {
    let diags = lint_one(elem("test.rs", 1, "audio", vec![attr(1, "src", Some("a.mp3"))], false));
    assert!(has_lint(&diags, Rule::MediaHasCaption));
}

#[test]
fn test_video_with_aria_label_ok() {
    let diags = lint_one(elem("test.rs", 1, "video", vec![attr(1, "src", Some("v.mp4")), attr(1, "aria-label", Some("Tutorial"))], false));
    assert!(!has_lint(&diags, Rule::MediaHasCaption));
}

#[test]
fn test_mouseover_without_focus() {
    let diags = lint_one(elem("test.rs", 1, "div", vec![attr(1, "onmouseover", None)], false));
    assert!(has_lint(&diags, Rule::MouseEventsHaveKeyEvents));
}

#[test]
fn test_mouseover_with_focus_ok() {
    let diags = lint_one(elem("test.rs", 1, "div", vec![attr(1, "onmouseover", None), attr(1, "onfocus", None)], false));
    assert!(!has_lint(&diags, Rule::MouseEventsHaveKeyEvents));
}

#[test]
fn test_mouseout_without_blur() {
    let diags = lint_one(elem("test.rs", 1, "div", vec![attr(1, "onmouseout", None)], false));
    assert!(has_lint(&diags, Rule::MouseEventsHaveKeyEvents));
}

#[test]
fn test_aria_hidden_on_button() {
    let diags = lint_one(elem("test.rs", 1, "button", vec![attr(1, "aria-hidden", Some("true"))], true));
    assert!(has_lint(&diags, Rule::NoAriaHiddenOnFocusable));
}

#[test]
fn test_aria_hidden_on_nonfocusable_ok() {
    let diags = lint_one(elem("test.rs", 1, "div", vec![attr(1, "aria-hidden", Some("true"))], false));
    assert!(!has_lint(&diags, Rule::NoAriaHiddenOnFocusable));
}

#[test]
fn test_button_with_noninteractive_role() {
    let diags = lint_one(elem("test.rs", 1, "button", vec![attr(1, "role", Some("article"))], true));
    assert!(has_lint(&diags, Rule::NoInteractiveElementToNoninteractiveRole));
}

#[test]
fn test_button_with_interactive_role_ok() {
    let diags = lint_one(elem("test.rs", 1, "button", vec![attr(1, "role", Some("tab"))], true));
    assert!(!has_lint(&diags, Rule::NoInteractiveElementToNoninteractiveRole));
}

#[test]
fn test_article_with_click_handler() {
    let diags = lint_one(elem("test.rs", 1, "article", vec![attr(1, "onclick", None)], false));
    assert!(has_lint(&diags, Rule::NoNoninteractiveElementInteractions));
}

#[test]
fn test_article_with_interactive_role_and_click_ok() {
    let diags = lint_one(elem("test.rs", 1, "article", vec![attr(1, "role", Some("button")), attr(1, "onclick", None)], false));
    assert!(!has_lint(&diags, Rule::NoNoninteractiveElementInteractions));
}

#[test]
fn test_div_with_interactive_role() {
    let diags = lint_one(elem("test.rs", 1, "div", vec![attr(1, "role", Some("button"))], false));
    assert!(has_lint(&diags, Rule::NoNoninteractiveElementToInteractiveRole));
}

#[test]
fn test_div_with_noninteractive_role_ok() {
    let diags = lint_one(elem("test.rs", 1, "div", vec![attr(1, "role", Some("article"))], false));
    assert!(!has_lint(&diags, Rule::NoNoninteractiveElementToInteractiveRole));
}

#[test]
fn test_span_with_tabindex_zero() {
    let diags = lint_one(elem("test.rs", 1, "span", vec![attr(1, "tabindex", Some("0"))], false));
    assert!(has_lint(&diags, Rule::NoNoninteractiveTabindex));
}

#[test]
fn test_span_with_tabindex_negative_ok() {
    let diags = lint_one(elem("test.rs", 1, "span", vec![attr(1, "tabindex", Some("-1"))], false));
    assert!(!has_lint(&diags, Rule::NoNoninteractiveTabindex));
}

#[test]
fn test_div_with_handler_no_role() {
    let diags = lint_one(elem("test.rs", 1, "div", vec![attr(1, "onclick", None)], false));
    assert!(has_lint(&diags, Rule::NoStaticElementInteractions));
}

#[test]
fn test_div_with_handler_and_role_ok() {
    let diags = lint_one(elem("test.rs", 1, "div", vec![attr(1, "role", Some("button")), attr(1, "onclick", None)], false));
    assert!(!has_lint(&diags, Rule::NoStaticElementInteractions));
}

#[test]
fn test_prefer_tag_over_role_button() {
    let diags = lint_one(elem("test.rs", 1, "div", vec![attr(1, "role", Some("button"))], false));
    assert!(has_lint(&diags, Rule::PreferTagOverRole));
}

#[test]
fn test_prefer_tag_same_element_ok() {
    let diags = lint_one(elem("test.rs", 1, "button", vec![attr(1, "role", Some("button"))], true));
    assert!(!has_lint(&diags, Rule::PreferTagOverRole));
}

#[test]
fn test_checkbox_missing_checked() {
    let diags = lint_one(elem("test.rs", 1, "div", vec![attr(1, "role", Some("checkbox"))], false));
    assert!(has_lint(&diags, Rule::RoleHasRequiredAriaProps));
}

#[test]
fn test_checkbox_with_checked_ok() {
    let diags = lint_one(elem("test.rs", 1, "div", vec![attr(1, "role", Some("checkbox")), attr(1, "aria-checked", Some("false"))], false));
    assert!(!has_lint(&diags, Rule::RoleHasRequiredAriaProps));
}

#[test]
fn test_unsupported_aria_prop_for_role() {
    let diags = lint_one(elem("test.rs", 1, "div", vec![attr(1, "role", Some("alert")), attr(1, "aria-checked", Some("true"))], false));
    assert!(has_lint(&diags, Rule::RoleSupportsAriaProps));
}

#[test]
fn test_supported_aria_prop_for_role_ok() {
    let diags = lint_one(elem("test.rs", 1, "div", vec![attr(1, "role", Some("alert")), attr(1, "aria-label", Some("Warning"))], false));
    assert!(!has_lint(&diags, Rule::RoleSupportsAriaProps));
}

#[test]
fn test_scope_on_td() {
    let diags = lint_one(elem("test.rs", 1, "td", vec![attr(1, "scope", Some("row"))], true));
    assert!(has_lint(&diags, Rule::Scope));
}

#[test]
fn test_scope_on_th_ok() {
    let diags = lint_one(elem("test.rs", 1, "th", vec![attr(1, "scope", Some("col"))], true));
    assert!(!has_lint(&diags, Rule::Scope));
}

// --- Exact single-diagnostic scenarios ---

#[test]
fn test_scenario_img_missing_alt_exact() {
    let diags = lint_one(elem("test.rs", 1, "img", vec![attr(1, "src", Some("x.png"))], false));
    assert_eq!(diags.len(), 1);
    assert_eq!(diags[0].rule, Rule::AltText);
    assert_eq!(diags[0].severity, Severity::Error);
    assert_eq!(diags[0].message, "<img> element is missing an `alt` attribute.");
}

#[test]
fn test_scenario_bad_aria_hidden_exact() {
    let diags = lint_one(elem("test.rs", 1, "div", vec![attr(1, "aria-hidden", Some("yes"))], false));
    assert_eq!(diags.len(), 1);
    assert_eq!(diags[0].rule, Rule::AriaProptypes);
    assert_eq!(diags[0].severity, Severity::Error);
    assert_eq!(
        diags[0].message,
        "Invalid value \"yes\" for `aria-hidden` on <div>. Expected \"true\", \"false\", or \"undefined\".",
    );
}

#[test]
fn test_scenario_redundant_button_role_exact() {
    let diags = lint_one(elem("test.rs", 1, "button", vec![attr(1, "role", Some("button"))], true));
    assert_eq!(diags.len(), 1);
    assert_eq!(diags[0].rule, Rule::NoRedundantRoles);
    assert_eq!(diags[0].severity, Severity::Warning);
}

#[test]
fn test_scenario_abstract_widget_role_exact() {
    let diags = lint_one(elem("test.rs", 1, "div", vec![attr(1, "role", Some("widget"))], false));
    assert_eq!(diags.len(), 1);
    assert_eq!(diags[0].rule, Rule::AriaRole);
    assert_eq!(diags[0].severity, Severity::Error);
    assert_eq!(
        diags[0].message,
        "Abstract ARIA role \"widget\" must not be used on <div>. Abstract roles are for ontology purposes only.",
    );
}

#[test]
fn test_scenario_th_scope_clean() {
    let diags = lint_one(elem("test.rs", 1, "th", vec![attr(1, "scope", Some("col"))], true));
    assert_eq!(diags.len(), 0);
}

#[test]
fn test_scenario_noninteractive_tabindex_exact() {
    let diags = lint_one(elem("test.rs", 1, "div", vec![attr(1, "tabindex", Some("0"))], false));
    assert_eq!(diags.len(), 1);
    assert_eq!(diags[0].rule, Rule::NoNoninteractiveTabindex);
    assert_eq!(diags[0].severity, Severity::Warning);
}

#[test]
fn test_scenario_aria_hidden_focusable_exact_error() {
    let diags = lint_one(elem("test.rs", 1, "button", vec![attr(1, "aria-hidden", Some("true"))], true));
    let errors: Vec<&LintDiagnostic> = diags.iter().filter(|d| d.severity == Severity::Error).collect();
    assert_eq!(errors.len(), 1);
    assert_eq!(errors[0].rule, Rule::NoAriaHiddenOnFocusable);
}

// --- Case folding and trimming feed the text rules ---

#[test]
fn test_redundant_alt_uppercase_word() {
    let diags = lint_one(
        elem("test.rs", 1, "img", vec![attr(1, "src", Some("cat.jpg")), attr(1, "alt", Some("IMAGE of a cat"))], false),
    );
    assert!(has_lint(&diags, Rule::ImgRedundantAlt));
}

#[test]
fn test_ambiguous_text_mixed_case_padded() {
    let diags = lint_one(
        elem("test.rs", 1, "a", vec![attr(1, "aria-label", Some("  Click HERE "))], true),
    );
    assert!(has_lint(&diags, Rule::AnchorAmbiguousText));
}

// --- Numeric attribute values ---

#[test]
fn test_tabindex_overflowing_value_ignored() {
    let diags = lint_one(elem("test.rs", 1, "span", vec![attr(1, "tabindex", Some("2147483648"))], false));
    assert!(!has_lint(&diags, Rule::NoNoninteractiveTabindex));
    assert!(!has_lint(&diags, Rule::TabindexNoPositive));
}

#[test]
fn test_tabindex_dynamic_value_ignored() {
    let diags = lint_one(elem("test.rs", 1, "span", vec![attr(1, "tabindex", None)], false));
    assert!(!has_lint(&diags, Rule::NoNoninteractiveTabindex));
}

#[test]
fn test_aria_level_integer_bounds() {
    let ok = lint_one(elem("test.rs", 1, "div", vec![attr(1, "aria-level", Some("9223372036854775807"))], false));
    assert!(!has_lint(&ok, Rule::AriaProptypes));
    let bad = lint_one(elem("test.rs", 1, "div", vec![attr(1, "aria-level", Some("9223372036854775808"))], false));
    assert!(has_lint(&bad, Rule::AriaProptypes));
}

#[test]
fn test_aria_valuenow_number_grammar() {
    let ok = lint_one(elem("test.rs", 1, "div", vec![attr(1, "aria-valuenow", Some("1.5e3"))], false));
    assert!(!has_lint(&ok, Rule::AriaProptypes));
    let inf = lint_one(elem("test.rs", 1, "div", vec![attr(1, "aria-valuenow", Some("-inf"))], false));
    assert!(!has_lint(&inf, Rule::AriaProptypes));
    let bad = lint_one(elem("test.rs", 1, "div", vec![attr(1, "aria-valuenow", Some("1.5e"))], false));
    assert!(has_lint(&bad, Rule::AriaProptypes));
    let dot = lint_one(elem("test.rs", 1, "div", vec![attr(1, "aria-valuenow", Some("."))], false));
    assert!(has_lint(&dot, Rule::AriaProptypes));
}

// --- Autocomplete token grammar ---

#[test]
fn test_autocomplete_with_section_prefix() {
    let diags = lint_one(
        elem("test.rs", 1, "input", vec![attr(1, "autocomplete", Some("section-blue shipping name"))], false),
    );
    assert!(!has_lint(&diags, Rule::AutocompleteValid));
}

#[test]
fn test_autocomplete_modifier_without_field() {
    let diags = lint_one(elem("test.rs", 1, "input", vec![attr(1, "autocomplete", Some("shipping"))], false));
    assert!(has_lint(&diags, Rule::AutocompleteValid));
}

// --- Language tags ---

#[test]
fn test_lang_subtag_shapes() {
    let ok = lint_one(elem("test.rs", 1, "html", vec![attr(1, "lang", Some("zh-Hans"))], false));
    assert!(!has_lint(&ok, Rule::Lang));
    let short = lint_one(elem("test.rs", 1, "html", vec![attr(1, "lang", Some("e"))], false));
    assert!(has_lint(&short, Rule::Lang));
    let empty_part = lint_one(elem("test.rs", 1, "html", vec![attr(1, "lang", Some("en-"))], false));
    assert!(has_lint(&empty_part, Rule::Lang));
}

// --- Fallback role lists ---

#[test]
fn test_role_fallback_list_flags_first_bad_token() {
    let diags = lint_one(
        elem("test.rs", 1, "div", vec![attr(1, "role", Some("navigation banana"))], false),
    );
    assert!(has_lint(&diags, Rule::AriaRole));
    let ok = lint_one(elem("test.rs", 1, "div", vec![attr(1, "role", Some("navigation search"))], false));
    assert!(!has_lint(&ok, Rule::AriaRole));
}

// --- Dynamic values never flag value rules ---

#[test]
fn test_dynamic_values_are_not_flagged() {
    let diags = lint_one(
        elem(
            "test.rs",
            1,
            "div",
            vec![attr(1, "aria-hidden", None), attr(1, "role", None), attr(1, "lang", None)],
            false,
        ),
    );
    assert!(!has_lint(&diags, Rule::AriaProptypes));
    assert!(!has_lint(&diags, Rule::AriaRole));
    assert!(!has_lint(&diags, Rule::Lang));
}

// --- Evaluating the registry twice gives identical output ---

#[test]
fn test_run_all_lints_idempotent() {
    let make = || {
        vec![
            elem("test.rs", 1, "img", vec![attr(1, "src", Some("x.png"))], false),
            elem("test.rs", 2, "div", vec![attr(2, "aria-hidden", Some("yes")), attr(2, "onclick", None)], false),
            elem("test.rs", 3, "button", vec![attr(3, "role", Some("button"))], true),
        ]
    };
    let a = run_all_lints(&make());
    let b = run_all_lints(&make());
    assert_eq!(a, b);
}
