//! Tests of the whole pipeline: fixture projects fed through
//! `check_project`, the report order, the run statistics, and the filters.

use rsx_a11y::dom::{AttributeName, Tag};
use rsx_a11y::element::{AttrValue, HtmlAttribute, HtmlElement, ParseError};
use rsx_a11y::lints::{run_all_lints, LintDiagnostic, Rule, Severity};
use rsx_a11y::{check_project, filter_diagnostics, severity_counts, sort_diagnostics, LintSummary};

fn tag(n: &str) -> Tag {
    Tag::from_str(n).unwrap()
}

fn attr(line: usize, name: &str, value: Option<&str>) -> HtmlAttribute {
    let v = match value {
        Some(s) => AttrValue::Static(String::from(s)),
        None => AttrValue::Dynamic,
    };
    HtmlAttribute { name: AttributeName::from_str(name).unwrap(), value: Some(v), line, column: 16 }
}

fn elem(file: &str, line: usize, t: &str, attrs: Vec<HtmlAttribute>, has_children: bool) -> HtmlElement {
    HtmlElement {
        tag: tag(t),
        attributes: attrs,
        is_self_closing: !has_children,
        has_children,
        line,
        column: 12,
        file: String::from(file),
    }
}


fn has_lint(diags: &[LintDiagnostic], id: Rule) -> bool {
    diags.iter().any(|d| d.rule == id)
}

const YEW: &str = "tests/fixtures/yew_component.rs";
const LEPTOS: &str = "tests/fixtures/leptos_component.rs";

/// The elements of the Yew fixture component, in document order.
fn yew_elements() -> Vec<HtmlElement> {
    vec![
        elem(YEW, 11, "div", vec![], true),
        elem(YEW, 13, "img", vec![attr(13, "src", Some("logo.png"))], false),
        elem(YEW, 16, "div", vec![attr(16, "aria-foo", Some("bar"))], true),
        elem(YEW, 19, "div", vec![attr(19, "aria-hidden", Some("yes"))], true),
        elem(YEW, 22, "div", vec![attr(22, "role", Some("banana"))], true),
        elem(YEW, 25, "span", vec![attr(25, "role", Some("widget"))], true),
        elem(YEW, 28, "button", vec![attr(28, "role", Some("button"))], true),
        elem(YEW, 31, "button", vec![attr(31, "accesskey", Some("s"))], true),
        elem(YEW, 34, "input", vec![attr(34, "autofocus", Some("true"))], false),
        elem(YEW, 37, "div", vec![attr(37, "onclick", None)], true),
        elem(YEW, 40, "div", vec![attr(40, "tabindex", Some("5"))], true),
        elem(YEW, 43, "span", vec![attr(43, "tabindex", Some("0"))], true),
        elem(YEW, 46, "a", vec![attr(46, "href", Some("#"))], true),
        elem(YEW, 49, "marquee", vec![], true),
        elem(YEW, 52, "iframe", vec![attr(52, "src", Some("https://example.com"))], false),
        elem(YEW, 55, "img", vec![attr(55, "src", Some("cat.jpg")), attr(55, "alt", Some("image of a cat"))], false),
        elem(YEW, 58, "h1", vec![], false),
        elem(YEW, 61, "meta", vec![attr(61, "aria-label", Some("test"))], false),
        elem(YEW, 64, "td", vec![attr(64, "scope", Some("row"))], true),
        elem(YEW, 67, "input", vec![], false),
        elem(YEW, 70, "label", vec![], false),
        elem(YEW, 81, "div", vec![], true),
        elem(YEW, 83, "img", vec![attr(83, "src", Some("logo.png")), attr(83, "alt", Some("Company logo"))], false),
        elem(
            YEW,
            86,
            "div",
            vec![
                attr(86, "aria-label", Some("Main content")),
                attr(86, "aria-hidden", Some("true")),
                attr(86, "role", Some("main")),
            ],
            true,
        ),
        elem(YEW, 91, "button", vec![attr(91, "onclick", None)], true),
        elem(YEW, 94, "div", vec![attr(94, "onclick", None), attr(94, "onkeydown", None)], true),
        elem(YEW, 97, "a", vec![attr(97, "href", Some("/about"))], true),
        elem(YEW, 100, "input", vec![attr(100, "aria-label", Some("Search"))], false),
        elem(YEW, 103, "h1", vec![], true),
        elem(
            YEW,
            106,
            "iframe",
            vec![attr(106, "src", Some("https://example.com")), attr(106, "title", Some("Example iframe"))],
            false,
        ),
        elem(
            YEW,
            109,
            "img",
            vec![attr(109, "src", Some("cat.jpg")), attr(109, "alt", Some("A fluffy orange tabby sleeping on a cushion"))],
            false,
        ),
        elem(YEW, 112, "img", vec![attr(112, "src", Some("decoration.png")), attr(112, "role", Some("presentation"))], false),
        elem(YEW, 115, "label", vec![attr(115, "for", Some("email"))], true),
        elem(YEW, 118, "button", vec![attr(118, "tabindex", Some("0"))], true),
        elem(YEW, 121, "th", vec![attr(121, "scope", Some("col"))], true),
    ]
}

/// The elements of the Leptos fixture component, in document order.
fn leptos_elements() -> Vec<HtmlElement> {
    vec![
        elem(LEPTOS, 11, "div", vec![], true),
        elem(LEPTOS, 13, "img", vec![attr(13, "src", Some("photo.jpg"))], false),
        elem(LEPTOS, 16, "div", vec![attr(16, "aria-roledescriptions", Some("test"))], true),
        elem(LEPTOS, 19, "button", vec![attr(19, "aria-pressed", Some("yes"))], true),
        elem(LEPTOS, 22, "div", vec![attr(22, "role", Some("superbutton"))], true),
        elem(LEPTOS, 25, "nav", vec![attr(25, "role", Some("navigation"))], true),
        elem(LEPTOS, 28, "div", vec![attr(28, "on:click", None)], true),
        elem(LEPTOS, 31, "a", vec![attr(31, "href", Some(""))], true),
        elem(LEPTOS, 34, "video", vec![attr(34, "src", Some("video.mp4"))], false),
        elem(LEPTOS, 44, "div", vec![], true),
        elem(LEPTOS, 45, "img", vec![attr(45, "src", Some("photo.jpg")), attr(45, "alt", Some("A beautiful sunset over the ocean"))], false),
        elem(LEPTOS, 47, "div", vec![attr(47, "aria-label", Some("Main content")), attr(47, "role", Some("main"))], true),
        elem(LEPTOS, 51, "button", vec![attr(51, "on:click", None)], true),
        elem(LEPTOS, 55, "nav", vec![attr(55, "aria-label", Some("Primary navigation"))], true),
        elem(LEPTOS, 56, "a", vec![attr(56, "href", Some("/home"))], true),
        elem(LEPTOS, 57, "a", vec![attr(57, "href", Some("/about"))], true),
        elem(LEPTOS, 60, "input", vec![attr(60, "aria-label", Some("Search"))], false),
        elem(LEPTOS, 62, "video", vec![attr(62, "src", Some("video.mp4")), attr(62, "aria-label", Some("Tutorial video"))], false),
    ]
}

fn fixture_units() -> Vec<Result<Vec<HtmlElement>, ParseError>> {
    vec![Ok(leptos_elements()), Ok(yew_elements())]
}

// --- Yew fixture ---

#[test]
fn test_yew_fixture_has_issues() {
    let diags = run_all_lints(&yew_elements());
    assert!(!diags.is_empty(), "Expected lint diagnostics from yew fixture");
}

#[test]
fn test_yew_invalid_aria_attribute_detected() {
    assert!(has_lint(&run_all_lints(&yew_elements()), Rule::AriaProps));
}

#[test]
fn test_yew_missing_alt_text_detected() {
    assert!(has_lint(&run_all_lints(&yew_elements()), Rule::AltText));
}

#[test]
fn test_yew_invalid_aria_value_detected() {
    assert!(has_lint(&run_all_lints(&yew_elements()), Rule::AriaProptypes));
}

#[test]
fn test_yew_invalid_role_detected() {
    assert!(has_lint(&run_all_lints(&yew_elements()), Rule::AriaRole));
}

#[test]
fn test_yew_redundant_role_detected() {
    assert!(has_lint(&run_all_lints(&yew_elements()), Rule::NoRedundantRoles));
}

#[test]
fn test_yew_no_access_key_detected() {
    assert!(has_lint(&run_all_lints(&yew_elements()), Rule::NoAccessKey));
}

#[test]
fn test_yew_no_autofocus_detected() {
    assert!(has_lint(&run_all_lints(&yew_elements()), Rule::NoAutofocus));
}

#[test]
fn test_yew_click_without_keyboard_detected() {
    assert!(has_lint(&run_all_lints(&yew_elements()), Rule::ClickEventsHaveKeyEvents));
}

#[test]
fn test_yew_no_distracting_elements_detected() {
    assert!(has_lint(&run_all_lints(&yew_elements()), Rule::NoDistractingElements));
}

#[test]
fn test_yew_anchor_is_valid_detected() {
    assert!(has_lint(&run_all_lints(&yew_elements()), Rule::AnchorIsValid));
}

#[test]
fn test_yew_no_redundant_alt_detected() {
    assert!(has_lint(&run_all_lints(&yew_elements()), Rule::ImgRedundantAlt));
}

#[test]
fn test_yew_iframe_has_title_detected() {
    assert!(has_lint(&run_all_lints(&yew_elements()), Rule::IframeHasTitle));
}

#[test]
fn test_yew_has_errors() {
    let diags = run_all_lints(&yew_elements());
    let errors: Vec<&LintDiagnostic> = diags.iter().filter(|d| d.severity == Severity::Error).collect();
    assert!(!errors.is_empty(), "Expected errors in yew fixture");
}

// --- Leptos fixture ---

#[test]
fn test_leptos_fixture_has_issues() {
    let diags = run_all_lints(&leptos_elements());
    assert!(!diags.is_empty(), "Expected lint diagnostics from leptos fixture");
}

#[test]
fn test_leptos_missing_alt_text_detected() {
    assert!(has_lint(&run_all_lints(&leptos_elements()), Rule::AltText));
}

#[test]
fn test_leptos_invalid_role_detected() {
    assert!(has_lint(&run_all_lints(&leptos_elements()), Rule::AriaRole));
}

// --- check_project ---

#[test]
fn test_check_project_finds_fixtures() {
    let summary = check_project(fixture_units());

    assert!(
        summary.files_checked >= 2,
        "Expected at least 2 fixture files with lintable elements, got {}",
        summary.files_checked
    );
    assert!(!summary.diagnostics.is_empty(), "Expected diagnostics from fixture files");
    assert!(summary.parse_errors.is_empty(), "Did not expect parse errors in fixtures");
}

#[test]
fn test_check_project_diagnostics_are_sorted() {
    let summary = check_project(fixture_units());

    for window in summary.diagnostics.windows(2) {
        let a = &window[0];
        let b = &window[1];
        assert!(
            (a.file.as_str(), a.line, a.column) <= (b.file.as_str(), b.line, b.column),
            "Diagnostics not sorted: ({}, {}:{}) came before ({}, {}:{})",
            a.file,
            a.line,
            a.column,
            b.file,
            b.line,
            b.column
        );
    }
}

#[test]
fn test_check_project_single_file() {
    let summary = check_project(vec![Ok(yew_elements())]);

    assert_eq!(summary.files_checked, 1);
    assert!(!summary.diagnostics.is_empty());
    assert!(
        summary.diagnostics.iter().all(|d| d.file.contains("yew")),
        "All diagnostics should come from the yew fixture"
    );
}

#[test]
fn test_check_project_filter_by_severity() {
    let summary = check_project(fixture_units());

    let errors: Vec<&LintDiagnostic> =
        summary.diagnostics.iter().filter(|d| d.severity == Severity::Error).collect();
    let warnings: Vec<&LintDiagnostic> =
        summary.diagnostics.iter().filter(|d| d.severity == Severity::Warning).collect();

    assert!(!errors.is_empty(), "Expected some errors in fixtures");
    assert!(!warnings.is_empty(), "Expected some warnings in fixtures");
    assert_eq!(
        errors.len() + warnings.len()
            + summary.diagnostics.iter().filter(|d| d.severity == Severity::Info).count(),
        summary.diagnostics.len()
    );
}

#[test]
fn test_check_project_filter_by_rule() {
    let summary = check_project(fixture_units());

    let alt_text_issues: Vec<&LintDiagnostic> =
        summary.diagnostics.iter().filter(|d| d.rule == Rule::AltText).collect();

    assert!(!alt_text_issues.is_empty(), "Expected alt-text diagnostics in fixtures");
}

#[test]
fn test_check_project_idempotent() {
    let a = check_project(fixture_units());
    let b = check_project(fixture_units());
    assert_eq!(a.diagnostics, b.diagnostics);
    assert_eq!(a.files_checked, b.files_checked);
}

#[test]
fn test_check_project_collects_parse_errors() {
    let units: Vec<Result<Vec<HtmlElement>, ParseError>> = vec![
        Ok(yew_elements()),
        Err(ParseError::SynError(String::from("broken.rs"), String::from("unexpected token"))),
        Ok(vec![]),
    ];
    let summary = check_project(units);
    assert_eq!(summary.parse_errors.len(), 1);
    // A unit with no elements does not count as checked.
    assert_eq!(summary.files_checked, 1);
    assert!(matches!(summary.parse_errors[0], ParseError::SynError(_, _)));
}

#[test]
fn test_parse_error_messages() {
    let e = ParseError::IoError(String::from("a.rs"), String::from("denied"));
    assert_eq!(e.message(), "Failed to read a.rs: denied");
    let e = ParseError::SynError(String::from("b.rs"), String::from("bad"));
    assert_eq!(e.message(), "Failed to parse b.rs: bad");
    let e = ParseError::RstmlError(String::from("c.rs"), String::from("oops"));
    assert_eq!(e.message(), "Invalid RSX in c.rs: oops");
}

// --- Sorting, statistics and filters ---

#[test]
fn test_sort_is_stable_for_equal_positions() {
    let first = elem("z.rs", 4, "img", vec![attr(4, "src", Some("x.png"))], false);
    let second = elem("a.rs", 4, "marquee", vec![], true);
    let mut diags = run_all_lints(&vec![first]);
    diags.extend(run_all_lints(&vec![second]));
    let sorted = sort_diagnostics(diags);
    // "a.rs" sorts before "z.rs" whatever the discovery order was.
    assert_eq!(sorted[0].rule, Rule::NoDistractingElements);
    assert_eq!(sorted[1].rule, Rule::AltText);
}

#[test]
fn test_severity_counts() {
    let diags = run_all_lints(&yew_elements());
    let (errors, warnings, infos) = severity_counts(&diags);
    assert_eq!(errors + warnings + infos, diags.len());
    assert!(errors > 0);
    assert!(warnings > 0);
    assert!(infos > 0);
}

#[test]
fn test_filter_diagnostics_only_and_skip() {
    let diags = run_all_lints(&yew_elements());
    let only = filter_diagnostics(diags.clone(), Some(vec![Rule::AltText]), None, false);
    assert!(!only.is_empty());
    assert!(only.iter().all(|d| d.rule == Rule::AltText));

    let skipped = filter_diagnostics(diags.clone(), None, Some(vec![Rule::AltText]), false);
    assert!(skipped.iter().all(|d| d.rule != Rule::AltText));

    let errors_only = filter_diagnostics(diags.clone(), None, None, true);
    assert!(!errors_only.is_empty());
    assert!(errors_only.iter().all(|d| d.severity == Severity::Error));

    let unfiltered = filter_diagnostics(diags.clone(), None, None, false);
    assert_eq!(unfiltered.len(), diags.len());
}

#[test]
fn test_rule_identifiers_round_trip() {
    assert_eq!(Rule::AltText.to_string(), "alt-text");
    assert_eq!(Rule::from_str("no-aria-hidden-on-focusable"), Some(Rule::NoAriaHiddenOnFocusable));
    assert_eq!(Rule::from_str("not-a-rule"), None);
    assert_eq!(
        Rule::from_str(&Rule::AriaActivedescendantHasTabindex.to_string()),
        Some(Rule::AriaActivedescendantHasTabindex),
    );
}

#[test]
fn test_rule_metadata_present() {
    assert!(!Rule::AltText.description().is_empty());
    assert!(!Rule::AltText.guidelines().is_empty());
    assert!(!Rule::AltText.resources().is_empty());
    assert!(Rule::AnchorAmbiguousText.guidelines().is_empty());
}
