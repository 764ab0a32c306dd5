//! Tests of the accessibility knowledge base tables.

use rsx_a11y::dom::{Aria, AriaValueType, AttributeName, Role, Tag};

#[test]
fn test_bool_value_validation() {
    let vtype = AriaValueType::Bool;
    assert!(vtype.is_valid("true"));
    assert!(vtype.is_valid("false"));
    assert!(!vtype.is_valid("yes"));
    assert!(!vtype.is_valid("1"));
}

#[test]
fn test_tristate_value_validation() {
    let vtype = AriaValueType::TristateBool;
    assert!(vtype.is_valid("true"));
    assert!(vtype.is_valid("false"));
    assert!(vtype.is_valid("mixed"));
    assert!(!vtype.is_valid("maybe"));
}

#[test]
fn test_implicit_roles() {
    assert_eq!(Tag::Button.implicit_role(), Some(Role::Button));
    assert_eq!(Tag::Nav.implicit_role(), Some(Role::Navigation));
    assert_eq!(Tag::H1.implicit_role(), Some(Role::Heading));
}

#[test]
fn test_enum_value_type_description() {
    let vtype = Aria::Autocomplete.value_type();
    assert!(vtype.is_valid("inline"));
    assert!(!vtype.is_valid("offline"));
    assert_eq!(
        vtype.expected_description(),
        "one of: \"inline\", \"list\", \"both\", \"none\"",
    );
}

#[test]
fn test_tag_names_round_trip() {
    assert_eq!(Tag::from_str("map"), Some(Tag::ImageMap));
    assert_eq!(Tag::ImageMap.name(), "map");
    assert_eq!(Tag::from_str("hgroup"), Some(Tag::HGroup));
    assert_eq!(Tag::from_str("bananas"), None);
    assert_eq!(Tag::Div.name(), "div");
    assert_eq!(Tag::from_str(Tag::Textarea.name()), Some(Tag::Textarea));
}

#[test]
fn test_role_names_round_trip() {
    assert_eq!(Role::from_str("none"), Some(Role::NoneRole));
    assert_eq!(Role::NoneRole.name(), "none");
    assert_eq!(Role::from_str("menuitemcheckbox"), Some(Role::MenuItemCheckbox));
    assert_eq!(Role::from_str("widget"), Some(Role::Widget));
    assert_eq!(Role::from_str("supersonic"), None);
}

#[test]
fn test_abstract_roles() {
    assert!(Role::Widget.is_abstract());
    assert!(Role::Structure.is_abstract());
    assert!(!Role::Button.is_abstract());
    assert!(!Role::NoneRole.is_abstract());
}

#[test]
fn test_required_aria_props() {
    assert_eq!(Role::Checkbox.required_aria_props(), &[Aria::Checked]);
    assert_eq!(Role::Combobox.required_aria_props(), &[Aria::Controls, Aria::Expanded]);
    assert_eq!(Role::Meter.required_aria_props(), &[Aria::ValueNow, Aria::ValueMax, Aria::ValueMin]);
    assert_eq!(Role::Alert.required_aria_props(), &[] as &[Aria]);
}

#[test]
fn test_preferred_tags() {
    assert_eq!(Role::Button.preferred_tag(), Some("<button>"));
    assert_eq!(Role::Navigation.preferred_tag(), Some("<nav>"));
    assert_eq!(Role::Alert.preferred_tag(), None);
}

#[test]
fn test_global_and_role_scoped_props() {
    assert!(Aria::Label.is_global());
    assert!(Aria::Hidden.is_global());
    assert!(!Aria::Checked.is_global());
    assert!(Aria::Checked.is_supported_by_role(&Role::Checkbox));
    assert!(!Aria::Checked.is_supported_by_role(&Role::Alert));
    assert!(Aria::Label.is_supported_by_role(&Role::Alert));
    // A pair absent from every allow-list counts as supported.
    assert!(Aria::Current.is_supported_by_role(&Role::Alert));
}

#[test]
fn test_tag_capabilities() {
    assert!(Tag::Button.is_interactive());
    assert!(!Tag::Div.is_interactive());
    assert!(!Tag::Meta.supports_aria());
    assert!(Tag::Div.supports_aria());
    assert!(Tag::H3.is_heading());
    assert!(Tag::Img.is_void_element());
    assert!(!Tag::Div.is_void_element());
    assert!(Tag::Div.is_static());
    assert!(!Tag::Nav.is_static());
    assert!(Tag::Nav.is_non_interactive_semantic());
    assert!(!Tag::Button.is_non_interactive_semantic());
}

#[test]
fn test_aria_names() {
    assert_eq!(Aria::ActiveDescendant.name(), "aria-activedescendant");
    assert_eq!(Aria::LabelledBy.name(), "aria-labelledby");
    assert_eq!(Aria::from_str("aria-checked"), Some(Aria::Checked));
    assert_eq!(Aria::from_str("aria-bananas"), None);
}

#[test]
fn test_attribute_name_lookup() {
    assert_eq!(AttributeName::from_str("onclick"), Some(AttributeName::OnClick));
    assert_eq!(AttributeName::from_str("on:click"), Some(AttributeName::OnClick));
    assert_eq!(AttributeName::from_str("html_for"), Some(AttributeName::For));
    assert_eq!(AttributeName::from_str("aria-label"), Some(AttributeName::Aria(Aria::Label)));
    assert_eq!(
        AttributeName::from_str("data-custom"),
        Some(AttributeName::Unknown(String::from("data-custom"))),
    );
    assert_eq!(AttributeName::Aria(Aria::Hidden).name(), "aria-hidden");
}
